//! The texts of a task: its title and its description.

use vstd::prelude::*;
use vstd::utf8::encode_utf8;

verus! {

/// Longest title that is accepted, in UTF-8 code units.
pub const TITLE_MAX: usize = 100;

/// Longest description that is accepted, in UTF-8 code units.
pub const DESCRIPTION_MAX: usize = 500;

/// The length of a text in UTF-8 code units, which is what `str::len` counts.
pub open spec fn code_units(text: Seq<char>) -> nat {
    encode_utf8(text).len()
}

/// Why a title or a description was turned down.
#[derive(Debug, Clone, Copy, PartialEq, Eq, Structural)]
pub enum ValidationError {
    /// The title holds no text at all.
    EmptyTitle,
    /// The title is longer than `TITLE_MAX` code units.
    TitleTooLong,
    /// The description is longer than `DESCRIPTION_MAX` code units.
    DescriptionTooLong,
}

impl ValidationError {
    /// The sentence that tells a user what was wrong.
    pub open spec fn text(self) -> Seq<char> {
        match self {
            ValidationError::EmptyTitle => "Title cannot be empty."@,
            ValidationError::TitleTooLong => "Title is too long (max 100 characters)"@,
            ValidationError::DescriptionTooLong => "Description is too long (max 500 characters)"@,
        }
    }

    /// The sentence as text.
    pub fn message(&self) -> (text: String)
        ensures
            text@ == self.text(),
    {
        match self {
            ValidationError::EmptyTitle => "Title cannot be empty.".to_owned(),
            ValidationError::TitleTooLong => "Title is too long (max 100 characters)".to_owned(),
            ValidationError::DescriptionTooLong => {
                "Description is too long (max 500 characters)".to_owned()
            },
        }
    }
}

/// The rule a title is held to: `None` where the text is acceptable.
pub open spec fn title_fault(text: Seq<char>) -> Option<ValidationError> {
    if code_units(text) == 0 {
        Some(ValidationError::EmptyTitle)
    } else if code_units(text) > TITLE_MAX {
        Some(ValidationError::TitleTooLong)
    } else {
        None
    }
}

/// The name of a task: between 1 and `TITLE_MAX` code units of text.
#[derive(Debug, PartialEq, Eq)]
pub struct Title {
    value: String,
}

impl View for Title {
    type V = Seq<char>;

    closed spec fn view(&self) -> Seq<char> {
        self.value@
    }
}

impl Title {
    #[verifier::type_invariant]
    spec fn well_formed(self) -> bool {
        title_fault(self.value@) is None
    }

    /// Accepts exactly the texts that `title_fault` finds no fault with and
    /// keeps them unchanged.
    pub fn new(title: String) -> (r: Result<Self, ValidationError>)
        ensures
            r is Ok <==> 1 <= code_units(title@) <= TITLE_MAX,
            match r {
                Ok(t) => title_fault(title@) is None && t@ == title@,
                Err(e) => title_fault(title@) == Some(e),
            },
    {
        let n: usize = title.as_str().as_bytes().len();
        if n == 0 {
            return Err(ValidationError::EmptyTitle);
        }
        if n > TITLE_MAX {
            return Err(ValidationError::TitleTooLong);
        }
        Ok(Self { value: title })
    }

    /// The text of the title.
    pub fn to_string(&self) -> (text: String)
        ensures
            text@ == self@,
            title_fault(text@) is None,
    {
        proof {
            use_type_invariant(self);
        }
        self.value.clone()
    }
}

impl Clone for Title {
    fn clone(&self) -> (r: Self)
        ensures
            r == *self,
    {
        proof {
            use_type_invariant(self);
        }
        Self { value: self.value.clone() }
    }
}

/// The rule a description is held to: `None` where the text is acceptable.
pub open spec fn description_fault(text: Seq<char>) -> Option<ValidationError> {
    if code_units(text) > DESCRIPTION_MAX {
        Some(ValidationError::DescriptionTooLong)
    } else {
        None
    }
}

/// What a task is about: at most `DESCRIPTION_MAX` code units of text, possibly none.
#[derive(Debug, PartialEq, Eq)]
pub struct Description {
    value: String,
}

impl View for Description {
    type V = Seq<char>;

    closed spec fn view(&self) -> Seq<char> {
        self.value@
    }
}

impl Description {
    #[verifier::type_invariant]
    spec fn well_formed(self) -> bool {
        description_fault(self.value@) is None
    }

    /// Accepts exactly the texts that `description_fault` finds no fault with
    /// and keeps them unchanged.
    pub fn new(description: String) -> (r: Result<Self, ValidationError>)
        ensures
            r is Ok <==> code_units(description@) <= DESCRIPTION_MAX,
            match r {
                Ok(d) => description_fault(description@) is None && d@ == description@,
                Err(e) => description_fault(description@) == Some(e),
            },
    {
        if description.as_str().as_bytes().len() > DESCRIPTION_MAX {
            return Err(ValidationError::DescriptionTooLong);
        }
        Ok(Self { value: description })
    }

    /// The text of the description.
    pub fn to_string(&self) -> (text: String)
        ensures
            text@ == self@,
            description_fault(text@) is None,
    {
        proof {
            use_type_invariant(self);
        }
        self.value.clone()
    }
}

impl Clone for Description {
    fn clone(&self) -> (r: Self)
        ensures
            r == *self,
    {
        proof {
            use_type_invariant(self);
        }
        Self { value: self.value.clone() }
    }
}

} // verus!
