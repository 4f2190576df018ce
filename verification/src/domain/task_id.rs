//! The identity of a task.

use uuid::Uuid;
use vstd::prelude::*;
use vstd::std_specs::cmp::PartialEqSpecImpl;
use vstd::std_specs::convert::FromSpecImpl;

verus! {

/// Whether `c` is one of the sixteen digits `0`-`9`, `a`-`f`.
pub open spec fn is_lower_hex(c: char) -> bool {
    ('0' <= c && c <= '9') || ('a' <= c && c <= 'f')
}

/// The canonical text of a random (version 4) UUID: 36 characters, lower-case
/// hexadecimal digits in groups of 8, 4, 4, 4 and 12 with a hyphen between
/// groups, the third group starting with `4` and the fourth with `8`, `9`,
/// `a` or `b`.
pub open spec fn is_random_uuid_text(text: Seq<char>) -> bool {
    &&& text.len() == 36
    &&& forall|i: int|
        0 <= i < 36 ==> if i == 8 || i == 13 || i == 18 || i == 23 {
            text[i] == '-'
        } else {
            is_lower_hex(#[trigger] text[i])
        }
    &&& text[14] == '4'
    &&& (text[19] == '8' || text[19] == '9' || text[19] == 'a' || text[19] == 'b')
}

/// Calls `uuid::Uuid::new_v4` and renders the identifier with its `Display`
/// impl, the hyphenated lower-case form. The contract claims that form and the
/// version and variant digits which `new_v4` fixes; which of the 2^122 such
/// texts comes back is left open. `new_v4` panics if the operating system
/// cannot supply random bytes.
#[verifier::external_body]
fn random_uuid_text() -> (text: String)
    ensures
        is_random_uuid_text(text@),
{
    Uuid::new_v4().to_string()
}

/// The identity of a task: an opaque text, equal to another id exactly when
/// the two texts are equal.
#[derive(Debug, Eq, Hash)]
pub struct TaskId {
    value: String,
}

impl View for TaskId {
    type V = Seq<char>;

    closed spec fn view(&self) -> Seq<char> {
        self.value@
    }
}

impl TaskId {
    /// A fresh identifier, drawn at random.
    pub fn new() -> (id: Self)
        ensures
            is_random_uuid_text(id@),
    {
        Self { value: random_uuid_text() }
    }

    /// The text of the identifier.
    pub fn to_string(&self) -> (text: String)
        ensures
            text@ == self@,
    {
        self.value.clone()
    }
}

impl Clone for TaskId {
    fn clone(&self) -> (r: Self)
        ensures
            r == *self,
    {
        Self { value: self.value.clone() }
    }
}

impl PartialEq for TaskId {
    fn eq(&self, other: &Self) -> (r: bool) {
        self.value == other.value
    }
}

impl PartialEqSpecImpl for TaskId {
    open spec fn obeys_eq_spec() -> bool {
        true
    }

    open spec fn eq_spec(&self, other: &Self) -> bool {
        self@ == other@
    }
}

impl From<String> for TaskId {
    fn from(item: String) -> (id: Self)
        ensures
            id@ == item@,
    {
        Self { value: item }
    }
}

impl FromSpecImpl<String> for TaskId {
    open spec fn obeys_from_spec() -> bool {
        true
    }

    closed spec fn from_spec(item: String) -> Self {
        Self { value: item }
    }
}

} // verus!
