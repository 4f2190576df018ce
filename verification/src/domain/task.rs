//! The task and the choices it holds.

use super::due_date::{DueDate, UtcInstant};
use super::task_id::{is_random_uuid_text, TaskId};
use super::text::{description_fault, title_fault, Description, Title, ValidationError};
use vstd::prelude::*;

verus! {

/// How urgent a task is.
#[derive(Debug, Clone, Copy, PartialEq, Eq, Structural)]
pub enum Priority {
    High,
    Medium,
    Low,
}

impl Priority {
    /// The name under which the priority is shown.
    pub open spec fn label(self) -> Seq<char> {
        match self {
            Priority::High => "High"@,
            Priority::Medium => "Medium"@,
            Priority::Low => "Low"@,
        }
    }

    /// The label of the priority as text.
    pub fn to_string(&self) -> (text: String)
        ensures
            text@ == self.label(),
    {
        match self {
            Priority::High => "High".to_owned(),
            Priority::Medium => "Medium".to_owned(),
            Priority::Low => "Low".to_owned(),
        }
    }
}

/// The part of life a task belongs to.
#[derive(Debug, Clone, Copy, PartialEq, Eq, Structural)]
pub enum Category {
    Work,
    Personal,
    Study,
    Other,
}

impl Category {
    /// The name under which the category is shown.
    pub open spec fn label(self) -> Seq<char> {
        match self {
            Category::Work => "Work"@,
            Category::Personal => "Personal"@,
            Category::Study => "Study"@,
            Category::Other => "Other"@,
        }
    }

    /// The label of the category as text.
    pub fn to_string(&self) -> (text: String)
        ensures
            text@ == self.label(),
    {
        match self {
            Category::Work => "Work".to_owned(),
            Category::Personal => "Personal".to_owned(),
            Category::Study => "Study".to_owned(),
            Category::Other => "Other".to_owned(),
        }
    }
}

/// How far a task has come. Every task starts at `Todo`.
#[derive(Debug, Clone, Copy, PartialEq, Eq, Structural)]
pub enum Status {
    Todo,
    InProgress,
    Completed,
}

impl Status {
    /// The name under which the status is shown.
    pub open spec fn label(self) -> Seq<char> {
        match self {
            Status::Todo => "Todo"@,
            Status::InProgress => "InProgress"@,
            Status::Completed => "Completed"@,
        }
    }

    /// The label of the status as text.
    pub fn to_string(&self) -> (text: String)
        ensures
            text@ == self.label(),
    {
        match self {
            Status::Todo => "Todo".to_owned(),
            Status::InProgress => "InProgress".to_owned(),
            Status::Completed => "Completed".to_owned(),
        }
    }
}

/// What a task holds, as plain values: the model that contracts speak of.
pub struct TaskView {
    pub id: Seq<char>,
    pub title: Seq<char>,
    pub description: Seq<char>,
    pub priority: Priority,
    pub category: Category,
    pub due_date: Option<UtcInstant>,
    pub status: Status,
}

/// The first rule that a new task's texts break, the title's before the
/// description's: `None` where both are acceptable.
pub open spec fn task_fault(title: Seq<char>, description: Seq<char>) -> Option<ValidationError> {
    if title_fault(title) is Some {
        title_fault(title)
    } else {
        description_fault(description)
    }
}

/// A piece of work to be done. Its parts are checked when it is made, so a
/// task that exists is valid.
#[derive(Debug, PartialEq, Eq)]
pub struct Task {
    pub id: TaskId,
    pub title: Title,
    pub description: Description,
    pub priority: Priority,
    pub category: Category,
    pub due_date: Option<DueDate>,
    pub status: Status,
}

/// The instant that a due date names, where there is one.
pub open spec fn instant_of(due_date: Option<DueDate>) -> Option<UtcInstant> {
    match due_date {
        Some(due) => Some(due@),
        None => None,
    }
}

/// The task that is made of these parts: it has not been begun.
pub open spec fn fresh_task(
    id: Seq<char>,
    title: Seq<char>,
    description: Seq<char>,
    priority: Priority,
    category: Category,
    due_date: Option<UtcInstant>,
) -> TaskView {
    TaskView { id, title, description, priority, category, due_date, status: Status::Todo }
}

impl View for Task {
    type V = TaskView;

    open spec fn view(&self) -> TaskView {
        TaskView {
            id: self.id@,
            title: self.title@,
            description: self.description@,
            priority: self.priority,
            category: self.category,
            due_date: instant_of(self.due_date),
            status: self.status,
        }
    }
}

impl Task {
    /// A task under a fresh random id, with status `Todo`. It is refused where
    /// the title or the description is, the title first.
    pub fn new(
        title: String,
        description: String,
        priority: Priority,
        category: Category,
        due_date: Option<DueDate>,
    ) -> (r: Result<Self, ValidationError>)
        ensures
            match r {
                Ok(task) => {
                    &&& task_fault(title@, description@) is None
                    &&& is_random_uuid_text(task.id@)
                    &&& task@ == fresh_task(
                        task.id@,
                        title@,
                        description@,
                        priority,
                        category,
                        instant_of(due_date),
                    )
                },
                Err(e) => task_fault(title@, description@) == Some(e),
            },
    {
        Self::with_id(TaskId::new(), title, description, priority, category, due_date)
    }

    /// A task under the id given, with status `Todo`. It is refused where the
    /// title or the description is, the title first.
    pub fn with_id(
        id: TaskId,
        title: String,
        description: String,
        priority: Priority,
        category: Category,
        due_date: Option<DueDate>,
    ) -> (r: Result<Self, ValidationError>)
        ensures
            match r {
                Ok(task) => {
                    &&& task_fault(title@, description@) is None
                    &&& task.id == id
                    &&& task@ == fresh_task(
                        id@,
                        title@,
                        description@,
                        priority,
                        category,
                        instant_of(due_date),
                    )
                },
                Err(e) => task_fault(title@, description@) == Some(e),
            },
    {
        let title = match Title::new(title) {
            Ok(title) => title,
            Err(e) => {
                return Err(e);
            },
        };
        let description = match Description::new(description) {
            Ok(description) => description,
            Err(e) => {
                return Err(e);
            },
        };
        Ok(Task { id, title, description, priority, category, due_date, status: Status::Todo })
    }

    /// The same task, completed.
    pub fn mark_completed(self) -> (r: Self)
        ensures
            r == (Task { status: Status::Completed, ..self }),
    {
        Self { status: Status::Completed, ..self }
    }

    /// The same task, with high priority.
    pub fn mark_high_priority(self) -> (r: Self)
        ensures
            r == (Task { priority: Priority::High, ..self }),
    {
        Self { priority: Priority::High, ..self }
    }

    /// The same task, with medium priority.
    pub fn mark_medium_priority(self) -> (r: Self)
        ensures
            r == (Task { priority: Priority::Medium, ..self }),
    {
        Self { priority: Priority::Medium, ..self }
    }

    /// The same task, with low priority.
    pub fn mark_low_priority(self) -> (r: Self)
        ensures
            r == (Task { priority: Priority::Low, ..self }),
    {
        Self { priority: Priority::Low, ..self }
    }
}

impl Clone for Task {
    fn clone(&self) -> (r: Self)
        ensures
            r == *self,
    {
        Task {
            id: self.id.clone(),
            title: self.title.clone(),
            description: self.description.clone(),
            priority: self.priority,
            category: self.category,
            due_date: self.due_date,
            status: self.status,
        }
    }
}

} // verus!
