//! Value objects, the `Task` entity and the repository contract.

mod due_date;
mod repository;
mod task;
mod task_id;
mod text;

pub use self::due_date::{utc_text, DueDate, UtcInstant, FIRST_SECOND, LAST_SECOND};
pub use self::repository::{
    deleted, found, is_hit, lemma_deleted_is_not_found, lemma_deleted_keeps_others,
    lemma_empty_finds_nothing, lemma_lists_all_counts, lemma_saved_is_found,
    lemma_saved_keeps_others, lists_all, saved, Records, RepositoryError, TaskDomainService,
    TaskRepository,
};
pub use self::task::{
    fresh_task, instant_of, task_fault, Category, Priority, Status, Task, TaskView,
};
pub use self::task_id::{is_lower_hex, is_random_uuid_text, TaskId};
pub use self::text::{
    code_units, description_fault, title_fault, Description, Title, ValidationError,
    DESCRIPTION_MAX, TITLE_MAX,
};
