//! The use cases: creating a task and finding one.

use crate::domain::{
    found, fresh_task, instant_of, is_random_uuid_text, saved, task_fault, utc_text,
};
use crate::domain::{
    Category, DueDate, Priority, RepositoryError, Task, TaskId, TaskRepository, TaskView,
    ValidationError,
};
use vstd::prelude::*;

verus! {

/// A task as it is shown: every part as text.
#[derive(Debug, PartialEq, Eq)]
pub struct TaskDTO {
    pub title: String,
    pub description: String,
    pub priority: String,
    pub category: String,
    pub due_date: String,
    pub status: String,
}

/// The texts of a `TaskDTO`.
pub struct TaskDTOView {
    pub title: Seq<char>,
    pub description: Seq<char>,
    pub priority: Seq<char>,
    pub category: Seq<char>,
    pub due_date: Seq<char>,
    pub status: Seq<char>,
}

impl View for TaskDTO {
    type V = TaskDTOView;

    open spec fn view(&self) -> TaskDTOView {
        TaskDTOView {
            title: self.title@,
            description: self.description@,
            priority: self.priority@,
            category: self.category@,
            due_date: self.due_date@,
            status: self.status@,
        }
    }
}

/// How a task is shown: its texts as they are, priority, category and status
/// by their labels, the due date as UTC date and time. A task without a due
/// date cannot be shown.
pub open spec fn presented(task: TaskView) -> Option<TaskDTOView> {
    match task.due_date {
        Some(due) => Some(
            TaskDTOView {
                title: task.title,
                description: task.description,
                priority: task.priority.label(),
                category: task.category.label(),
                due_date: utc_text(due.secs, due.nanos),
                status: task.status.label(),
            },
        ),
        None => None,
    }
}

impl TaskDTO {
    /// The six texts as one value.
    pub fn new(
        title: String,
        description: String,
        priority: String,
        category: String,
        due_date: String,
        status: String,
    ) -> (dto: Self)
        ensures
            dto == (TaskDTO { title, description, priority, category, due_date, status }),
    {
        Self { title, description, priority, category, due_date, status }
    }

    /// The task as it is shown, where it has a due date.
    pub fn of_task(task: &Task) -> (r: Option<Self>)
        ensures
            match r {
                Some(dto) => presented(task@) == Some(dto@),
                None => presented(task@) is None,
            },
    {
        match &task.due_date {
            Some(due) => Some(
                TaskDTO::new(
                    task.title.to_string(),
                    task.description.to_string(),
                    task.priority.to_string(),
                    task.category.to_string(),
                    due.to_string(),
                    task.status.to_string(),
                ),
            ),
            None => None,
        }
    }
}

/// The request to create a task.
#[derive(Debug)]
pub struct CreateTaskCommand {
    pub title: String,
    pub description: String,
    pub priority: Priority,
    pub category: Category,
    pub due_date: Option<DueDate>,
}

/// The request to show the task with an id.
#[derive(Debug)]
pub struct FindTaskCommand {
    pub id: TaskId,
}

/// The request to change a task.
#[derive(Debug)]
pub struct UpdateTaskCommand {}

/// The request to remove a task.
#[derive(Debug)]
pub struct DeleteTaskCommand {}

/// Why a task was not created.
#[derive(Debug, PartialEq, Eq)]
pub enum CreateTaskError {
    /// The title or the description was refused.
    Validation(ValidationError),
    /// A task is already stored under the id drawn for the new one.
    DuplicateId(TaskId),
    /// The repository failed.
    Repository(RepositoryError),
}

/// Why a task was not shown.
#[derive(Debug, PartialEq, Eq)]
pub enum FindTaskError {
    /// No task is stored under the id asked for.
    NotFound(TaskId),
    /// The task has no due date to show.
    MissingDueDate,
    /// The repository failed.
    Repository(RepositoryError),
}

/// Creates tasks in a repository.
pub struct CreateTaskApplicationService<R> where R: TaskRepository {
    repository: R,
}

impl<R> CreateTaskApplicationService<R> where R: TaskRepository {
    /// The repository that the service works on, for use in contracts.
    pub closed spec fn spec_repository(&self) -> &R {
        &self.repository
    }

    /// A service over the repository given.
    pub fn new(task_repository: R) -> (service: Self)
        ensures
            *service.repository() == task_repository,
    {
        Self { repository: task_repository }
    }

    /// The repository that the service works on.
    #[verifier::when_used_as_spec(spec_repository)]
    pub fn repository(&self) -> (r: &R)
        ensures
            r == self.repository(),
    {
        &self.repository
    }

    /// Gives the repository back.
    pub fn into_repository(self) -> (r: R)
        ensures
            r == *self.repository(),
    {
        self.repository
    }

    /// Makes a task of the command under a fresh id and stores it. A command
    /// whose title or description is refused does not reach the repository.
    pub fn execute(&mut self, command: CreateTaskCommand) -> (r: Result<(), CreateTaskError>)
        ensures
            final(self).repository().dependable() == old(self).repository().dependable(),
            match r {
                Ok(_) => {
                    &&& task_fault(command.title@, command.description@) is None
                    &&& exists|id: Seq<char>|
                        {
                            &&& #[trigger] is_random_uuid_text(id)
                            &&& found(old(self).repository().records(), id) is None
                            &&& final(self).repository().records() == saved(
                                old(self).repository().records(),
                                asked_for(id, command),
                            )
                        }
                },
                Err(CreateTaskError::Validation(e)) => {
                    &&& task_fault(command.title@, command.description@) == Some(e)
                    &&& *final(self) == *old(self)
                },
                Err(CreateTaskError::DuplicateId(id)) => {
                    &&& task_fault(command.title@, command.description@) is None
                    &&& is_random_uuid_text(id@)
                    &&& old(self).repository().records().contains_key(id@)
                    &&& final(self).repository().records() == old(self).repository().records()
                },
                Err(CreateTaskError::Repository(e)) => {
                    &&& task_fault(command.title@, command.description@) is None
                    &&& e is Other
                    &&& !old(self).repository().dependable()
                    &&& final(self).repository().records() == old(self).repository().records()
                },
            },
    {
        let task = match Task::new(
            command.title,
            command.description,
            command.priority,
            command.category,
            command.due_date,
        ) {
            Ok(task) => task,
            Err(e) => {
                return Err(CreateTaskError::Validation(e));
            },
        };
        self.register(task)
    }

    /// Stores a task that was just made, unless one is stored under its id
    /// already.
    pub fn register(&mut self, task: Task) -> (r: Result<(), CreateTaskError>)
        ensures
            final(self).repository().dependable() == old(self).repository().dependable(),
            match r {
                Ok(_) => {
                    &&& found(old(self).repository().records(), task.id@) is None
                    &&& final(self).repository().records() == saved(
                        old(self).repository().records(),
                        task@,
                    )
                },
                Err(CreateTaskError::Validation(_)) => false,
                Err(CreateTaskError::DuplicateId(id)) => {
                    &&& id@ == task.id@
                    &&& old(self).repository().records().contains_key(id@)
                    &&& final(self).repository().records() == old(self).repository().records()
                },
                Err(CreateTaskError::Repository(e)) => {
                    &&& e is Other
                    &&& !old(self).repository().dependable()
                    &&& final(self).repository().records() == old(self).repository().records()
                },
            },
    {
        match self.repository.find_by_id(&task.id) {
            Ok(_) => Err(CreateTaskError::DuplicateId(task.id)),
            Err(RepositoryError::NotFound) => match self.repository.save(&task) {
                Ok(_) => Ok(()),
                Err(e) => Err(CreateTaskError::Repository(e)),
            },
            Err(e) => Err(CreateTaskError::Repository(e)),
        }
    }
}

/// The task that a command asks for, under the id given.
pub open spec fn asked_for(id: Seq<char>, command: CreateTaskCommand) -> TaskView {
    fresh_task(
        id,
        command.title@,
        command.description@,
        command.priority,
        command.category,
        instant_of(command.due_date),
    )
}

/// Shows tasks of a repository.
pub struct FindTaskApplicationService<R> where R: TaskRepository {
    repository: R,
}

impl<R> FindTaskApplicationService<R> where R: TaskRepository {
    /// The repository that the service works on, for use in contracts.
    pub closed spec fn spec_repository(&self) -> &R {
        &self.repository
    }

    /// A service over the repository given.
    pub fn new(task_repository: R) -> (service: Self)
        ensures
            *service.repository() == task_repository,
    {
        Self { repository: task_repository }
    }

    /// The repository that the service works on.
    #[verifier::when_used_as_spec(spec_repository)]
    pub fn repository(&self) -> (r: &R)
        ensures
            r == self.repository(),
    {
        &self.repository
    }

    /// Gives the repository back.
    pub fn into_repository(self) -> (r: R)
        ensures
            r == *self.repository(),
    {
        self.repository
    }

    /// Looks the task up and shows it. The repository stays as it is.
    pub fn execute(&mut self, command: FindTaskCommand) -> (r: Result<TaskDTO, FindTaskError>)
        ensures
            *final(self) == *old(self),
            match r {
                Ok(dto) => {
                    &&& found(old(self).repository().records(), command.id@) matches Some(task)
                    &&& presented(task) == Some(dto@)
                },
                Err(FindTaskError::NotFound(id)) => {
                    &&& id == command.id
                    &&& found(old(self).repository().records(), command.id@) is None
                },
                Err(FindTaskError::MissingDueDate) => {
                    &&& found(old(self).repository().records(), command.id@) matches Some(task)
                    &&& task.due_date is None
                },
                Err(FindTaskError::Repository(e)) => {
                    &&& e is Other
                    &&& !old(self).repository().dependable()
                },
            },
    {
        let looked_up = self.repository.find_by_id(&command.id);
        answer(command.id, looked_up)
    }
}

/// What a lookup of `id` that ended in `looked_up` is answered with: the task
/// as it is shown; `MissingDueDate` where the task has no due date; `NotFound`
/// with the id where none is stored; the failure of the repository where it
/// failed.
pub fn answer(id: TaskId, looked_up: Result<Task, RepositoryError>) -> (r: Result<
    TaskDTO,
    FindTaskError,
>)
    ensures
        match looked_up {
            Ok(task) => match presented(task@) {
                Some(shown) => r matches Ok(dto) && dto@ == shown,
                None => r == Err::<TaskDTO, FindTaskError>(FindTaskError::MissingDueDate),
            },
            Err(RepositoryError::NotFound) => r == Err::<TaskDTO, FindTaskError>(
                FindTaskError::NotFound(id),
            ),
            Err(e) => r == Err::<TaskDTO, FindTaskError>(FindTaskError::Repository(e)),
        },
{
    match looked_up {
        Ok(task) => match TaskDTO::of_task(&task) {
            Some(dto) => Ok(dto),
            None => Err(FindTaskError::MissingDueDate),
        },
        Err(RepositoryError::NotFound) => Err(FindTaskError::NotFound(id)),
        Err(e) => Err(FindTaskError::Repository(e)),
    }
}

} // verus!
