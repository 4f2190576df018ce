//! Where tasks are kept: the contract of a repository and what follows from it.

use super::task::{Task, TaskView};
use super::task_id::TaskId;
use vstd::prelude::*;

verus! {

/// Why a repository could not do what it was asked.
#[derive(Debug, PartialEq, Eq)]
pub enum RepositoryError {
    /// No task is stored under the id.
    NotFound,
    /// The backend failed for a reason of its own, which the text describes.
    Other(String),
}

/// What a repository holds: the tasks, each under the text of its id.
pub type Records = Map<Seq<char>, TaskView>;

/// The records of a repository after `task` was saved: the task stands under
/// its id, whether or not another stood there before.
pub open spec fn saved(records: Records, task: TaskView) -> Records {
    records.insert(task.id, task)
}

/// The task that the records hold under `id`, if any.
pub open spec fn found(records: Records, id: Seq<char>) -> Option<TaskView> {
    if records.contains_key(id) {
        Some(records[id])
    } else {
        None
    }
}

/// The records of a repository after the task under `id` was deleted.
pub open spec fn deleted(records: Records, id: Seq<char>) -> Records {
    records.remove(id)
}

/// A task that was saved is found under its id, as it was saved.
pub proof fn lemma_saved_is_found(records: Records, task: TaskView)
    ensures
        found(saved(records, task), task.id) == Some(task),
{
}

/// Saving a task leaves the tasks under other ids as they were.
pub proof fn lemma_saved_keeps_others(
    records: Records,
    task: TaskView,
    id: Seq<char>,
)
    requires
        id != task.id,
    ensures
        found(saved(records, task), id) == found(records, id),
{
}

/// A task that was deleted is no longer found under its id.
pub proof fn lemma_deleted_is_not_found(records: Records, id: Seq<char>)
    ensures
        found(deleted(records, id), id) is None,
{
}

/// Deleting a task leaves the tasks under other ids as they were.
pub proof fn lemma_deleted_keeps_others(
    records: Records,
    gone: Seq<char>,
    id: Seq<char>,
)
    requires
        id != gone,
    ensures
        found(deleted(records, gone), id) == found(records, id),
{
}

/// Nothing is found where nothing is stored.
pub proof fn lemma_empty_finds_nothing(id: Seq<char>)
    ensures
        found(Records::empty(), id) is None,
{
}

/// Whether `tasks` lists the records, each once and under its own id, in
/// whatever order.
pub open spec fn lists_all(tasks: Seq<Task>, records: Records) -> bool {
    &&& forall|i: int|
        0 <= i < tasks.len() ==> found(records, (#[trigger] tasks[i]).id@) == Some(tasks[i]@)
    &&& forall|i: int, j: int|
        0 <= i < j < tasks.len() ==> (#[trigger] tasks[i]).id@ != (#[trigger] tasks[j]).id@
    &&& forall|id: Seq<char>| #[trigger]
        records.contains_key(id) ==> exists|i: int|
            0 <= i < tasks.len() && (#[trigger] tasks[i]).id@ == id
}

/// A list of all the records has as many tasks as there are records.
pub proof fn lemma_lists_all_counts(tasks: Seq<Task>, records: Records)
    requires
        lists_all(tasks, records),
    ensures
        records.dom().finite(),
        records.dom().len() == tasks.len(),
{
    let ids = tasks.map_values(|task: Task| task.id@);
    assert forall|i: int, j: int|
        0 <= i < ids.len() && 0 <= j < ids.len() && i != j implies ids[i] != ids[j] by {
        if i < j {
            assert(tasks[i].id@ != tasks[j].id@);
        } else {
            assert(tasks[j].id@ != tasks[i].id@);
        }
    }
    assert forall|id: Seq<char>| ids.to_set().contains(id) == records.dom().contains(id) by {
        if ids.contains(id) {
            let i = choose|i: int| 0 <= i < ids.len() && ids[i] == id;
            assert(found(records, tasks[i].id@) is Some);
        }
        if records.contains_key(id) {
            let i = choose|i: int| 0 <= i < tasks.len() && (#[trigger] tasks[i]).id@ == id;
            assert(ids[i] == id);
        }
    }
    assert(ids.to_set() =~= records.dom());
    vstd::seq_lib::seq_to_set_is_finite(ids);
    ids.unique_seq_to_set();
}

/// Where tasks are kept. A backend describes what it holds as a map from id to
/// task, and each operation says what it does to that map.
pub trait TaskRepository {
    /// The tasks held, each under its id.
    spec fn records(&self) -> Records;

    /// Whether the backend has no failures of its own, so that it never
    /// reports `RepositoryError::Other`.
    spec fn dependable(&self) -> bool;

    /// Stores the task under its id, in place of the one that was there if
    /// any. A failure leaves the records as they were.
    fn save(&mut self, task: &Task) -> (r: Result<(), RepositoryError>)
        ensures
            final(self).dependable() == old(self).dependable(),
            match r {
                Ok(_) => final(self).records() == saved(old(self).records(), task@),
                Err(e) => {
                    &&& e is Other
                    &&& !old(self).dependable()
                    &&& final(self).records() == old(self).records()
                },
            },
    ;

    /// A copy of the task stored under `id`, `NotFound` where there is none.
    fn find_by_id(&self, id: &TaskId) -> (r: Result<Task, RepositoryError>)
        ensures
            match r {
                Ok(task) => found(self.records(), id@) == Some(task@) && task.id@ == id@,
                Err(RepositoryError::NotFound) => found(self.records(), id@) is None,
                Err(RepositoryError::Other(_)) => !self.dependable(),
            },
    ;

    /// Copies of all the tasks stored, in no particular order.
    fn find_all(&self) -> (r: Result<Vec<Task>, RepositoryError>)
        ensures
            match r {
                Ok(tasks) => lists_all(tasks@, self.records()),
                Err(e) => e is Other && !self.dependable(),
            },
    ;

    /// Removes the task stored under `id`, `NotFound` where there is none. A
    /// failure leaves the records as they were.
    fn delete(&mut self, id: &TaskId) -> (r: Result<(), RepositoryError>)
        ensures
            final(self).dependable() == old(self).dependable(),
            match r {
                Ok(_) => {
                    &&& old(self).records().contains_key(id@)
                    &&& final(self).records() == deleted(old(self).records(), id@)
                },
                Err(RepositoryError::NotFound) => {
                    &&& !old(self).records().contains_key(id@)
                    &&& final(self).records() == old(self).records()
                },
                Err(RepositoryError::Other(_)) => {
                    &&& !old(self).dependable()
                    &&& final(self).records() == old(self).records()
                },
            },
    ;
}

/// Answers questions about the tasks of a repository.
#[derive(Debug)]
pub struct TaskDomainService<R> where R: TaskRepository {
    repository: R,
}

impl<R> TaskDomainService<R> where R: TaskRepository {
    /// The repository that the service asks, for use in contracts.
    pub closed spec fn spec_repository(&self) -> &R {
        &self.repository
    }

    /// A service over the repository given.
    pub fn new(task_repository: R) -> (service: Self)
        ensures
            *service.repository() == task_repository,
    {
        TaskDomainService { repository: task_repository }
    }

    /// The repository that the service asks.
    #[verifier::when_used_as_spec(spec_repository)]
    pub fn repository(&self) -> (r: &R)
        ensures
            r == self.repository(),
    {
        &self.repository
    }

    /// Gives the repository back.
    pub fn into_repository(self) -> (r: R)
        ensures
            r == *self.repository(),
    {
        self.repository
    }

    /// Whether a task is stored under the id. A lookup that fails counts as
    /// no task, which only a backend that is not dependable can bring about.
    pub fn existed(&self, id: String) -> (r: bool)
        ensures
            r ==> found(self.repository().records(), id@) is Some,
            !r ==> found(self.repository().records(), id@) is None
                || !self.repository().dependable(),
    {
        let task_id = TaskId::from(id);
        is_hit(&self.repository.find_by_id(&task_id))
    }
}

/// Whether a lookup ended with a task.
pub fn is_hit(looked_up: &Result<Task, RepositoryError>) -> (r: bool)
    ensures
        r == (looked_up is Ok),
{
    match looked_up {
        Ok(_) => true,
        Err(_) => false,
    }
}

} // verus!
