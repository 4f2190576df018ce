//! The repository that keeps its tasks in memory.

use crate::domain::{deleted, found, lists_all, saved};
use crate::domain::{Records, RepositoryError, Task, TaskId, TaskRepository};
use vstd::prelude::*;

verus! {

/// Whether no two tasks in `items` have the same id.
spec fn distinct_ids(items: Seq<Task>) -> bool {
    forall|i: int, j: int|
        0 <= i < j < items.len() ==> (#[trigger] items[i]).id@ != (#[trigger] items[j]).id@
}

/// Whether some task in `items` has the id.
spec fn holds(items: Seq<Task>, id: Seq<char>) -> bool {
    exists|i: int| 0 <= i < items.len() && (#[trigger] items[i]).id@ == id
}

/// A place in `items` where the id stands, if it stands anywhere.
spec fn place_of(items: Seq<Task>, id: Seq<char>) -> int {
    choose|i: int| 0 <= i < items.len() && (#[trigger] items[i]).id@ == id
}

/// The tasks in `items`, each under its id.
spec fn as_records(items: Seq<Task>) -> Records {
    Map::new(|id: Seq<char>| holds(items, id), |id: Seq<char>| items[place_of(items, id)]@)
}

/// Among distinct ids, the place of a task's id is where the task stands.
proof fn lemma_place(items: Seq<Task>, i: int)
    requires
        distinct_ids(items),
        0 <= i < items.len(),
    ensures
        holds(items, items[i].id@),
        place_of(items, items[i].id@) == i,
        found(as_records(items), items[i].id@) == Some(items[i]@),
{
    let p = place_of(items, items[i].id@);
    assert(0 <= p < items.len() && items[p].id@ == items[i].id@);
}

/// Distinct tasks, in the order they stand in, list the records they make up.
proof fn lemma_lists_itself(items: Seq<Task>)
    requires
        distinct_ids(items),
    ensures
        lists_all(items, as_records(items)),
{
    assert forall|k: int| 0 <= k < items.len() implies found(
        as_records(items),
        (#[trigger] items[k]).id@,
    ) == Some(items[k]@) by {
        lemma_place(items, k);
    }
    assert forall|id: Seq<char>| #[trigger] as_records(items).contains_key(id) implies exists|
        k: int,
    |
        0 <= k < items.len() && (#[trigger] items[k]).id@ == id by {
        assert(items[place_of(items, id)].id@ == id);
    }
}

/// A task under a new id, put at the end, is saved.
proof fn lemma_push(items: Seq<Task>, task: Task)
    requires
        distinct_ids(items),
        !holds(items, task.id@),
    ensures
        distinct_ids(items.push(task)),
        as_records(items.push(task)) == saved(as_records(items), task@),
{
    let after = items.push(task);
    assert(distinct_ids(after)) by {
        assert forall|i: int, j: int| 0 <= i < j < after.len() implies (#[trigger] after[i]).id@
            != (#[trigger] after[j]).id@ by {
            assert(after[i] == items[i]);
        }
    }
    assert forall|id: Seq<char>|
        found(as_records(after), id) == found(saved(as_records(items), task@), id) by {
        if id == task.id@ {
            lemma_place(after, items.len() as int);
        } else if holds(items, id) {
            let k = place_of(items, id);
            assert(after[k] == items[k]);
            lemma_place(after, k);
        } else if holds(after, id) {
            let k = place_of(after, id);
            assert(items[k].id@ == id);
        }
    }
    lemma_same_records(as_records(after), saved(as_records(items), task@));
}

/// A task put in the place of the one with its id is saved.
proof fn lemma_update(items: Seq<Task>, at: int, task: Task)
    requires
        distinct_ids(items),
        0 <= at < items.len(),
        items[at].id@ == task.id@,
    ensures
        distinct_ids(items.update(at, task)),
        as_records(items.update(at, task)) == saved(as_records(items), task@),
{
    let after = items.update(at, task);
    assert(distinct_ids(after)) by {
        assert forall|i: int, j: int| 0 <= i < j < after.len() implies (#[trigger] after[i]).id@
            != (#[trigger] after[j]).id@ by {
            assert(after[i].id@ == items[i].id@ && after[j].id@ == items[j].id@);
        }
    }
    assert forall|id: Seq<char>|
        found(as_records(after), id) == found(saved(as_records(items), task@), id) by {
        if id == task.id@ {
            lemma_place(after, at);
        } else if holds(items, id) {
            let k = place_of(items, id);
            assert(after[k] == items[k]);
            lemma_place(after, k);
        } else if holds(after, id) {
            let k = place_of(after, id);
            assert(items[k].id@ == id);
        }
    }
    lemma_same_records(as_records(after), saved(as_records(items), task@));
}

/// A task taken out is deleted, and the others stay.
proof fn lemma_remove(items: Seq<Task>, at: int)
    requires
        distinct_ids(items),
        0 <= at < items.len(),
    ensures
        distinct_ids(items.remove(at)),
        as_records(items.remove(at)) == deleted(as_records(items), items[at].id@),
{
    let after = items.remove(at);
    let gone = items[at].id@;
    // Where the task at `k` stood before the removal.
    let before = |k: int| if k < at { k } else { k + 1 };
    assert forall|k: int| 0 <= k < after.len() implies #[trigger] after[k] == items[before(k)] by {}
    assert(distinct_ids(after)) by {
        assert forall|i: int, j: int| 0 <= i < j < after.len() implies (#[trigger] after[i]).id@
            != (#[trigger] after[j]).id@ by {
            assert(items[before(i)].id@ != items[before(j)].id@);
        }
    }
    assert forall|id: Seq<char>|
        found(as_records(after), id) == found(deleted(as_records(items), gone), id) by {
        if holds(after, id) {
            let k = place_of(after, id);
            lemma_place(after, k);
            lemma_place(items, before(k));
            lemma_place(items, at);
        } else if holds(items, id) && id != gone {
            let k = place_of(items, id);
            assert(after[if k < at { k } else { k - 1 }].id@ == id);
        }
    }
    lemma_same_records(as_records(after), deleted(as_records(items), gone));
}

/// Records under which the same is found are the same records.
proof fn lemma_same_records(a: Records, b: Records)
    requires
        forall|id: Seq<char>| found(a, id) == found(b, id),
    ensures
        a == b,
{
    assert forall|id: Seq<char>| a.contains_key(id) == b.contains_key(id) by {
        assert(found(a, id) == found(b, id));
    }
    assert forall|id: Seq<char>| a.contains_key(id) implies a[id] == b[id] by {
        assert(found(a, id) == found(b, id));
    }
    assert(a =~= b);
}

/// A repository that lives as long as the value does and cannot fail on its
/// own account.
#[derive(Debug)]
pub struct TaskRepositoryInMemory {
    /// The tasks, no two of them under the same id.
    repo: Vec<Task>,
}

impl TaskRepositoryInMemory {
    #[verifier::type_invariant]
    spec fn well_formed(self) -> bool {
        distinct_ids(self.repo@)
    }

    /// A repository that holds nothing.
    pub fn new() -> (r: Self)
        ensures
            r.records() == Records::empty(),
            r.dependable(),
    {
        let r = TaskRepositoryInMemory { repo: Vec::new() };
        assert(r.records() =~= Records::empty());
        r
    }

    /// Hands the tasks out and leaves none behind, for the caller to put back.
    fn take_items(&mut self) -> (items: Vec<Task>)
        ensures
            items@ == old(self).repo@,
            final(self).repo@ == Seq::<Task>::empty(),
    {
        let mut items: Vec<Task> = Vec::new();
        std::mem::swap(&mut items, &mut self.repo);
        items
    }

    /// The place of the task with the id, if there is one.
    fn position(&self, id: &TaskId) -> (r: Option<usize>)
        ensures
            match r {
                Some(i) => i < self.repo@.len() && self.repo@[i as int].id@ == id@,
                None => !holds(self.repo@, id@),
            },
    {
        let mut i: usize = 0;
        while i < self.repo.len()
            invariant
                i <= self.repo@.len(),
                forall|k: int| 0 <= k < i ==> (#[trigger] self.repo@[k]).id@ != id@,
            decreases self.repo@.len() - i,
        {
            if self.repo[i].id == *id {
                return Some(i);
            }
            i += 1;
        }
        None
    }
}

impl TaskRepository for TaskRepositoryInMemory {
    closed spec fn records(&self) -> Records {
        as_records(self.repo@)
    }

    open spec fn dependable(&self) -> bool {
        true
    }

    /// Always succeeds.
    fn save(&mut self, task: &Task) -> (r: Result<(), RepositoryError>)
        ensures
            r is Ok,
    {
        proof {
            use_type_invariant(&*self);
        }
        let place = self.position(&task.id);
        let mut items = self.take_items();
        match place {
            Some(i) => {
                proof {
                    lemma_update(items@, i as int, *task);
                }
                items.set(i, task.clone());
            },
            None => {
                proof {
                    lemma_push(items@, *task);
                }
                items.push(task.clone());
            },
        }
        self.repo = items;
        Ok(())
    }

    /// Fails only where no task is stored under the id, with `NotFound`.
    fn find_by_id(&self, id: &TaskId) -> (r: Result<Task, RepositoryError>)
        ensures
            r is Ok <==> self.records().contains_key(id@),
            r is Err ==> r->Err_0 is NotFound,
    {
        proof {
            use_type_invariant(self);
        }
        match self.position(id) {
            Some(i) => {
                proof {
                    lemma_place(self.repo@, i as int);
                }
                Ok(self.repo[i].clone())
            },
            None => Err(RepositoryError::NotFound),
        }
    }

    /// Always succeeds.
    fn find_all(&self) -> (r: Result<Vec<Task>, RepositoryError>)
        ensures
            r is Ok,
    {
        proof {
            use_type_invariant(self);
        }
        let mut tasks: Vec<Task> = Vec::new();
        let mut i: usize = 0;
        while i < self.repo.len()
            invariant
                i <= self.repo@.len(),
                tasks@ == self.repo@.subrange(0, i as int),
            decreases self.repo@.len() - i,
        {
            tasks.push(self.repo[i].clone());
            i += 1;
        }
        proof {
            assert(tasks@ =~= self.repo@);
            lemma_lists_itself(self.repo@);
        }
        Ok(tasks)
    }

    /// Fails only where no task is stored under the id, with `NotFound`.
    fn delete(&mut self, id: &TaskId) -> (r: Result<(), RepositoryError>)
        ensures
            r is Ok <==> old(self).records().contains_key(id@),
            r is Err ==> r->Err_0 is NotFound,
    {
        proof {
            use_type_invariant(&*self);
        }
        match self.position(id) {
            Some(i) => {
                let mut items = self.take_items();
                proof {
                    lemma_place(items@, i as int);
                    lemma_remove(items@, i as int);
                }
                items.remove(i);
                self.repo = items;
                Ok(())
            },
            None => Err(RepositoryError::NotFound),
        }
    }
}

} // verus!
