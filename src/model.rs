use vstd::prelude::*;

use crate::task::{Task, flipped};
use crate::text::{decimal, decimal_string};

verus! {

/// Why an operation on a task id failed.
#[derive(Debug, Clone, Copy, PartialEq, Eq, Structural)]
pub enum TaskError {
    /// No task of the store has this id.
    NotFound(u32),
}

impl TaskError {
    /// The text shown to the user for this error.
    pub fn message(&self) -> (r: String)
        ensures
            r@ == match *self {
                TaskError::NotFound(id) => "Task with id "@ + decimal(id as nat) + " not found."@,
            },
    {
        match *self {
            TaskError::NotFound(id) => {
                let mut r = String::from_str("Task with id ");
                let digits = decimal_string(id as u64);
                r.append(digits.as_str());
                r.append(" not found.");
                r
            },
        }
    }
}

/// Whether `i` is the first position in `s` of a task with id `id`.
pub open spec fn is_first_match(s: Seq<Task>, id: u32, i: int) -> bool {
    &&& 0 <= i < s.len()
    &&& s[i].id == id
    &&& forall|j: int| 0 <= j < i ==> s[j].id != id
}

/// Whether some task of `s` has id `id`.
pub open spec fn has_id(s: Seq<Task>, id: u32) -> bool {
    exists|i: int| is_first_match(s, id, i)
}

/// The first position in `s` of a task with id `id` (meaningful when `has_id`).
pub open spec fn position(s: Seq<Task>, id: u32) -> int {
    choose|i: int| is_first_match(s, id, i)
}

/// `s` after removing the first task with id `id`, if there is one.
pub open spec fn after_delete(s: Seq<Task>, id: u32) -> Seq<Task> {
    if has_id(s, id) {
        s.remove(position(s, id))
    } else {
        s
    }
}

/// `s` after flipping `done` on the first task with id `id`, if there is one.
pub open spec fn after_toggle(s: Seq<Task>, id: u32) -> Seq<Task> {
    if has_id(s, id) {
        s.update(position(s, id), flipped(s[position(s, id)]))
    } else {
        s
    }
}

/// Whether no two tasks of `s` share an id.
pub open spec fn ids_unique(s: Seq<Task>) -> bool {
    forall|i: int, j: int| 0 <= i < s.len() && 0 <= j < s.len() && i != j ==> s[i].id != s[j].id
}

/// The first match of an id is unique.
pub proof fn lemma_first_match_unique(s: Seq<Task>, id: u32, i: int, j: int)
    requires
        is_first_match(s, id, i),
        is_first_match(s, id, j),
    ensures
        i == j,
{
}

/// Once the store is cleared, listing it yields no task.
pub proof fn lemma_delete_all_then_get_all(cleared: TasksModel, listed: Seq<Task>)
    requires
        cleared@ == Seq::<Task>::empty(),
        listed == cleared@,
    ensures
        listed.len() == 0,
{
}

/// Deleting an id that no task has leaves the store as it was.
pub proof fn lemma_delete_absent_id(s: Seq<Task>, id: u32)
    requires
        forall|i: int| 0 <= i < s.len() ==> s[i].id != id,
    ensures
        !has_id(s, id),
        after_delete(s, id) == s,
{
}

/// Toggling an id flips `done` on exactly one task, and leaves every other
/// task and the size as they were; toggling it a second time restores the
/// store.
pub proof fn lemma_toggle_twice(s: Seq<Task>, id: u32)
    ensures
        after_toggle(s, id).len() == s.len(),
        has_id(s, id) ==> after_toggle(s, id)[position(s, id)].done == !s[position(s, id)].done,
        forall|j: int|
            0 <= j < s.len() && !(has_id(s, id) && j == position(s, id)) ==> after_toggle(s, id)[j]
                == s[j],
        after_toggle(after_toggle(s, id), id) == s,
{
    if has_id(s, id) {
        let p = position(s, id);
        let once = after_toggle(s, id);
        assert(is_first_match(once, id, p));
        lemma_first_match_unique(once, id, p, position(once, id));
        assert(after_toggle(once, id) =~= s);
    } else {
        assert(after_toggle(s, id) == s);
    }
}

/// The in-memory store of tasks, in insertion order.
pub struct TasksModel {
    tasks: Vec<Task>,
}

impl View for TasksModel {
    type V = Seq<Task>;

    closed spec fn view(&self) -> Seq<Task> {
        self.tasks@
    }
}

impl TasksModel {
    /// An empty store.
    pub fn new() -> (r: TasksModel)
        ensures
            r@ == Seq::<Task>::empty(),
    {
        TasksModel { tasks: Vec::new() }
    }

    /// Appends `item` at the end of the store.
    pub fn add(&mut self, item: Task)
        ensures
            final(self)@ == old(self)@.push(item),
    {
        self.tasks.push(item);
    }

    /// All tasks, in storage order.
    pub fn get_all(&self) -> (r: &[Task])
        ensures
            r@ == self@,
    {
        self.tasks.as_slice()
    }

    /// Removes every task.
    pub fn delete_all(&mut self)
        ensures
            final(self)@ == Seq::<Task>::empty(),
    {
        self.tasks.clear();
    }

    /// The first position of a task with id `id`, if any.
    fn find(&self, id: u32) -> (r: Option<usize>)
        ensures
            match r {
                Some(i) => is_first_match(self@, id, i as int),
                None => forall|i: int| 0 <= i < self@.len() ==> self@[i].id != id,
            },
    {
        let mut i: usize = 0;
        while i < self.tasks.len()
            invariant
                i <= self.tasks@.len(),
                forall|j: int| 0 <= j < i ==> self.tasks@[j].id != id,
            decreases self.tasks@.len() - i,
        {
            if self.tasks[i].id == id {
                return Some(i);
            }
            i = i + 1;
        }
        None
    }

    /// Removes the first task with id `id`. Fails with `NotFound(id)`, and
    /// leaves the store unchanged, when no task has that id.
    pub fn delete(&mut self, id: u32) -> (r: Result<(), TaskError>)
        ensures
            final(self)@ == after_delete(old(self)@, id),
            r is Ok <==> has_id(old(self)@, id),
            r is Err ==> r == Err::<(), TaskError>(TaskError::NotFound(id)),
            r is Err <==> forall|i: int| 0 <= i < old(self)@.len() ==> old(self)@[i].id != id,
            r is Ok ==> final(self)@.len() + 1 == old(self)@.len(),
    {
        match self.find(id) {
            Some(i) => {
                proof {
                    lemma_first_match_unique(self@, id, i as int, position(self@, id));
                }
                self.tasks.remove(i);
                Ok(())
            },
            None => {
                assert(!has_id(self@, id));
                Err(TaskError::NotFound(id))
            },
        }
    }

    /// Flips `done` on the first task with id `id`. Fails with `NotFound(id)`,
    /// and leaves the store unchanged, when no task has that id.
    pub fn toggle(&mut self, id: u32) -> (r: Result<(), TaskError>)
        ensures
            final(self)@ == after_toggle(old(self)@, id),
            r is Ok <==> has_id(old(self)@, id),
            r is Err ==> r == Err::<(), TaskError>(TaskError::NotFound(id)),
            r is Err <==> forall|i: int| 0 <= i < old(self)@.len() ==> old(self)@[i].id != id,
    {
        match self.find(id) {
            Some(i) => {
                proof {
                    lemma_first_match_unique(self@, id, i as int, position(self@, id));
                }
                let old_task = self.tasks.remove(i);
                let t = Task {
                    id: old_task.id,
                    title: old_task.title,
                    description: old_task.description,
                    date: old_task.date,
                    done: !old_task.done,
                };
                self.tasks.insert(i, t);
                assert(self@ =~= after_toggle(old(self)@, id));
                Ok(())
            },
            None => {
                assert(!has_id(self@, id));
                Err(TaskError::NotFound(id))
            },
        }
    }
}

} // verus!
