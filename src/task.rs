use vstd::prelude::*;

use crate::id_generation::IdGenerator;

verus! {

/// A single to-do item.
pub struct Task {
    /// Unique among the tasks of a store; assigned at creation.
    pub id: u32,
    pub title: String,
    pub description: String,
    /// Creation time, in seconds since the Unix epoch, as a decimal string.
    pub date: String,
    pub done: bool,
}

/// The task `t` with its `done` flag flipped and everything else kept.
pub open spec fn flipped(t: Task) -> Task {
    Task { id: t.id, title: t.title, description: t.description, date: t.date, done: !t.done }
}

impl Task {
    /// A task whose id is the next one of `ids`.
    pub fn new(
        ids: &mut IdGenerator,
        title: String,
        description: String,
        date: String,
        done: bool,
    ) -> (r: Task)
        requires
            old(ids).can_issue(),
        ensures
            r.id as nat == old(ids)@,
            final(ids)@ == old(ids)@ + 1,
            r.title == title,
            r.description == description,
            r.date == date,
            r.done == done,
    {
        Task { id: ids.next(), title, description, date, done }
    }
}

} // verus!
