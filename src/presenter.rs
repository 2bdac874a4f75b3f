use vstd::prelude::*;

use crate::id_generation::IdGenerator;
use crate::model::{TaskError, TasksModel, after_delete, after_toggle, has_id};
use crate::task::Task;
use crate::text::{decimal, decimal_string, parse_u32, parsed_u32};
use crate::view::{CliView, listing};

verus! {

/// What the user asked for at the main menu.
#[derive(Debug, Clone, Copy, PartialEq, Eq, Structural)]
pub enum MenuOption {
    Exit,
    ShowTasks,
    AddTask,
    DeleteTask,
    ToggleStatus,
    ClearAll,
    /// Input that is no number, or a number that names no option.
    Invalid,
}

/// The option that the menu input `s` selects.
pub open spec fn option_of(s: Seq<char>) -> MenuOption {
    match parsed_u32(s) {
        Some(0) => MenuOption::Exit,
        Some(1) => MenuOption::ShowTasks,
        Some(2) => MenuOption::AddTask,
        Some(3) => MenuOption::DeleteTask,
        Some(4) => MenuOption::ToggleStatus,
        Some(5) => MenuOption::ClearAll,
        _ => MenuOption::Invalid,
    }
}

/// Decides what a line typed at the main menu asks for. Only a number that
/// parses selects an option; only `0` exits.
pub fn select_option(input: &str) -> (r: MenuOption)
    ensures
        r == option_of(input@),
{
    match parse_u32(input) {
        Some(0) => MenuOption::Exit,
        Some(1) => MenuOption::ShowTasks,
        Some(2) => MenuOption::AddTask,
        Some(3) => MenuOption::DeleteTask,
        Some(4) => MenuOption::ToggleStatus,
        Some(5) => MenuOption::ClearAll,
        _ => MenuOption::Invalid,
    }
}

/// One above the largest id in `s`; 1 when `s` is empty.
pub open spec fn first_free_id(s: Seq<Task>) -> nat
    decreases s.len(),
{
    if s.len() == 0 {
        1
    } else if first_free_id(s.drop_last()) > s.last().id + 1 {
        first_free_id(s.drop_last())
    } else {
        (s.last().id + 1) as nat
    }
}

/// Drives the store from the user's requests.
///
/// Every live task has an id below the generator's next id, so an id handed
/// out later differs from every id in the store.
pub struct Presenter {
    model: TasksModel,
    view: CliView,
    ids: IdGenerator,
}

impl Presenter {
    /// The tasks of the store, in storage order.
    pub closed spec fn tasks_view(&self) -> Seq<Task> {
        self.model@
    }

    /// The id that the next added task gets.
    pub closed spec fn next_id(&self) -> nat {
        self.ids@
    }

    pub closed spec fn wf(&self) -> bool {
        &&& 1 <= self.ids@ <= u32::MAX as nat + 1
        &&& forall|i: int|
            0 <= i < self.model@.len() ==> (#[trigger] self.model@[i]).id < self.ids@
    }

    /// A presenter over `model`; new ids start above every id already in it.
    pub fn new(model: TasksModel, view: CliView) -> (r: Presenter)
        ensures
            r.wf(),
            r.tasks_view() == model@,
            r.next_id() == first_free_id(model@),
            forall|i: int| 0 <= i < model@.len() ==> (#[trigger] model@[i]).id < r.next_id(),
    {
        let tasks = model.get_all();
        let mut first: u64 = 1;
        let mut i: usize = 0;
        while i < tasks.len()
            invariant
                tasks@ == model@,
                i <= tasks@.len(),
                1 <= first <= u32::MAX as u64 + 1,
                first == first_free_id(tasks@.subrange(0, i as int)),
                forall|k: int| 0 <= k < i ==> (#[trigger] tasks@[k]).id < first,
            decreases tasks@.len() - i,
        {
            assert(tasks@.subrange(0, i + 1).drop_last() =~= tasks@.subrange(0, i as int));
            if tasks[i].id as u64 >= first {
                first = tasks[i].id as u64 + 1;
            }
            i = i + 1;
        }
        assert(tasks@.subrange(0, i as int) =~= tasks@);
        Presenter { model, view, ids: IdGenerator::starting_at(first) }
    }

    /// The tasks of the store, in storage order.
    pub fn tasks(&self) -> (r: &[Task])
        ensures
            r@ == self.tasks_view(),
    {
        self.model.get_all()
    }

    /// The listing of all tasks, as the view renders it.
    pub fn show_tasks(&self) -> (r: String)
        ensures
            r@ == listing(self.tasks_view()),
    {
        self.view.render_tasks(self.model.get_all())
    }

    /// Adds a task with the given (already trimmed) title and description,
    /// created at `created_secs` seconds since the Unix epoch, not done.
    /// Nothing is added when the title or the description is empty, or when
    /// every `u32` id has been handed out. Returns whether a task was added.
    pub fn add_task(&mut self, title: String, description: String, created_secs: u64) -> (added:
        bool)
        requires
            old(self).wf(),
        ensures
            final(self).wf(),
            added <==> (title@.len() > 0 && description@.len() > 0 && old(self).next_id()
                <= u32::MAX),
            !added ==> final(self).tasks_view() == old(self).tasks_view() && final(self).next_id()
                == old(self).next_id(),
            added ==> {
                let t = final(self).tasks_view().last();
                &&& final(self).tasks_view() == old(self).tasks_view().push(t)
                &&& t.id as nat == old(self).next_id()
                &&& final(self).next_id() == old(self).next_id() + 1
                &&& t.title == title
                &&& t.description == description
                &&& t.date@ == decimal(created_secs as nat)
                &&& !t.done
                &&& forall|i: int|
                    0 <= i < old(self).tasks_view().len() ==> (#[trigger] old(
                        self,
                    ).tasks_view()[i]).id != t.id
            },
    {
        if title.as_str().unicode_len() == 0 || description.as_str().unicode_len() == 0 {
            return false;
        }
        if !self.ids.has_next() {
            return false;
        }
        let date = decimal_string(created_secs);
        let task = Task::new(&mut self.ids, title, description, date, false);
        self.model.add(task);
        assert(self.model@.last() == task);
        assert forall|i: int| 0 <= i < self.model@.len() implies (#[trigger] self.model@[i]).id
            < self.ids@ by {
            if i < old(self).model@.len() {
                assert(self.model@[i] == old(self).model@[i]);
            }
        }
        true
    }

    /// Deletes the task whose id `input` names. Input that is no id is
    /// ignored; an id that no task has gives `NotFound`.
    pub fn delete_task(&mut self, input: &str) -> (r: Option<TaskError>)
        requires
            old(self).wf(),
        ensures
            final(self).wf(),
            final(self).next_id() == old(self).next_id(),
            match parsed_u32(input@) {
                None => r is None && final(self).tasks_view() == old(self).tasks_view(),
                Some(id) => {
                    &&& final(self).tasks_view() == after_delete(old(self).tasks_view(), id)
                    &&& r == if has_id(old(self).tasks_view(), id) {
                        None
                    } else {
                        Some(TaskError::NotFound(id))
                    }
                },
            },
    {
        match parse_u32(input) {
            None => None,
            Some(id) => {
                let r = self.model.delete(id);
                assert forall|i: int| 0 <= i < self.model@.len() implies (#[trigger] self.model@[
                    i]).id < self.ids@ by {
                    let p = crate::model::position(old(self).model@, id);
                    if !has_id(old(self).model@, id) {
                        assert(self.model@[i] == old(self).model@[i]);
                    } else if i < p {
                        assert(self.model@[i] == old(self).model@[i]);
                    } else {
                        assert(self.model@[i] == old(self).model@[i + 1]);
                    }
                }
                match r {
                    Ok(()) => None,
                    Err(e) => Some(e),
                }
            },
        }
    }

    /// Flips `done` on the task whose id `input` names. Input that is no id
    /// is ignored; an id that no task has gives `NotFound`.
    pub fn toggle_status(&mut self, input: &str) -> (r: Option<TaskError>)
        requires
            old(self).wf(),
        ensures
            final(self).wf(),
            final(self).next_id() == old(self).next_id(),
            match parsed_u32(input@) {
                None => r is None && final(self).tasks_view() == old(self).tasks_view(),
                Some(id) => {
                    &&& final(self).tasks_view() == after_toggle(old(self).tasks_view(), id)
                    &&& r == if has_id(old(self).tasks_view(), id) {
                        None
                    } else {
                        Some(TaskError::NotFound(id))
                    }
                },
            },
    {
        match parse_u32(input) {
            None => None,
            Some(id) => {
                let r = self.model.toggle(id);
                assert forall|i: int| 0 <= i < self.model@.len() implies (#[trigger] self.model@[
                    i]).id < self.ids@ by {
                    assert(self.model@[i].id == old(self).model@[i].id);
                }
                match r {
                    Ok(()) => None,
                    Err(e) => Some(e),
                }
            },
        }
    }

    /// Removes every task.
    pub fn delete_tasks(&mut self)
        requires
            old(self).wf(),
        ensures
            final(self).wf(),
            final(self).tasks_view() == Seq::<Task>::empty(),
            final(self).next_id() == old(self).next_id(),
    {
        self.model.delete_all();
    }
}

} // verus!
