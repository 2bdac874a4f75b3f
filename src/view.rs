use vstd::prelude::*;

use crate::task::Task;
use crate::text::{decimal, decimal_string};

verus! {

/// What `str::trim` makes of the characters `s`.
pub uninterp spec fn trim_of(s: Seq<char>) -> Seq<char>;

/// Relies on `str::trim`: the text without leading and trailing whitespace,
/// which depends on the characters alone; empty text stays empty.
#[verifier::external_body]
fn trim<'a>(s: &'a str) -> (r: &'a str)
    ensures
        r@ == trim_of(s@),
        s@.len() == 0 ==> r@.len() == 0,
{
    s.trim()
}

/// Width to which a description is padded in a listing.
pub const DESCRIPTION_WIDTH: usize = 40;

pub open spec fn separator_line() -> Seq<char> {
    "******************************************\n"@
}

pub open spec fn status_label(done: bool) -> Seq<char> {
    if done {
        "✓ Done"@
    } else {
        "✗ Not done"@
    }
}

/// `s` followed by spaces up to `width` characters.
pub open spec fn pad_right(s: Seq<char>, width: nat) -> Seq<char> {
    if s.len() < width {
        s + Seq::new((width - s.len()) as nat, |i: int| ' ')
    } else {
        s
    }
}

/// The description line of a task block: present only for a non-empty
/// (already trimmed) description.
pub open spec fn description_part(description: Seq<char>) -> Seq<char> {
    if description.len() > 0 {
        " 📝 "@ + pad_right(description, DESCRIPTION_WIDTH as nat) + "\n"@
    } else {
        Seq::empty()
    }
}

/// The block of a listing that shows one task, given its trimmed title and
/// description.
pub open spec fn task_block(
    id: u32,
    done: bool,
    title: Seq<char>,
    description: Seq<char>,
    date: Seq<char>,
) -> Seq<char> {
    "id: "@ + decimal(id as nat) + " | status: "@ + status_label(done) + " | title: "@ + title
        + "\n"@ + description_part(description) + " 📅 "@ + date + "\n\n"@ + separator_line()
}

/// The block of a listing that shows `t`.
pub open spec fn block_of(t: Task) -> Seq<char> {
    task_block(t.id, t.done, trim_of(t.title@), trim_of(t.description@), t.date@)
}

/// The blocks of all tasks of `tasks`, in order.
pub open spec fn blocks(tasks: Seq<Task>) -> Seq<char>
    decreases tasks.len(),
{
    if tasks.len() == 0 {
        Seq::empty()
    } else {
        blocks(tasks.drop_last()) + block_of(tasks.last())
    }
}

/// The full text shown for a list of tasks.
pub open spec fn listing(tasks: Seq<Task>) -> Seq<char> {
    if tasks.len() == 0 {
        "Todo list is empty.\n"@
    } else {
        "Your tasks\n"@ + separator_line() + blocks(tasks)
    }
}

/// The console view: turns tasks into the text shown to the user.
pub struct CliView;

impl CliView {
    pub fn new() -> (r: CliView) {
        CliView
    }

    /// The text of one task block; `title` and `description` are already
    /// trimmed.
    pub fn render_task(
        &self,
        id: u32,
        done: bool,
        title: &str,
        description: &str,
        date: &str,
    ) -> (r: String)
        ensures
            r@ == task_block(id, done, title@, description@, date@),
    {
        let mut r = String::from_str("id: ");
        let digits = decimal_string(id as u64);
        r.append(digits.as_str());
        r.append(" | status: ");
        if done {
            r.append("✓ Done");
        } else {
            r.append("✗ Not done");
        }
        r.append(" | title: ");
        r.append(title);
        r.append("\n");
        let ghost before_description = r@;
        let description_len = description.unicode_len();
        if description_len > 0 {
            r.append(" 📝 ");
            r.append(description);
            let mut n: usize = description_len;
            while n < DESCRIPTION_WIDTH
                invariant
                    description_len <= n,
                    description_len <= DESCRIPTION_WIDTH ==> n <= DESCRIPTION_WIDTH,
                    description_len > DESCRIPTION_WIDTH ==> n == description_len,
                    description_len == description@.len(),
                    r@ == before_description + " 📝 "@ + description@ + Seq::new(
                        (n - description_len) as nat,
                        |i: int| ' ',
                    ),
                decreases DESCRIPTION_WIDTH - n,
            {
                proof {
                    reveal_strlit(" ");
                }
                r.append(" ");
                n = n + 1;
                assert(r@ =~= before_description + " 📝 "@ + description@ + Seq::new(
                    (n - description_len) as nat,
                    |i: int| ' ',
                ));
            }
            r.append("\n");
            assert(r@ =~= before_description + description_part(description@));
        } else {
            assert(r@ =~= before_description + description_part(description@));
        }
        r.append(" 📅 ");
        r.append(date);
        r.append("\n\n");
        r.append("******************************************\n");
        r
    }

    /// The text shown for `tasks`: a note when the list is empty, else a
    /// header and one block per task, in order.
    pub fn render_tasks(&self, tasks: &[Task]) -> (r: String)
        ensures
            r@ == listing(tasks@),
    {
        if tasks.len() == 0 {
            return String::from_str("Todo list is empty.\n");
        }
        let mut r = String::from_str("Your tasks\n");
        r.append("******************************************\n");
        let ghost header = r@;
        let mut i: usize = 0;
        while i < tasks.len()
            invariant
                i <= tasks@.len(),
                r@ == header + blocks(tasks@.subrange(0, i as int)),
            decreases tasks@.len() - i,
        {
            let t = &tasks[i];
            let block = self.render_task(
                t.id,
                t.done,
                trim(t.title.as_str()),
                trim(t.description.as_str()),
                t.date.as_str(),
            );
            r.append(block.as_str());
            assert(tasks@.subrange(0, i + 1).drop_last() =~= tasks@.subrange(0, i as int));
            i = i + 1;
        }
        assert(tasks@.subrange(0, i as int) =~= tasks@);
        r
    }
}

} // verus!
