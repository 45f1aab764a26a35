//! The journal entry, the task list, and the three things done to a
//! journal: adding a task, completing one, and listing them all.
//!
//! Each operation exists twice. On a task list in memory it is the bare
//! mutation or report; on the content of the journal file it is the whole
//! cycle of loading the list, applying the operation and writing the list
//! out again.

use vstd::prelude::*;
use crate::clock::{
    current_timestamp,
    format_minute,
    is_offset,
    is_timestamp,
    local_offset,
    minute_stamp,
    timestamp_in_range,
};
use crate::codec::{collect_tasks, journal_bytes, serialize_tasks, stored_tasks};
use crate::error::JournalError;
use crate::text::{decimal, padded, push_decimal, push_padded};

verus! {

/// The least width of the description column in a printed task.
pub const TEXT_COLUMN_WIDTH: usize = 50;

/// One journal entry: what is to be done, and when it was written down.
///
/// The creation time is kept in whole seconds since the Unix epoch and is
/// always an instant that `chrono` can hold. A task is never edited.
#[derive(Debug, PartialEq, Eq)]
pub struct Task {
    text: String,
    created_at: i64,
}

/// A task as a mathematical value.
pub struct TaskView {
    pub text: Seq<char>,
    pub created_at: int,
}

impl View for Task {
    type V = TaskView;

    closed spec fn view(&self) -> TaskView {
        TaskView { text: self.text@, created_at: self.created_at as int }
    }
}

impl Clone for Task {
    fn clone(&self) -> (copy: Task)
        ensures
            copy@ == self@,
    {
        proof {
            use_type_invariant(self);
        }
        Task { text: self.text.clone(), created_at: self.created_at }
    }
}

/// The views of a list of tasks, in order.
pub open spec fn task_views(tasks: Seq<Task>) -> Seq<TaskView> {
    tasks.map_values(|task: Task| task@)
}

/// A task as it is printed: the description left-aligned in a column of at
/// least fifty characters, then the creation time in square brackets.
pub open spec fn task_line(text: Seq<char>, stamp: Seq<char>) -> Seq<char> {
    padded(text, TEXT_COLUMN_WIDTH as nat) + seq![' ', '['] + stamp + seq![']']
}

impl Task {
    #[verifier::type_invariant]
    spec fn well_formed(self) -> bool {
        is_timestamp(self.created_at as int)
    }

    /// A task with the given description, created at `created_at` seconds
    /// since the Unix epoch; `None` when that is no instant `chrono` holds.
    pub fn from_parts(text: String, created_at: i64) -> (task: Option<Task>)
        ensures
            task is Some <==> is_timestamp(created_at as int),
            task matches Some(t) ==> t@ == (TaskView {
                text: text@,
                created_at: created_at as int,
            }),
    {
        if timestamp_in_range(created_at) {
            Some(Task { text, created_at })
        } else {
            None
        }
    }

    /// A task with the given description, created now. Any text is taken.
    pub fn new(text: String) -> (task: Task)
        ensures
            task@.text == text@,
            is_timestamp(task@.created_at),
    {
        let created_at = current_timestamp();
        Task { text, created_at }
    }

    /// The description.
    pub fn text(&self) -> (text: &str)
        ensures
            text@ == self@.text,
    {
        self.text.as_str()
    }

    /// The creation time, in seconds since the Unix epoch.
    pub fn created_at(&self) -> (seconds: i64)
        ensures
            seconds == self@.created_at,
            is_timestamp(seconds as int),
    {
        proof {
            use_type_invariant(self);
        }
        self.created_at
    }

    /// The printed form of the task, with `stamp` as its creation time.
    pub fn line(&self, stamp: &str) -> (line: String)
        ensures
            line@ == task_line(self@.text, stamp@),
    {
        let mut line = String::new();
        push_padded(&mut line, self.text.as_str(), TEXT_COLUMN_WIDTH);
        proof {
            reveal_strlit(" [");
            reveal_strlit("]");
        }
        line.append(" [");
        line.append(stamp);
        line.append("]");
        assert(line@ =~= task_line(self@.text, stamp@));
        line
    }

    /// The printed form of the task, with its creation time in the machine's
    /// local time zone, to the minute.
    pub fn to_string(&self) -> (line: String)
        ensures
            exists|offset: int|
                is_offset(offset) && line@ == task_line(
                    self@.text,
                    minute_stamp(self@.created_at, offset),
                ),
    {
        let created_at = self.created_at();
        let offset = local_offset(created_at);
        let stamp = format_minute(created_at, offset);
        let line = self.line(stamp.as_str());
        assert(is_offset(offset as int) && line@ == task_line(
            self@.text,
            minute_stamp(self@.created_at, offset as int),
        ));
        line
    }
}

/// Whether `position` names a task in a list of `len` tasks. Positions
/// count from one.
pub open spec fn is_position(position: int, len: int) -> bool {
    1 <= position <= len
}

/// A printed task behind its position.
pub open spec fn numbered_line(position: nat, line: Seq<char>) -> Seq<char> {
    decimal(position) + seq![':', ' '] + line
}

/// The line of the report for the task at index `i` of a list, printed
/// `offset` seconds east of UTC.
pub open spec fn report_line(i: int, task: TaskView, offset: int) -> Seq<char> {
    numbered_line((i + 1) as nat, task_line(task.text, minute_stamp(task.created_at, offset)))
}

/// The report on a task list, where the time zone is `offsets[i]` seconds
/// east of UTC at the creation time of the task at index `i`: one numbered
/// line per task, in list order, or a single notice when there is no task.
pub open spec fn report_of(tasks: Seq<TaskView>, offsets: Seq<int>) -> Seq<Seq<char>> {
    if tasks.len() == 0 {
        seq!["Task list is empty!"@]
    } else {
        Seq::new(tasks.len(), |i: int| report_line(i, tasks[i], offsets[i]))
    }
}

/// Whether `offsets` holds one time-zone offset for each of `len` tasks.
pub open spec fn offsets_fit(offsets: Seq<int>, len: nat) -> bool {
    &&& offsets.len() == len
    &&& forall|i: int| 0 <= i < len ==> is_offset(#[trigger] offsets[i])
}

/// Puts `task` at the end of the list, where it has the highest position.
pub fn append_task(tasks: &mut Vec<Task>, task: Task)
    ensures
        task_views(final(tasks)@) == task_views(old(tasks)@).push(task@),
{
    tasks.push(task);
    assert(task_views(tasks@) =~= task_views(old(tasks)@).push(task@));
}

/// Takes the task at `position` out of the list; the tasks behind it move
/// up by one.
///
/// Fails with `InvalidPosition` exactly when `position` is zero or beyond
/// the end of the list, and then leaves the list as it was.
pub fn remove_task(tasks: &mut Vec<Task>, position: usize) -> (result: Result<(), JournalError>)
    ensures
        is_position(position as int, old(tasks)@.len() as int) ==> result is Ok && task_views(
            final(tasks)@,
        ) == task_views(old(tasks)@).remove(position - 1),
        !is_position(position as int, old(tasks)@.len() as int) ==> result == Err::<
            (),
            JournalError,
        >(JournalError::InvalidPosition) && final(tasks)@ == old(tasks)@,
{
    if position == 0 || position > tasks.len() {
        return Err(JournalError::InvalidPosition);
    }
    tasks.remove(position - 1);
    assert(task_views(tasks@) =~= task_views(old(tasks)@).remove(position - 1));
    Ok(())
}

/// One line of the report: the position, a colon, and the printed task.
pub fn number_line(position: usize, line: &str) -> (numbered: String)
    ensures
        numbered@ == numbered_line(position as nat, line@),
{
    let mut numbered = String::new();
    push_decimal(&mut numbered, position as u64);
    proof {
        reveal_strlit(": ");
    }
    numbered.append(": ");
    numbered.append(line);
    assert(numbered@ =~= numbered_line(position as nat, line@));
    numbered
}

/// The report on the list: its tasks in order, numbered from one, each
/// with its creation time in the machine's local time zone; or a single
/// notice when the list is empty.
pub fn report(tasks: &Vec<Task>) -> (lines: Vec<String>)
    ensures
        exists|offsets: Seq<int>|
            offsets_fit(offsets, tasks@.len()) && lines.deep_view() == report_of(
                task_views(tasks@),
                offsets,
            ),
{
    let mut lines: Vec<String> = Vec::new();
    if tasks.len() == 0 {
        lines.push("Task list is empty!".to_owned());
        assert(offsets_fit(Seq::empty(), 0) && lines.deep_view() =~= report_of(
            task_views(tasks@),
            Seq::empty(),
        ));
        return lines;
    }
    let ghost mut offsets: Seq<int> = Seq::empty();
    let mut i: usize = 0;
    while i < tasks.len()
        invariant
            i <= tasks.len(),
            offsets_fit(offsets, i as nat),
            lines@.len() == i,
            forall|k: int|
                0 <= k < i ==> (#[trigger] lines@[k])@ == report_line(k, tasks@[k]@, offsets[k]),
        decreases tasks.len() - i,
    {
        let task = &tasks[i];
        let created_at = task.created_at();
        let offset = local_offset(created_at);
        let stamp = format_minute(created_at, offset);
        let line = task.line(stamp.as_str());
        lines.push(number_line(i + 1, line.as_str()));
        proof {
            offsets = offsets.push(offset as int);
        }
        i += 1;
    }
    assert(lines.deep_view() =~= report_of(task_views(tasks@), offsets));
    lines
}

/// Adds `task` to the journal whose file holds `content`, and returns what
/// the file is to hold afterwards.
///
/// Fails with `CorruptStore` exactly when `content` is no stored task
/// list.
pub fn add_task(content: &[u8], task: Task) -> (result: Result<Vec<u8>, JournalError>)
    ensures
        match stored_tasks(content@) {
            Some(stored) => result matches Ok(written) && written@ == journal_bytes(
                stored.push(task@),
            ),
            None => result == Err::<Vec<u8>, JournalError>(JournalError::CorruptStore),
        },
{
    match collect_tasks(content) {
        Ok(mut tasks) => {
            append_task(&mut tasks, task);
            Ok(serialize_tasks(&tasks))
        },
        Err(error) => Err(error),
    }
}

/// Removes the task at `position` from the journal whose file holds
/// `content`, and returns what the file is to hold afterwards.
///
/// Fails with `CorruptStore` exactly when `content` is no stored task
/// list, and otherwise with `InvalidPosition` exactly when `position` is
/// zero or beyond the end of the list. On failure there is nothing to
/// write: the file stays as it is.
pub fn complete_task(content: &[u8], position: usize) -> (result: Result<Vec<u8>, JournalError>)
    ensures
        match stored_tasks(content@) {
            Some(stored) => if is_position(position as int, stored.len() as int) {
                result matches Ok(written) && written@ == journal_bytes(
                    stored.remove(position - 1),
                )
            } else {
                result == Err::<Vec<u8>, JournalError>(JournalError::InvalidPosition)
            },
            None => result == Err::<Vec<u8>, JournalError>(JournalError::CorruptStore),
        },
{
    match collect_tasks(content) {
        Ok(mut tasks) => match remove_task(&mut tasks, position) {
            Ok(()) => Ok(serialize_tasks(&tasks)),
            Err(error) => Err(error),
        },
        Err(error) => Err(error),
    }
}

/// Reports on the journal whose file holds `content`: the lines to print.
///
/// Fails with `CorruptStore` exactly when `content` is no stored task
/// list.
pub fn list_tasks(content: &[u8]) -> (result: Result<Vec<String>, JournalError>)
    ensures
        match stored_tasks(content@) {
            Some(stored) => result matches Ok(lines) && exists|offsets: Seq<int>|
                offsets_fit(offsets, stored.len()) && lines.deep_view() == report_of(
                    stored,
                    offsets,
                ),
            None => result == Err::<Vec<String>, JournalError>(JournalError::CorruptStore),
        },
{
    match collect_tasks(content) {
        Ok(tasks) => Ok(report(&tasks)),
        Err(error) => Err(error),
    }
}

/// The list after the tasks `added` were appended to `tasks`, one after
/// the other.
pub open spec fn after_adding(tasks: Seq<TaskView>, added: Seq<TaskView>) -> Seq<TaskView>
    decreases added.len(),
{
    if added.len() == 0 {
        tasks
    } else {
        after_adding(tasks, added.drop_last()).push(added.last())
    }
}

/// Tasks are listed as they were added. After any number of additions the
/// list holds the earlier tasks and then the added ones, in the order of
/// their addition; on an empty journal the report then has one line for
/// each addition, in that order and numbered from one.
pub proof fn lemma_adds_then_list(tasks: Seq<TaskView>, added: Seq<TaskView>, offsets: Seq<int>)
    ensures
        after_adding(tasks, added) == tasks + added,
        after_adding(Seq::empty(), added) == added,
        added.len() > 0 ==> report_of(after_adding(Seq::empty(), added), offsets).len()
            == added.len(),
        forall|k: int|
            0 <= k < added.len() ==> #[trigger] report_of(
                after_adding(Seq::empty(), added),
                offsets,
            )[k] == report_line(k, added[k], offsets[k]),
    decreases added.len(),
{
    if added.len() > 0 {
        lemma_adds_then_list(tasks, added.drop_last(), offsets);
        lemma_adds_then_list(Seq::empty(), added.drop_last(), offsets);
        assert(after_adding(tasks, added) =~= tasks + added);
        assert(after_adding(Seq::empty(), added) =~= added);
    } else {
        assert(after_adding(tasks, added) =~= tasks + added);
    }
}

} // verus!
