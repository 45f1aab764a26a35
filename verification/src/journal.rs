//! One operation on the journal file, from opening it to what is written
//! back or printed.
//!
//! The caller owns the file. It opens it as `open_mode` says, reads all of
//! it, and hands the content to `perform`. Where the result is
//! `Effect::Persist`, it empties the file and writes the given bytes from
//! the start; where it is `Effect::Report`, it prints the given lines. On
//! an error it writes nothing.

use vstd::prelude::*;
use crate::cli::Action;
use crate::clock::is_timestamp;
use crate::codec::{
    all_timestamps,
    decoded_tasks,
    journal_bytes,
    lemma_stored_tasks_have_timestamps,
    reads_back_what_is_written,
    stored_tasks,
};
use crate::error::JournalError;
use crate::json::json_parse;
use crate::tasks::{
    add_task,
    complete_task,
    is_position,
    list_tasks,
    offsets_fit,
    report_line,
    report_of,
    Task,
    TaskView,
};

verus! {

/// How the journal file is opened.
#[derive(Debug, Clone, Copy, PartialEq, Eq, Structural)]
pub struct OpenMode {
    pub read: bool,
    pub write: bool,
    /// Whether a missing file is created, empty.
    pub create: bool,
}

/// What is to be done with the journal file once an operation has
/// succeeded.
#[derive(Debug, PartialEq, Eq)]
pub enum Effect {
    /// Replace the whole content of the file by these bytes.
    Persist(Vec<u8>),
    /// Leave the file alone and print these lines.
    Report(Vec<String>),
}

/// An effect as a mathematical value.
pub enum EffectView {
    Persist(Seq<u8>),
    Report(Seq<Seq<char>>),
}

impl View for Effect {
    type V = EffectView;

    open spec fn view(&self) -> EffectView {
        match self {
            Effect::Persist(written) => EffectView::Persist(written@),
            Effect::Report(lines) => EffectView::Report(lines.deep_view()),
        }
    }
}

/// The result of an operation as a mathematical value.
pub open spec fn outcome_view(result: Result<Effect, JournalError>) -> Result<
    EffectView,
    JournalError,
> {
    match result {
        Ok(effect) => Ok(effect@),
        Err(error) => Err(error),
    }
}

/// How the file is opened for `action`: always for reading; for writing
/// unless the journal is only listed; and only adding creates it.
pub open spec fn open_mode_of(action: Action) -> OpenMode {
    OpenMode { read: true, write: !(action is List), create: action is Add }
}

/// The error that a failure to open the file stands for: `NotFound` when
/// the file is missing and `action` needs it to exist, `IOFailure`
/// otherwise.
pub open spec fn open_failure_of(action: Action, missing: bool) -> JournalError {
    if missing && !(action is Add) {
        JournalError::NotFound
    } else {
        JournalError::IOFailure
    }
}

/// What `action` comes to on a journal file that holds `content`, when the
/// clock reads `created_at` and the time zone is `offsets[i]` seconds east
/// of UTC at the creation time of the stored task at index `i`.
///
/// A content that is no stored task list fails every action. A position
/// that names no task fails the removal. Adding and removing give the new
/// content of the file; listing gives the report.
pub open spec fn outcome_of(
    action: Action,
    content: Seq<u8>,
    created_at: int,
    offsets: Seq<int>,
) -> Result<EffectView, JournalError> {
    match stored_tasks(content) {
        None => Err(JournalError::CorruptStore),
        Some(stored) => match action {
            Action::Add { task } => Ok(
                EffectView::Persist(
                    journal_bytes(stored.push(TaskView { text: task@, created_at: created_at })),
                ),
            ),
            Action::Done { position } => if is_position(position as int, stored.len() as int) {
                Ok(EffectView::Persist(journal_bytes(stored.remove(position - 1))))
            } else {
                Err(JournalError::InvalidPosition)
            },
            Action::List => Ok(EffectView::Report(report_of(stored, offsets))),
        },
    }
}

/// What the clock and the time zone may say while an action is carried
/// out on `content`: a time that `chrono` holds, and one offset for each
/// stored task.
pub open spec fn surroundings_fit(content: Seq<u8>, created_at: int, offsets: Seq<int>) -> bool {
    &&& is_timestamp(created_at)
    &&& stored_tasks(content) matches Some(stored) ==> offsets_fit(offsets, stored.len())
}

/// What the file holds once the caller has acted on `outcome`: the bytes
/// to persist, if there are any, and the old content otherwise.
pub open spec fn content_after(content: Seq<u8>, outcome: Result<EffectView, JournalError>) -> Seq<
    u8,
> {
    match outcome {
        Ok(EffectView::Persist(written)) => written,
        _ => content,
    }
}

/// How the journal file is to be opened for `action`.
pub fn open_mode(action: &Action) -> (mode: OpenMode)
    ensures
        mode == open_mode_of(*action),
{
    match action {
        Action::Add { .. } => OpenMode { read: true, write: true, create: true },
        Action::Done { .. } => OpenMode { read: true, write: true, create: false },
        Action::List => OpenMode { read: true, write: false, create: false },
    }
}

/// The error to report when the journal file could not be opened for
/// `action`; `missing` tells whether the file system said that there is no
/// such file.
pub fn open_failure(action: &Action, missing: bool) -> (error: JournalError)
    ensures
        error == open_failure_of(*action, missing),
{
    match action {
        Action::Add { .. } => JournalError::IOFailure,
        _ => if missing {
            JournalError::NotFound
        } else {
            JournalError::IOFailure
        },
    }
}

/// Carries out `action` on the journal whose file holds `content`.
///
/// A task that is added is created now; a report shows creation times in
/// the machine's local time zone. Whatever the clock and the time zone
/// say, the result is `outcome_of` for some time and some offsets.
pub fn perform(action: Action, content: &[u8]) -> (result: Result<Effect, JournalError>)
    ensures
        exists|created_at: int, offsets: Seq<int>|
            surroundings_fit(content@, created_at, offsets) && outcome_view(result) == outcome_of(
                action,
                content@,
                created_at,
                offsets,
            ),
{
    let ghost utc: Seq<int> = match stored_tasks(content@) {
        Some(stored) => Seq::new(stored.len(), |i: int| 0int),
        None => Seq::empty(),
    };
    match action {
        Action::Add { task } => {
            let task = Task::new(task);
            let result = match add_task(content, task) {
                Ok(written) => Ok(Effect::Persist(written)),
                Err(error) => Err(error),
            };
            assert(surroundings_fit(content@, task@.created_at, utc) && outcome_view(result)
                == outcome_of(action, content@, task@.created_at, utc));
            result
        },
        Action::Done { position } => {
            let result = match complete_task(content, position) {
                Ok(written) => Ok(Effect::Persist(written)),
                Err(error) => Err(error),
            };
            assert(surroundings_fit(content@, 0, utc) && outcome_view(result) == outcome_of(
                action,
                content@,
                0,
                utc,
            ));
            result
        },
        Action::List => {
            let result = match list_tasks(content) {
                Ok(lines) => Ok(Effect::Report(lines)),
                Err(error) => Err(error),
            };
            proof {
                let offsets = match stored_tasks(content@) {
                    Some(stored) => choose|offsets: Seq<int>|
                        offsets_fit(offsets, stored.len()) && result.unwrap()@
                            == EffectView::Report(report_of(stored, offsets)),
                    None => utc,
                };
                assert(surroundings_fit(content@, 0, offsets) && outcome_view(result)
                    == outcome_of(action, content@, 0, offsets));
            }
            result
        },
    }
}

/// Listing leaves the journal as it is: after a listing the file holds
/// what it held before, so a second listing right after the first, under
/// the same time-zone offsets, gives the same report.
pub proof fn lemma_list_twice(content: Seq<u8>, first_at: int, again_at: int, offsets: Seq<int>)
    ensures
        content_after(content, outcome_of(Action::List, content, first_at, offsets)) == content,
        outcome_of(
            Action::List,
            content_after(content, outcome_of(Action::List, content, first_at, offsets)),
            again_at,
            offsets,
        ) == outcome_of(Action::List, content, first_at, offsets),
{
}

/// On a journal of `n` tasks, a removal at position zero or at any
/// position beyond `n` fails with `InvalidPosition` and leaves the file as
/// it was; a removal at any position from one to `n` succeeds, and what it
/// writes holds the other `n - 1` tasks in their order; provided that
/// what is written here reads back as the list it was written from, the
/// file then holds those `n - 1` tasks.
pub proof fn lemma_done_boundary(
    content: Seq<u8>,
    position: usize,
    created_at: int,
    offsets: Seq<int>,
)
    ensures
        stored_tasks(content) matches Some(stored) ==> {
            let outcome = outcome_of(Action::Done { position }, content, created_at, offsets);
            let left = stored.remove(position - 1);
            &&& position == 0 || position > stored.len() ==> outcome == Err::<
                EffectView,
                JournalError,
            >(JournalError::InvalidPosition) && content_after(content, outcome) == content
            &&& 1 <= position <= stored.len() ==> outcome == Ok::<EffectView, JournalError>(
                EffectView::Persist(journal_bytes(left)),
            ) && left.len() == stored.len() - 1 && left == stored.take(position - 1)
                + stored.skip(position as int)
            &&& 1 <= position <= stored.len() && reads_back_what_is_written() ==> stored_tasks(
                content_after(content, outcome),
            ) == Some(left)
        },
{
    if let Some(stored) = stored_tasks(content) {
        if 1 <= position <= stored.len() {
            let left = stored.remove(position - 1);
            assert(left =~= stored.take(position - 1) + stored.skip(position as int));
            lemma_stored_tasks_have_timestamps(content);
            assert(all_timestamps(left));
        }
    }
}

/// A journal file of no bytes, as a new file is, lists as empty: the
/// report is the one notice, and no error.
pub proof fn lemma_empty_file_lists_empty(content: Seq<u8>, created_at: int, offsets: Seq<int>)
    requires
        content.len() == 0,
    ensures
        outcome_of(Action::List, content, created_at, offsets) == Ok::<EffectView, JournalError>(
            EffectView::Report(seq!["Task list is empty!"@]),
        ),
{
}

/// A content that is not empty and is either no JSON text at all or a JSON
/// document that is no task list fails every action with `CorruptStore`,
/// and the file is left as it was: nothing of it is thrown away.
pub proof fn lemma_corrupt_fails(
    action: Action,
    content: Seq<u8>,
    created_at: int,
    offsets: Seq<int>,
)
    ensures
        content.len() > 0 && (json_parse(content) matches Some(document) ==> decoded_tasks(
            document,
        ) is None) ==> {
            let outcome = outcome_of(action, content, created_at, offsets);
            &&& outcome == Err::<EffectView, JournalError>(JournalError::CorruptStore)
            &&& content_after(content, outcome) == content
        },
{
}

/// What the file holds after `task` was added to a journal file that held
/// `content`: the stored list with the task at its end, or the old
/// content where that was no stored task list.
pub open spec fn content_after_add(content: Seq<u8>, task: TaskView) -> Seq<u8> {
    match stored_tasks(content) {
        Some(stored) => journal_bytes(stored.push(task)),
        None => content,
    }
}

/// What the file holds after the tasks `added` were added, one after the
/// other, to a journal file that held `content`.
pub open spec fn content_after_adds(content: Seq<u8>, added: Seq<TaskView>) -> Seq<u8>
    decreases added.len(),
{
    if added.len() == 0 {
        content
    } else {
        content_after_add(content_after_adds(content, added.drop_last()), added.last())
    }
}

/// `content_after_add` is what an addition leaves in the file.
pub proof fn lemma_content_after_add(
    content: Seq<u8>,
    task: String,
    created_at: int,
    offsets: Seq<int>,
)
    ensures
        content_after(content, outcome_of(Action::Add { task }, content, created_at, offsets))
            == content_after_add(content, TaskView { text: task@, created_at: created_at }),
{
}

/// Adding, then listing. Provided that what is written here reads back as
/// the list it was written from: after any number of additions to a
/// journal, the file holds the tasks it held before and then the added
/// ones in the order of their addition, and a listing reports exactly
/// those. On a new file that is one line for each addition, in that order
/// and numbered from one.
pub proof fn lemma_adds_then_list_on_file(
    content: Seq<u8>,
    added: Seq<TaskView>,
    listed_at: int,
    offsets: Seq<int>,
)
    requires
        all_timestamps(added),
    ensures
        reads_back_what_is_written() ==> (stored_tasks(content) matches Some(stored) ==> {
            let written = content_after_adds(content, added);
            &&& stored_tasks(written) == Some(stored + added)
            &&& outcome_of(Action::List, written, listed_at, offsets) == Ok::<
                EffectView,
                JournalError,
            >(EffectView::Report(report_of(stored + added, offsets)))
        }),
        reads_back_what_is_written() && content.len() == 0 && added.len() > 0 ==> {
            let report = report_of(added, offsets);
            &&& outcome_of(Action::List, content_after_adds(content, added), listed_at, offsets)
                == Ok::<EffectView, JournalError>(EffectView::Report(report))
            &&& report.len() == added.len()
            &&& forall|k: int|
                0 <= k < added.len() ==> #[trigger] report[k] == report_line(
                    k,
                    added[k],
                    offsets[k],
                )
        },
    decreases added.len(),
{
    if reads_back_what_is_written() {
        if let Some(stored) = stored_tasks(content) {
            if added.len() == 0 {
                assert(stored + added =~= stored);
            } else {
                let earlier = added.drop_last();
                lemma_adds_then_list_on_file(content, earlier, listed_at, offsets);
                lemma_stored_tasks_have_timestamps(content);
                let grown = (stored + earlier).push(added.last());
                assert(grown =~= stored + added);
                assert(all_timestamps(stored + added));
            }
            if content.len() == 0 {
                assert(stored + added =~= added);
            }
        }
    }
}

} // verus!
