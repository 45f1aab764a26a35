//! The journal file format: a JSON array of objects, each with the member
//! `text`, a string, and the member `created_at`, an integer number of
//! seconds since the Unix epoch.

use vstd::prelude::*;
use vstd::utf8::encode_utf8;
use crate::clock::is_timestamp;
use crate::error::JournalError;
use crate::json::{
    json_parse,
    json_quoted,
    item_views,
    lemma_array_view,
    lemma_object_view,
    member_views,
    parse_json,
    quote_json,
    Json,
    JsonView,
};
use crate::tasks::{task_views, Task, TaskView};
use crate::text::{push_signed_decimal, signed_decimal};

verus! {

/// The value of the first member of an object that is named `name`.
pub open spec fn member(members: Seq<(Seq<char>, JsonView)>, name: Seq<char>) -> Option<
    JsonView,
>
    decreases members.len(),
{
    if members.len() == 0 {
        None
    } else if members[0].0 == name {
        Some(members[0].1)
    } else {
        member(members.drop_first(), name)
    }
}

/// The task that one element of the stored array stands for: an object
/// whose `text` is a string and whose `created_at` is an integer that
/// `chrono` can hold as an instant. Other members are ignored.
pub open spec fn decoded_task(record: JsonView) -> Option<TaskView> {
    match record {
        JsonView::Object(members) => match (
            member(members, "text"@),
            member(members, "created_at"@),
        ) {
            (Some(JsonView::Text(text)), Some(JsonView::Integer(seconds))) => if is_timestamp(
                seconds,
            ) {
                Some(TaskView { text: text, created_at: seconds })
            } else {
                None
            },
            _ => None,
        },
        _ => None,
    }
}

/// The task list that a document stands for: an array, every element of
/// which is a task. One element that is none spoils the whole document.
pub open spec fn decoded_tasks(document: JsonView) -> Option<Seq<TaskView>> {
    match document {
        JsonView::Array(records) => if forall|i: int|
            0 <= i < records.len() ==> decoded_task(#[trigger] records[i]) is Some {
            Some(Seq::new(records.len(), |i: int| decoded_task(records[i]).unwrap()))
        } else {
            None
        },
        _ => None,
    }
}

/// The task list that a file content stands for. A content of no bytes is
/// the empty list; any other content must be one JSON document that
/// decodes to a task list.
pub open spec fn stored_tasks(content: Seq<u8>) -> Option<Seq<TaskView>> {
    if content.len() == 0 {
        Some(Seq::empty())
    } else {
        match json_parse(content) {
            Some(document) => decoded_tasks(document),
            None => None,
        }
    }
}

/// One task as it is written to the file, given its description already as
/// a JSON string literal.
pub open spec fn task_record(quoted_text: Seq<char>, created_at: int) -> Seq<char> {
    "{\"text\":"@ + quoted_text + ",\"created_at\":"@ + signed_decimal(created_at) + "}"@
}

/// The records of the tasks, in order, with a comma between neighbours.
pub open spec fn task_records(tasks: Seq<TaskView>) -> Seq<char>
    decreases tasks.len(),
{
    if tasks.len() == 0 {
        Seq::empty()
    } else if tasks.len() == 1 {
        task_record(json_quoted(tasks[0].text), tasks[0].created_at)
    } else {
        task_records(tasks.drop_last()) + ","@ + task_record(
            json_quoted(tasks.last().text),
            tasks.last().created_at,
        )
    }
}

/// The text of the journal file that holds `tasks`.
pub open spec fn journal_text(tasks: Seq<TaskView>) -> Seq<char> {
    "["@ + task_records(tasks) + "]"@
}

/// The bytes of the journal file that holds `tasks`: `journal_text` in
/// UTF-8.
pub open spec fn journal_bytes(tasks: Seq<TaskView>) -> Seq<u8> {
    encode_utf8(journal_text(tasks))
}

/// Whether every task of the list was created at an instant that `chrono`
/// can hold, as every `Task` is.
pub open spec fn all_timestamps(tasks: Seq<TaskView>) -> bool {
    forall|i: int| 0 <= i < tasks.len() ==> is_timestamp((#[trigger] tasks[i]).created_at)
}

/// Whether every journal file that is written here reads back as the list
/// it was written from. Nothing in this library proves it: it is a matter
/// between the text that is written and `serde_json`, which reads it, and
/// it stands as the premise of what is said about reading a file back.
pub open spec fn reads_back_what_is_written() -> bool {
    forall|tasks: Seq<TaskView>|
        all_timestamps(tasks) ==> #[trigger] stored_tasks(journal_bytes(tasks)) == Some(tasks)
}

/// What is read from a file holds only tasks created at instants that
/// `chrono` can hold.
pub proof fn lemma_stored_tasks_have_timestamps(content: Seq<u8>)
    ensures
        stored_tasks(content) matches Some(stored) ==> all_timestamps(stored),
{
    if content.len() > 0 {
        if let Some(JsonView::Array(records)) = json_parse(content) {
            if let Some(stored) = decoded_tasks(JsonView::Array(records)) {
                assert forall|i: int| 0 <= i < stored.len() implies is_timestamp(
                    (#[trigger] stored[i]).created_at,
                ) by {
                    assert(decoded_task(records[i]) is Some);
                }
            }
        }
    }
}

/// What is written is never empty: a journal file that was written once
/// is not taken for a new one.
pub proof fn lemma_written_is_not_empty(tasks: Seq<TaskView>)
    ensures
        journal_bytes(tasks).len() > 0,
{
    reveal_strlit("[");
    let text = journal_text(tasks);
    assert(text.len() > 0);
    assert(encode_utf8(text).len() > 0);
}

/// Finds the first member named `name`.
fn find_member<'a>(members: &'a Vec<(String, Json)>, name: &str) -> (found: Option<&'a Json>)
    ensures
        match found {
            Some(value) => member(member_views(members@), name@) == Some(value@),
            None => member(member_views(members@), name@) is None,
        },
{
    let ghost views = member_views(members@);
    let wanted = name.to_owned();
    let mut i: usize = 0;
    assert(views.skip(0) =~= views);
    while i < members.len()
        invariant
            i <= members.len(),
            wanted@ == name@,
            views == member_views(members@),
            member(views, name@) == member(views.skip(i as int), name@),
        decreases members.len() - i,
    {
        if members[i].0 == wanted {
            return Some(&members[i].1);
        }
        assert(views.skip(i as int).drop_first() =~= views.skip(i + 1));
        i += 1;
    }
    None
}

/// Reads one task from an element of the stored array.
pub fn decode_task(record: &Json) -> (task: Option<Task>)
    ensures
        match decoded_task(record@) {
            Some(view) => task matches Some(t) && t@ == view,
            None => task is None,
        },
{
    match record {
        Json::Object(members) => {
            proof {
                lemma_object_view(*members);
            }
            let text = find_member(members, "text");
            let created_at = find_member(members, "created_at");
            match (text, created_at) {
                (Some(Json::Text(text)), Some(Json::Integer(seconds))) => Task::from_parts(
                    text.clone(),
                    *seconds,
                ),
                _ => None,
            }
        },
        _ => None,
    }
}

/// Reads the task list from a JSON document.
///
/// Fails with `CorruptStore` exactly when the document is no array or one
/// of its elements is no task.
pub fn decode_tasks(document: &Json) -> (result: Result<Vec<Task>, JournalError>)
    ensures
        match decoded_tasks(document@) {
            Some(views) => result matches Ok(tasks) && task_views(tasks@) == views,
            None => result == Err::<Vec<Task>, JournalError>(JournalError::CorruptStore),
        },
{
    match document {
        Json::Array(records) => {
            proof {
                lemma_array_view(*records);
            }
            let mut tasks: Vec<Task> = Vec::new();
            let mut i: usize = 0;
            while i < records.len()
                invariant
                    document@ == JsonView::Array(item_views(records@)),
                    i <= records.len(),
                    tasks@.len() == i,
                    forall|k: int| 0 <= k < i ==> decoded_task(#[trigger] records@[k]@) is Some,
                    forall|k: int|
                        0 <= k < i ==> (#[trigger] tasks@[k])@ == decoded_task(
                            records@[k]@,
                        ).unwrap(),
                decreases records.len() - i,
            {
                match decode_task(&records[i]) {
                    Some(task) => tasks.push(task),
                    None => {
                        assert(decoded_task(item_views(records@)[i as int]) is None);
                        return Err(JournalError::CorruptStore);
                    },
                }
                i += 1;
            }
            assert forall|k: int| 0 <= k < records@.len() implies decoded_task(
                #[trigger] item_views(records@)[k],
            ) is Some by {
                assert(decoded_task(records@[k]@) is Some);
            }
            assert(task_views(tasks@) =~= decoded_tasks(document@).unwrap());
            Ok(tasks)
        },
        _ => Err(JournalError::CorruptStore),
    }
}

/// Reads the task list from the content of a journal file.
///
/// A content of no bytes, as a new file has it, is the empty list. Any
/// other content that is not a stored task list fails with
/// `CorruptStore`; nothing of it is salvaged.
pub fn collect_tasks(content: &[u8]) -> (result: Result<Vec<Task>, JournalError>)
    ensures
        match stored_tasks(content@) {
            Some(views) => result matches Ok(tasks) && task_views(tasks@) == views,
            None => result == Err::<Vec<Task>, JournalError>(JournalError::CorruptStore),
        },
{
    if content.len() == 0 {
        let tasks: Vec<Task> = Vec::new();
        assert(task_views(tasks@) =~= Seq::<TaskView>::empty());
        return Ok(tasks);
    }
    match parse_json(content) {
        Some(document) => decode_tasks(&document),
        None => Err(JournalError::CorruptStore),
    }
}

/// Appends one task as it is written to the file, given its description
/// already as a JSON string literal.
pub fn push_task_record(out: &mut String, quoted_text: &str, created_at: i64)
    ensures
        final(out)@ == old(out)@ + task_record(quoted_text@, created_at as int),
{
    out.append("{\"text\":");
    out.append(quoted_text);
    out.append(",\"created_at\":");
    push_signed_decimal(out, created_at);
    out.append("}");
    assert(out@ =~= old(out)@ + task_record(quoted_text@, created_at as int));
}

/// Writes the task list as the content of a journal file.
pub fn serialize_tasks(tasks: &Vec<Task>) -> (content: Vec<u8>)
    ensures
        content@ == journal_bytes(task_views(tasks@)),
        content@.len() > 0,
{
    proof {
        lemma_written_is_not_empty(task_views(tasks@));
    }
    let ghost views = task_views(tasks@);
    let mut out = String::new();
    out.append("[");
    let mut i: usize = 0;
    while i < tasks.len()
        invariant
            i <= tasks.len(),
            views == task_views(tasks@),
            out@ == "["@ + task_records(views.take(i as int)),
        decreases tasks.len() - i,
    {
        if i > 0 {
            out.append(",");
        }
        let task = &tasks[i];
        let quoted = quote_json(task.text());
        push_task_record(&mut out, quoted.as_str(), task.created_at());
        proof {
            let done = views.take(i + 1);
            assert(done.drop_last() =~= views.take(i as int));
            assert(done.last() == views[i as int]);
            assert(views[i as int] == task@);
            assert(out@ =~= "["@ + task_records(done));
        }
        i += 1;
    }
    out.append("]");
    assert(views.take(tasks.len() as int) =~= views);
    out.as_str().as_bytes_vec()
}

} // verus!
