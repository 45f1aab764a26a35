use rusty_journal::cli::Action;
use rusty_journal::codec::collect_tasks;
use rusty_journal::error::JournalError;
use rusty_journal::journal::{open_failure, open_mode, perform, Effect, OpenMode};

fn add(text: &str) -> Action {
    Action::Add { task: text.to_string() }
}

fn persisted(effect: Result<Effect, JournalError>) -> Vec<u8> {
    match effect {
        Ok(Effect::Persist(written)) => written,
        other => panic!("expected bytes to persist, got {:?}", other),
    }
}

fn reported(effect: Result<Effect, JournalError>) -> Vec<String> {
    match effect {
        Ok(Effect::Report(lines)) => lines,
        other => panic!("expected a report, got {:?}", other),
    }
}

fn local_stamp(seconds: i64) -> String {
    chrono::DateTime::from_timestamp(seconds, 0)
        .unwrap()
        .with_timezone(&chrono::Local)
        .format("%F %H:%M")
        .to_string()
}

#[test]
fn add_opens_for_reading_and_writing_and_creates() {
    assert_eq!(open_mode(&add("a")), OpenMode { read: true, write: true, create: true });
}

#[test]
fn done_opens_for_reading_and_writing_without_creating() {
    assert_eq!(
        open_mode(&Action::Done { position: 1 }),
        OpenMode { read: true, write: true, create: false }
    );
}

#[test]
fn list_opens_for_reading_only() {
    assert_eq!(open_mode(&Action::List), OpenMode { read: true, write: false, create: false });
}

#[test]
fn missing_file_is_not_found_for_done_and_list() {
    assert_eq!(open_failure(&Action::Done { position: 1 }, true), JournalError::NotFound);
    assert_eq!(open_failure(&Action::List, true), JournalError::NotFound);
}

#[test]
fn missing_path_is_an_io_failure_for_add() {
    assert_eq!(open_failure(&add("a"), true), JournalError::IOFailure);
}

#[test]
fn other_open_failures_are_io_failures() {
    assert_eq!(open_failure(&add("a"), false), JournalError::IOFailure);
    assert_eq!(open_failure(&Action::Done { position: 1 }, false), JournalError::IOFailure);
    assert_eq!(open_failure(&Action::List, false), JournalError::IOFailure);
}

#[test]
fn error_messages() {
    assert_eq!(JournalError::ConfigurationError.message(), "Failed to find journal file.");
    assert_eq!(JournalError::InvalidPosition.message(), "Invalid Task ID");
    assert_eq!(JournalError::NotFound.message(), "Journal file not found.");
    assert_eq!(JournalError::CorruptStore.message(), "Journal file is corrupt.");
    assert_eq!(
        JournalError::IOFailure.message(),
        "Journal file could not be read or written."
    );
}

#[test]
fn perform_add_persists_the_new_task_created_now() {
    let before = chrono::Utc::now().timestamp();
    let written = persisted(perform(add("buy milk"), b""));
    let after = chrono::Utc::now().timestamp();
    let tasks = collect_tasks(&written).unwrap();
    assert_eq!(tasks.len(), 1);
    assert_eq!(tasks[0].text(), "buy milk");
    assert!(before <= tasks[0].created_at() && tasks[0].created_at() <= after);
}

#[test]
fn perform_add_keeps_what_was_stored() {
    let content = br#"[{"text":"a","created_at":1}]"#;
    let written = persisted(perform(add("b"), content));
    let tasks = collect_tasks(&written).unwrap();
    assert_eq!(tasks.len(), 2);
    assert_eq!((tasks[0].text(), tasks[0].created_at()), ("a", 1));
    assert_eq!(tasks[1].text(), "b");
    assert!(written.starts_with(br#"[{"text":"a","created_at":1},{"text":"b","created_at":"#));
}

#[test]
fn perform_done_persists_the_rest() {
    let content = br#"[{"text":"a","created_at":1},{"text":"b","created_at":2}]"#;
    assert_eq!(
        perform(Action::Done { position: 1 }, content),
        Ok(Effect::Persist(br#"[{"text":"b","created_at":2}]"#.to_vec()))
    );
}

#[test]
fn perform_done_out_of_range_persists_nothing() {
    let content = br#"[{"text":"a","created_at":1},{"text":"b","created_at":2}]"#;
    assert_eq!(perform(Action::Done { position: 0 }, content), Err(JournalError::InvalidPosition));
    assert_eq!(perform(Action::Done { position: 3 }, content), Err(JournalError::InvalidPosition));
    assert_eq!(perform(Action::Done { position: 1 }, b""), Err(JournalError::InvalidPosition));
}

#[test]
fn perform_list_reports_and_persists_nothing() {
    let content = br#"[{"text":"a","created_at":1},{"text":"b","created_at":2}]"#;
    let lines = reported(perform(Action::List, content));
    assert_eq!(
        lines,
        vec![
            format!("1: {:<50} [{}]", "a", local_stamp(1)),
            format!("2: {:<50} [{}]", "b", local_stamp(2)),
        ]
    );
}

#[test]
fn perform_list_twice_reports_the_same() {
    let content = br#"[{"text":"a","created_at":1}]"#;
    assert_eq!(perform(Action::List, content), perform(Action::List, content));
}

#[test]
fn perform_list_on_new_file_reports_empty() {
    assert_eq!(
        perform(Action::List, b""),
        Ok(Effect::Report(vec!["Task list is empty!".to_string()]))
    );
}

#[test]
fn perform_fails_every_action_on_corrupt_content() {
    for content in [&b"oops"[..], b"{\"text\":\"a\"}", b"[{\"text\":\"a\",\"created_at\":1}"] {
        assert_eq!(perform(add("x"), content), Err(JournalError::CorruptStore));
        assert_eq!(perform(Action::Done { position: 1 }, content), Err(JournalError::CorruptStore));
        assert_eq!(perform(Action::List, content), Err(JournalError::CorruptStore));
    }
}

#[test]
fn perform_scenario_from_no_file_to_one_task_left() {
    let content = persisted(perform(add("buy milk"), b""));
    let lines = reported(perform(Action::List, &content));
    assert_eq!(lines.len(), 1);
    assert!(lines[0].starts_with("1: buy milk  "));

    let content = persisted(perform(add("walk dog"), &content));
    let lines = reported(perform(Action::List, &content));
    assert_eq!(lines.len(), 2);
    assert!(lines[0].starts_with("1: buy milk  "));
    assert!(lines[1].starts_with("2: walk dog  "));

    let content = persisted(perform(Action::Done { position: 1 }, &content));
    let lines = reported(perform(Action::List, &content));
    assert_eq!(lines.len(), 1);
    assert!(lines[0].starts_with("1: walk dog  "));
}
