use rusty_journal::clock::{stamp_at, timestamp_in_range, MAX_TIMESTAMP, MIN_TIMESTAMP};
use rusty_journal::tasks::{Task, TEXT_COLUMN_WIDTH};

const NEW_YEAR_2021: i64 = 1609459200;

fn task(text: &str, created_at: i64) -> Task {
    Task::from_parts(text.to_string(), created_at).expect("a timestamp chrono holds")
}

fn local_stamp(seconds: i64) -> String {
    chrono::DateTime::from_timestamp(seconds, 0)
        .unwrap()
        .with_timezone(&chrono::Local)
        .format("%F %H:%M")
        .to_string()
}

#[test]
fn timestamp_bounds_are_those_of_chrono() {
    assert_eq!(chrono::DateTime::<chrono::Utc>::MIN_UTC.timestamp(), MIN_TIMESTAMP);
    assert_eq!(chrono::DateTime::<chrono::Utc>::MAX_UTC.timestamp(), MAX_TIMESTAMP);
    assert!(chrono::DateTime::from_timestamp(MIN_TIMESTAMP, 0).is_some());
    assert!(chrono::DateTime::from_timestamp(MAX_TIMESTAMP, 0).is_some());
    assert!(chrono::DateTime::from_timestamp(MIN_TIMESTAMP - 1, 0).is_none());
    assert!(chrono::DateTime::from_timestamp(MAX_TIMESTAMP + 1, 0).is_none());
}

#[test]
fn timestamp_range_test_agrees_with_chrono() {
    let samples = [
        i64::MIN,
        MIN_TIMESTAMP - 1,
        MIN_TIMESTAMP,
        MIN_TIMESTAMP + 1,
        -1,
        0,
        NEW_YEAR_2021,
        MAX_TIMESTAMP - 1,
        MAX_TIMESTAMP,
        MAX_TIMESTAMP + 1,
        i64::MAX,
    ];
    for seconds in samples {
        assert_eq!(
            timestamp_in_range(seconds),
            chrono::DateTime::from_timestamp(seconds, 0).is_some(),
            "at {}",
            seconds
        );
    }
}

#[test]
fn task_from_parts_keeps_text_and_time() {
    let made = task("buy milk", NEW_YEAR_2021);
    assert_eq!(made.text(), "buy milk");
    assert_eq!(made.created_at(), NEW_YEAR_2021);
}

#[test]
fn task_from_parts_takes_any_text() {
    assert_eq!(task("", 0).text(), "");
    let long = "x".repeat(10_000);
    assert_eq!(task(&long, 0).text(), long);
    assert_eq!(task("tab\tquote\"\n", 0).text(), "tab\tquote\"\n");
}

#[test]
fn task_from_parts_takes_the_whole_range_of_chrono() {
    assert!(Task::from_parts(String::new(), MIN_TIMESTAMP).is_some());
    assert!(Task::from_parts(String::new(), MAX_TIMESTAMP).is_some());
    assert!(Task::from_parts(String::new(), -1).is_some());
}

#[test]
fn task_from_parts_refuses_what_chrono_cannot_hold() {
    assert!(Task::from_parts(String::new(), MIN_TIMESTAMP - 1).is_none());
    assert!(Task::from_parts(String::new(), MAX_TIMESTAMP + 1).is_none());
    assert!(Task::from_parts(String::new(), i64::MIN).is_none());
    assert!(Task::from_parts(String::new(), i64::MAX).is_none());
}

#[test]
fn new_task_keeps_text_and_is_created_now() {
    let before = chrono::Utc::now().timestamp();
    let made = Task::new("walk dog".to_string());
    let after = chrono::Utc::now().timestamp();
    assert_eq!(made.text(), "walk dog");
    assert!(before <= made.created_at() && made.created_at() <= after);
}

#[test]
fn new_task_takes_empty_text() {
    assert_eq!(Task::new(String::new()).text(), "");
}

#[test]
fn tasks_of_one_second_are_equal() {
    assert_eq!(task("a", 5), task("a", 5));
    assert_ne!(task("a", 5), task("a", 6));
    assert_ne!(task("a", 5), task("b", 5));
}

#[test]
fn task_clone_is_equal() {
    let made = task("buy milk", NEW_YEAR_2021);
    assert_eq!(made.clone(), made);
}

#[test]
fn column_width_is_fifty() {
    assert_eq!(TEXT_COLUMN_WIDTH, 50);
}

#[test]
fn line_pads_short_text_to_fifty() {
    let line = task("buy milk", NEW_YEAR_2021).line("2021-01-01 00:00");
    assert_eq!(line, "buy milk                                           [2021-01-01 00:00]");
    assert_eq!(line, format!("{:<50} [{}]", "buy milk", "2021-01-01 00:00"));
}

#[test]
fn line_keeps_text_of_fifty_characters() {
    let text = "a".repeat(50);
    let line = task(&text, 0).line("S");
    assert_eq!(line, format!("{} [S]", text));
}

#[test]
fn line_pads_text_of_forty_nine_characters_by_one() {
    let text = "a".repeat(49);
    let line = task(&text, 0).line("S");
    assert_eq!(line, format!("{}  [S]", text));
}

#[test]
fn line_never_truncates_long_text() {
    let text = "b".repeat(51);
    assert_eq!(task(&text, 0).line("S"), format!("{} [S]", text));
    let longer = "c".repeat(200);
    assert_eq!(task(&longer, 0).line("S"), format!("{} [S]", longer));
}

#[test]
fn line_of_empty_text_is_fifty_spaces_and_stamp() {
    assert_eq!(task("", 0).line("S"), format!("{} [S]", " ".repeat(50)));
}

#[test]
fn line_counts_characters_not_bytes() {
    let text = "é".repeat(48);
    let line = task(&text, 0).line("S");
    assert_eq!(line, format!("{}   [S]", text));
    assert_eq!(line, format!("{:<50} [{}]", text, "S"));
}

#[test]
fn line_takes_any_stamp() {
    assert_eq!(task("a", 0).line(""), format!("{:<50} []", "a"));
}

#[test]
fn stamp_at_utc() {
    assert_eq!(stamp_at(NEW_YEAR_2021, 0), Some("2021-01-01 00:00".to_string()));
    assert_eq!(stamp_at(0, 0), Some("1970-01-01 00:00".to_string()));
    assert_eq!(stamp_at(1431648000, 0), Some("2015-05-15 00:00".to_string()));
}

#[test]
fn stamp_at_drops_seconds() {
    assert_eq!(stamp_at(NEW_YEAR_2021 + 59, 0), Some("2021-01-01 00:00".to_string()));
    assert_eq!(stamp_at(NEW_YEAR_2021 + 60, 0), Some("2021-01-01 00:01".to_string()));
}

#[test]
fn stamp_at_shifts_by_the_offset() {
    assert_eq!(stamp_at(NEW_YEAR_2021, 3600), Some("2021-01-01 01:00".to_string()));
    assert_eq!(stamp_at(NEW_YEAR_2021, -3600), Some("2020-12-31 23:00".to_string()));
    assert_eq!(stamp_at(NEW_YEAR_2021, 19800), Some("2021-01-01 05:30".to_string()));
}

#[test]
fn stamp_at_before_the_epoch() {
    assert_eq!(stamp_at(-1, 0), Some("1969-12-31 23:59".to_string()));
}

#[test]
fn stamp_at_refuses_offsets_of_a_day_or_more() {
    assert_eq!(stamp_at(0, 86_400), None);
    assert_eq!(stamp_at(0, -86_400), None);
    assert_eq!(stamp_at(0, i32::MAX), None);
    assert_eq!(stamp_at(0, i32::MIN), None);
    assert!(stamp_at(0, 86_399).is_some());
    assert!(stamp_at(0, -86_399).is_some());
}

#[test]
fn stamp_at_refuses_what_chrono_cannot_hold() {
    assert_eq!(stamp_at(MAX_TIMESTAMP + 1, 0), None);
    assert_eq!(stamp_at(MIN_TIMESTAMP - 1, 0), None);
}

#[test]
fn stamp_at_the_ends_of_the_range() {
    assert_eq!(stamp_at(MAX_TIMESTAMP, 0), Some("+262142-12-31 23:59".to_string()));
    assert_eq!(stamp_at(MIN_TIMESTAMP, 0), Some("-262143-01-01 00:00".to_string()));
    assert!(stamp_at(MAX_TIMESTAMP, 86_399).is_some());
    assert!(stamp_at(MIN_TIMESTAMP, -86_399).is_some());
}

#[test]
fn stamp_at_agrees_with_chrono_at_a_fixed_offset() {
    for (seconds, offset) in [(NEW_YEAR_2021, 7200), (951782400, -18000), (-86400 * 365, 1)] {
        let expected = chrono::DateTime::from_timestamp(seconds, 0)
            .unwrap()
            .with_timezone(&chrono::FixedOffset::east_opt(offset).unwrap())
            .format("%F %H:%M")
            .to_string();
        assert_eq!(stamp_at(seconds, offset), Some(expected));
    }
}

#[test]
fn to_string_shows_local_time_in_brackets() {
    let made = task("buy milk", NEW_YEAR_2021);
    let expected = format!("{:<50} [{}]", "buy milk", local_stamp(NEW_YEAR_2021));
    assert_eq!(made.to_string(), expected);
}

#[test]
fn to_string_is_the_line_with_the_local_stamp() {
    for seconds in [0, NEW_YEAR_2021, 1625140800, MIN_TIMESTAMP, MAX_TIMESTAMP] {
        let made = task("x", seconds);
        assert_eq!(made.to_string(), made.line(&local_stamp(seconds)));
    }
}

#[test]
fn to_string_has_the_printed_shape() {
    let line = task("buy milk", NEW_YEAR_2021).to_string();
    assert!(line.starts_with("buy milk "));
    assert!(line.ends_with(']'));
    assert_eq!(&line[50..52], " [");
    // YYYY-MM-DD HH:MM
    let stamp = &line[52..line.len() - 1];
    assert_eq!(stamp.len(), 16);
    assert_eq!(&stamp[4..5], "-");
    assert_eq!(&stamp[7..8], "-");
    assert_eq!(&stamp[10..11], " ");
    assert_eq!(&stamp[13..14], ":");
}
