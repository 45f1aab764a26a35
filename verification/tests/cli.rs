use rusty_journal::cli::{
    default_journal_file, find_default_journal_file, resolve_journal_file, select_journal_file,
    Action, CommandLineArgs,
};
use rusty_journal::error::JournalError;
use std::path::PathBuf;

#[test]
fn default_file_is_the_dot_file_in_the_home_directory() {
    let home = PathBuf::from("home-of-user");
    let mut expected = PathBuf::from("home-of-user");
    expected.push(".rusty-journal.json");
    assert_eq!(default_journal_file(Some(home)), Some(expected));
}

#[test]
fn default_file_has_the_fixed_name() {
    let file = default_journal_file(Some(PathBuf::from("somewhere"))).unwrap();
    assert_eq!(file.file_name().unwrap(), ".rusty-journal.json");
    assert_eq!(file.parent().unwrap(), PathBuf::from("somewhere"));
}

#[test]
fn default_file_in_an_empty_home_is_the_bare_name() {
    assert_eq!(
        default_journal_file(Some(PathBuf::new())),
        Some(PathBuf::from(".rusty-journal.json"))
    );
}

#[test]
fn no_home_directory_gives_no_default_file() {
    assert_eq!(default_journal_file(None), None);
}

#[test]
fn found_default_file_lies_in_the_home_directory() {
    let expected = home::home_dir().map(|mut path| {
        path.push(".rusty-journal.json");
        path
    });
    assert_eq!(find_default_journal_file(), expected);
}

#[test]
fn named_file_wins_over_the_default() {
    let named = PathBuf::from("named.json");
    let fallback = PathBuf::from("fallback.json");
    assert_eq!(select_journal_file(Some(named.clone()), Some(fallback)), Ok(named.clone()));
    assert_eq!(select_journal_file(Some(named.clone()), None), Ok(named));
}

#[test]
fn default_file_is_used_when_none_is_named() {
    let fallback = PathBuf::from("fallback.json");
    assert_eq!(select_journal_file(None, Some(fallback.clone())), Ok(fallback));
}

#[test]
fn neither_named_nor_default_file_is_a_configuration_error() {
    assert_eq!(select_journal_file(None, None), Err(JournalError::ConfigurationError));
}

#[test]
fn resolve_keeps_the_named_file() {
    let named = PathBuf::from("dir").join("my journal.json");
    assert_eq!(resolve_journal_file(Some(named.clone())), Ok(named));
}

#[test]
fn resolve_falls_back_to_the_home_directory() {
    let expected = match home::home_dir() {
        Some(mut path) => {
            path.push(".rusty-journal.json");
            Ok(path)
        }
        None => Err(JournalError::ConfigurationError),
    };
    assert_eq!(resolve_journal_file(None), expected);
}

#[test]
fn command_line_args_hold_action_and_file() {
    let args = CommandLineArgs {
        action: Action::Add { task: "buy milk".to_string() },
        journal_file: Some(PathBuf::from("j.json")),
    };
    assert!(matches!(args.action, Action::Add { ref task } if task == "buy milk"));
    assert_eq!(args.journal_file, Some(PathBuf::from("j.json")));
    let done = CommandLineArgs { action: Action::Done { position: 3 }, journal_file: None };
    assert!(matches!(done.action, Action::Done { position: 3 }));
    assert!(done.journal_file.is_none());
    assert!(matches!(Action::List, Action::List));
}
