//! What the user asks for: one of three intents, and the journal file it
//! is meant for.

use std::path::PathBuf;
use vstd::prelude::*;
use crate::error::JournalError;

verus! {

/// What is to be done to the journal.
#[derive(Debug)]
pub enum Action {
    /// Write a task to the journal file.
    Add {
        /// The task description text.
        task: String,
    },
    /// Remove an entry from the journal file by position.
    Done { position: usize },
    /// List all tasks in the journal file.
    List,
}

/// The intent and, if the user named one, the journal file.
#[derive(Debug)]
pub struct CommandLineArgs {
    pub action: Action,
    /// Use a different journal file.
    pub journal_file: Option<PathBuf>,
}

/// A file-system path of the standard library. It is only handed on.
#[verifier::external_type_specification]
#[verifier::external_body]
pub struct ExPathBuf(std::path::PathBuf);

/// What a path holds: its bytes, as the platform writes paths.
pub uninterp spec fn path_bytes(path: PathBuf) -> Seq<u8>;

/// The bytes of the path that `PathBuf::push` makes of a directory with
/// the bytes `directory` when `name` is pushed onto it.
pub uninterp spec fn path_joined(directory: Seq<u8>, name: Seq<char>) -> Seq<u8>;

/// Whether `file` is the default journal file of a user whose home
/// directory is `home`: the file `.rusty-journal.json` in that directory,
/// and none where there is no home directory.
pub open spec fn is_default_in(file: Option<PathBuf>, home: Option<PathBuf>) -> bool {
    match home {
        Some(directory) => file matches Some(path) && path_bytes(path) == path_joined(
            path_bytes(directory),
            ".rusty-journal.json"@,
        ),
        None => file is None,
    }
}

/// The journal file to work on: the one the user named, else the default
/// one, else none.
pub open spec fn selected_file(named: Option<PathBuf>, fallback: Option<PathBuf>) -> Result<
    PathBuf,
    JournalError,
> {
    match named {
        Some(path) => Ok(path),
        None => match fallback {
            Some(path) => Ok(path),
            None => Err(JournalError::ConfigurationError),
        },
    }
}

/// Extends a path by one component with `PathBuf::push`.
///
/// Trusted: the bytes of the result are a function of the bytes of the
/// directory and of the name alone, named `path_joined`.
#[verifier::external_body]
fn join_path(directory: PathBuf, name: &str) -> (path: PathBuf)
    ensures
        path_bytes(path) == path_joined(path_bytes(directory), name@),
{
    let mut path = directory;
    path.push(name);
    path
}

/// The current user's home directory, from `home::home_dir`.
///
/// Trusted: nothing is claimed of the result, which depends on the
/// environment of the process.
#[verifier::external_body]
fn home_dir() -> Option<PathBuf> {
    home::home_dir()
}

/// The default journal file for a user whose home directory is `home`:
/// the file `.rusty-journal.json` in that directory.
pub fn default_journal_file(home: Option<PathBuf>) -> (file: Option<PathBuf>)
    ensures
        is_default_in(file, home),
{
    match home {
        Some(directory) => Some(join_path(directory, ".rusty-journal.json")),
        None => None,
    }
}

/// The default journal file of the current user, if a home directory can
/// be determined.
pub fn find_default_journal_file() -> (file: Option<PathBuf>)
    ensures
        exists|home: Option<PathBuf>| is_default_in(file, home),
{
    let home = home_dir();
    let file = default_journal_file(home);
    assert(is_default_in(file, home));
    file
}

/// Settles on the journal file, given the one the user named and the
/// default one.
///
/// Fails with `ConfigurationError` exactly when there is neither.
pub fn select_journal_file(named: Option<PathBuf>, fallback: Option<PathBuf>) -> (result: Result<
    PathBuf,
    JournalError,
>)
    ensures
        result == selected_file(named, fallback),
{
    match named {
        Some(path) => Ok(path),
        None => match fallback {
            Some(path) => Ok(path),
            None => Err(JournalError::ConfigurationError),
        },
    }
}

/// Settles on the journal file: the one the user named, else the default
/// file in the user's home directory. The home directory is looked up only
/// when no file was named.
///
/// Fails with `ConfigurationError` when no file was named and no home
/// directory can be determined.
pub fn resolve_journal_file(named: Option<PathBuf>) -> (result: Result<PathBuf, JournalError>)
    ensures
        named is Some ==> result == selected_file(named, None),
        named is None ==> exists|home: Option<PathBuf>, fallback: Option<PathBuf>|
            is_default_in(fallback, home) && result == selected_file(None, fallback),
{
    match named {
        Some(path) => Ok(path),
        None => {
            let fallback = find_default_journal_file();
            let ghost home = choose|home: Option<PathBuf>| is_default_in(fallback, home);
            let result = select_journal_file(None, fallback);
            assert(is_default_in(fallback, home) && result == selected_file(None, fallback));
            result
        },
    }
}

} // verus!
