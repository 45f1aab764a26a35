//! The ways in which a journal operation fails.

use vstd::prelude::*;

verus! {

/// Why a journal operation did not complete.
#[derive(Debug, Clone, Copy, PartialEq, Eq, Structural)]
pub enum JournalError {
    /// No journal file was named and no home directory is known.
    ConfigurationError,
    /// The journal file is missing and the operation does not create it.
    NotFound,
    /// The journal file holds something other than a task list.
    CorruptStore,
    /// The position named by a removal is not that of a stored task.
    InvalidPosition,
    /// The file system refused or failed.
    IOFailure,
}

/// What the user is told about each failure.
pub open spec fn message_of(error: JournalError) -> Seq<char> {
    match error {
        JournalError::ConfigurationError => "Failed to find journal file."@,
        JournalError::NotFound => "Journal file not found."@,
        JournalError::CorruptStore => "Journal file is corrupt."@,
        JournalError::InvalidPosition => "Invalid Task ID"@,
        JournalError::IOFailure => "Journal file could not be read or written."@,
    }
}

impl JournalError {
    /// The text shown to the user when the operation fails with this error.
    pub fn message(&self) -> (text: &'static str)
        ensures
            text@ == message_of(*self),
    {
        match self {
            JournalError::ConfigurationError => "Failed to find journal file.",
            JournalError::NotFound => "Journal file not found.",
            JournalError::CorruptStore => "Journal file is corrupt.",
            JournalError::InvalidPosition => "Invalid Task ID",
            JournalError::IOFailure => "Journal file could not be read or written.",
        }
    }
}

} // verus!
