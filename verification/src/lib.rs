//! A personal task journal: tasks are appended, listed and removed by
//! position, and the whole list is kept as a JSON array in one file.
//!
//! The library holds every rule of the journal and proves it: how stored
//! bytes become a task list, how one intent changes that list, and which
//! bytes go back to the file. It never touches the file itself; the caller
//! reads the content, hands it over, and writes back what it is given.

pub mod cli;
pub mod clock;
pub mod codec;
pub mod error;
pub mod journal;
pub mod json;
pub mod tasks;
pub mod text;
