//! The log sink capability: a single append operation behind a trait, so
//! that any concrete sink (file-backed in the application, in-memory in
//! tests) can be injected into the check-in service.

use vstd::prelude::*;

verus! {

/// A failed append to the log sink. Log write failures are reported and
/// swallowed; they never abort a run.
#[derive(Debug, Clone)]
pub struct LogError {
    pub message: String,
}

/// An append-only textual log sink. One call appends one self-contained,
/// newline-terminated line; concrete sinks must not interleave lines from
/// concurrent calls.
pub trait Logger {
    fn log(&self, content: &str) -> Result<(), LogError>;
}

/// The file-backed sink's identity: the path of the append-only log file.
/// Opening and writing the file is I/O and lives with the application; this
/// type carries the configured path to it.
#[derive(Debug, Clone)]
pub struct FileLogger {
    pub file_path: String,
}

impl FileLogger {
    /// A sink identity for the log file at `file_path`.
    pub fn new(file_path: &str) -> (r: Self)
        ensures
            r.file_path@ == file_path@,
    {
        FileLogger { file_path: String::from_str(file_path) }
    }
}

} // verus!
