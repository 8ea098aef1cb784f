use vstd::prelude::*;

verus! {

/// The kinds of controlled failure that the engine reports.
#[derive(Debug, Clone, Copy, PartialEq, Eq, Structural)]
pub enum ErrorKind {
    ArgumentCount,
    FileSystem,
    ShellExecution,
    UnsupportedPlatform,
    UndefinedVariable,
    InvalidPattern,
}

/// A failure with its kind and a human-readable message.
#[derive(Debug, Clone)]
pub struct Exception {
    pub kind: ErrorKind,
    pub message: String,
}

impl Exception {
    pub fn new(kind: ErrorKind, message: String) -> (r: Exception)
        ensures
            r.kind == kind,
            r.message@ == message@,
    {
        Exception { kind, message }
    }
}

} // verus!
