//! The execution mode every validation rule is evaluated against.

use vstd::prelude::*;

verus! {

/// How the process is addressing resources: from inside a located project
/// directory, or globally with no project at hand.
///
/// `Project` carries the resolved directory; `Global` carries nothing.
#[derive(Clone, Debug, PartialEq)]
pub enum Mode {
    Project(String),
    Global,
}

/// Failure of the project locator.
#[derive(Clone, Debug, PartialEq)]
pub enum LocateError {
    NotFound,
    Unexpected(String),
}

/// Looks for a project directory to run in.
///
/// Locating a project is not implemented: every invocation reports
/// `NotFound`, and the caller falls back to the global mode.
pub fn locate() -> (r: Result<String, LocateError>)
    ensures
        r matches Err(e) && e is NotFound,
{
    Err(LocateError::NotFound)
}

} // verus!
