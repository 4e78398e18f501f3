//! The single error kind of the core: a state error carrying a
//! human-readable message.

use vstd::prelude::*;

verus! {

#[derive(Clone, Copy, Debug, PartialEq, Eq, Structural)]
pub enum AppErrorKind {
    StateError,
}

#[derive(Debug, Clone)]
pub struct AppError {
    pub kind: AppErrorKind,
    pub message: String,
}

impl AppError {
    pub fn new(kind: AppErrorKind, message: String) -> (r: AppError)
        ensures
            r.kind == kind,
            r.message == message,
    {
        AppError { kind, message }
    }

    /// The error text, for callers that surface it to the user.
    pub fn message(&self) -> (r: &String)
        ensures
            r == &self.message,
    {
        &self.message
    }
}

} // verus!
