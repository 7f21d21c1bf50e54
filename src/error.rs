use vstd::prelude::*;

use crate::text::{append_decimal, decimal};

verus! {

/// The category of a failure.
#[derive(Debug, Clone, Copy, PartialEq, Eq, Structural)]
pub enum ErrorKind {
    /// Malformed caller-supplied data.
    InvalidInput,
    /// The operation is not supported on this platform or engine build.
    NotSupported,
    /// The engine context could not be created.
    RuntimeUnavailable,
    /// The target process does not exist.
    ProcessNotFound,
    /// Privilege is insufficient to probe or act on a process.
    PermissionDenied,
    /// A local filesystem failure.
    Io,
    /// A native failure without a more specific category.
    Runtime,
}

/// What an error is: its category and its human-readable message.
pub struct ErrorView {
    pub kind: ErrorKind,
    pub message: Seq<char>,
}

/// Error type of this crate: a category and a message.
#[derive(Debug)]
pub struct Error {
    kind: ErrorKind,
    message: String,
}

impl View for Error {
    type V = ErrorView;

    closed spec fn view(&self) -> ErrorView {
        ErrorView { kind: self.kind, message: self.message@ }
    }
}

/// An `InvalidInput` error with the given message.
pub open spec fn invalid(message: Seq<char>) -> ErrorView {
    ErrorView { kind: ErrorKind::InvalidInput, message }
}

/// The error for a process that was not found.
pub open spec fn process_not_found_view(pid: int) -> ErrorView {
    ErrorView { kind: ErrorKind::ProcessNotFound, message: "process not found: "@ + decimal(pid) }
}

impl Error {
    /// An error of the given kind with the given message.
    pub fn new(kind: ErrorKind, message: String) -> (r: Error)
        ensures
            r@ == (ErrorView { kind, message: message@ }),
    {
        Error { kind, message }
    }

    /// An error of the given kind whose message is the given text.
    pub fn with_text(kind: ErrorKind, message: &str) -> (r: Error)
        ensures
            r@ == (ErrorView { kind, message: message@ }),
    {
        Error { kind, message: String::from_str(message) }
    }

    /// The error reported for a pid that names no process.
    pub fn process_not_found(pid: i32) -> (r: Error)
        ensures
            r@ == process_not_found_view(pid as int),
    {
        let mut message = String::from_str("process not found: ");
        append_decimal(&mut message, pid);
        Error { kind: ErrorKind::ProcessNotFound, message }
    }

    /// The category of this error.
    pub fn kind(&self) -> (k: ErrorKind)
        ensures
            k == self@.kind,
    {
        self.kind
    }

    /// The human-readable message.
    pub fn message(&self) -> (m: &str)
        ensures
            m@ == self@.message,
    {
        self.message.as_str()
    }

    /// The human-readable message, as an owned string.
    pub fn to_string(&self) -> (m: String)
        ensures
            m@ == self@.message,
    {
        self.message.clone()
    }

    /// Returns true if the target process was not found.
    pub fn is_process_not_found(&self) -> (r: bool)
        ensures
            r == (self@.kind == ErrorKind::ProcessNotFound),
    {
        self.kind == ErrorKind::ProcessNotFound
    }

    /// Returns true if the error was caused by insufficient permissions.
    pub fn is_permission_denied(&self) -> (r: bool)
        ensures
            r == (self@.kind == ErrorKind::PermissionDenied),
    {
        self.kind == ErrorKind::PermissionDenied
    }

    /// Returns true if the injection engine is not available.
    pub fn is_runtime_unavailable(&self) -> (r: bool)
        ensures
            r == (self@.kind == ErrorKind::RuntimeUnavailable),
    {
        self.kind == ErrorKind::RuntimeUnavailable
    }

    /// Returns true if the engine reported an error without a specific category.
    pub fn is_runtime_error(&self) -> (r: bool)
        ensures
            r == (self@.kind == ErrorKind::Runtime),
    {
        self.kind == ErrorKind::Runtime
    }

    /// Returns true if this operation is not supported on the current platform.
    pub fn is_not_supported(&self) -> (r: bool)
        ensures
            r == (self@.kind == ErrorKind::NotSupported),
    {
        self.kind == ErrorKind::NotSupported
    }

    /// Returns true if the input was rejected as malformed.
    pub fn is_invalid_input(&self) -> (r: bool)
        ensures
            r == (self@.kind == ErrorKind::InvalidInput),
    {
        self.kind == ErrorKind::InvalidInput
    }
}

impl Clone for Error {
    fn clone(&self) -> (r: Error)
        ensures
            r@ == self@,
    {
        Error { kind: self.kind, message: self.message.clone() }
    }
}

} // verus!
