use vstd::prelude::*;

use crate::error::{process_not_found_view, Error, ErrorKind, ErrorView};
use crate::launch::{LaunchParams, LaunchView};

verus! {

/// Error-kind code of the native engine: no error.
pub const NATIVE_ERROR_NONE: i32 = 0;

/// Error-kind code of the native engine: an argument was rejected.
pub const NATIVE_ERROR_INVALID_ARGUMENT: i32 = 1;

/// Error-kind code of the native engine: the operation is not supported.
pub const NATIVE_ERROR_NOT_SUPPORTED: i32 = 2;

/// Error-kind code of the native engine: permission was denied.
pub const NATIVE_ERROR_PERMISSION_DENIED: i32 = 3;

/// Error-kind code of the native engine: the process was not found.
pub const NATIVE_ERROR_PROCESS_NOT_FOUND: i32 = 4;

/// Error-kind code of the native engine: any other runtime failure.
pub const NATIVE_ERROR_RUNTIME: i32 = 5;

/// One primitive of the native engine, with the arguments to pass to it.
/// Every string is free of NUL characters.
#[derive(Debug)]
pub enum EngineCall {
    /// Spawn suspended and inject a library file in one native call.
    InjectLaunch { launch: LaunchParams, library_path: String, entrypoint: String, data: String },
    /// Spawn suspended.
    Spawn { launch: LaunchParams },
    /// Inject a library file into a process.
    InjectPath { pid: i32, library_path: String, entrypoint: String, data: String },
    /// Inject an in-memory library image into a process.
    InjectBlob { pid: i32, blob: Vec<u8>, entrypoint: String, data: String },
    /// Resume a suspended process.
    Resume { pid: i32 },
    /// Stop monitoring an injection.
    Demonitor { id: u32 },
}

pub enum CallView {
    InjectLaunch { launch: LaunchView, library_path: Seq<char>, entrypoint: Seq<char>, data: Seq<char> },
    Spawn { launch: LaunchView },
    InjectPath { pid: i32, library_path: Seq<char>, entrypoint: Seq<char>, data: Seq<char> },
    InjectBlob { pid: i32, blob: Seq<u8>, entrypoint: Seq<char>, data: Seq<char> },
    Resume { pid: i32 },
    Demonitor { id: u32 },
}

impl View for EngineCall {
    type V = CallView;

    open spec fn view(&self) -> CallView {
        match self {
            EngineCall::InjectLaunch { launch, library_path, entrypoint, data } => CallView::InjectLaunch {
                launch: launch@,
                library_path: library_path@,
                entrypoint: entrypoint@,
                data: data@,
            },
            EngineCall::Spawn { launch } => CallView::Spawn { launch: launch@ },
            EngineCall::InjectPath { pid, library_path, entrypoint, data } => CallView::InjectPath {
                pid: *pid,
                library_path: library_path@,
                entrypoint: entrypoint@,
                data: data@,
            },
            EngineCall::InjectBlob { pid, blob, entrypoint, data } => CallView::InjectBlob {
                pid: *pid,
                blob: blob@,
                entrypoint: entrypoint@,
                data: data@,
            },
            EngineCall::Resume { pid } => CallView::Resume { pid: *pid },
            EngineCall::Demonitor { id } => CallView::Demonitor { id: *id },
        }
    }
}

/// What the native engine answered to one call.
#[derive(Debug)]
pub enum Reply {
    /// The call succeeded; `pid` and `id` hold its outputs, where it has them.
    Success { pid: i32, id: u32 },
    /// The call failed with an error-kind code and a message.
    Failure { kind: i32, message: String },
}

pub enum ReplyView {
    Success { pid: i32, id: u32 },
    Failure { kind: i32, message: Seq<char> },
}

impl View for Reply {
    type V = ReplyView;

    open spec fn view(&self) -> ReplyView {
        match self {
            Reply::Success { pid, id } => ReplyView::Success { pid: *pid, id: *id },
            Reply::Failure { kind, message } => ReplyView::Failure { kind: *kind, message: message@ },
        }
    }
}

/// The taxonomy member for a native error-kind code. A missing process is
/// reported with its pid when the call knows it, and as a runtime error
/// otherwise.
pub open spec fn native_error_of(kind: i32, message: Seq<char>, pid: Option<i32>) -> ErrorView {
    if kind == NATIVE_ERROR_INVALID_ARGUMENT {
        ErrorView { kind: ErrorKind::InvalidInput, message }
    } else if kind == NATIVE_ERROR_NOT_SUPPORTED {
        ErrorView { kind: ErrorKind::NotSupported, message }
    } else if kind == NATIVE_ERROR_PERMISSION_DENIED {
        ErrorView { kind: ErrorKind::PermissionDenied, message }
    } else if kind == NATIVE_ERROR_PROCESS_NOT_FOUND && pid is Some {
        process_not_found_view(pid->Some_0 as int)
    } else {
        ErrorView { kind: ErrorKind::Runtime, message }
    }
}

/// Translate a native error into the error taxonomy.
pub fn map_native_error(kind: i32, message: String, pid: Option<i32>) -> (e: Error)
    ensures
        e@ == native_error_of(kind, message@, pid),
{
    if kind == NATIVE_ERROR_INVALID_ARGUMENT {
        Error::new(ErrorKind::InvalidInput, message)
    } else if kind == NATIVE_ERROR_NOT_SUPPORTED {
        Error::new(ErrorKind::NotSupported, message)
    } else if kind == NATIVE_ERROR_PERMISSION_DENIED {
        Error::new(ErrorKind::PermissionDenied, message)
    } else if kind == NATIVE_ERROR_PROCESS_NOT_FOUND && pid.is_some() {
        Error::process_not_found(pid.unwrap())
    } else {
        Error::new(ErrorKind::Runtime, message)
    }
}

/// The reply for the raw outputs of a native call: a positive status is
/// success; any other status is a failure whose message is the one the
/// engine handed over, or "unknown error" when it gave none.
pub open spec fn native_reply_of(
    status: i32,
    pid: i32,
    id: u32,
    kind: i32,
    message: Option<Seq<char>>,
) -> ReplyView {
    if status > 0 {
        ReplyView::Success { pid, id }
    } else {
        ReplyView::Failure {
            kind,
            message: match message {
                Some(m) => m,
                None => "unknown error"@,
            },
        }
    }
}

/// Build the reply for the raw outputs of a native call.
pub fn native_reply(status: i32, pid: i32, id: u32, kind: i32, message: Option<String>) -> (r: Reply)
    ensures
        r@ == native_reply_of(
            status,
            pid,
            id,
            kind,
            match message {
                Some(m) => Some(m@),
                None => None,
            },
        ),
{
    if status > 0 {
        Reply::Success { pid, id }
    } else {
        let message = match message {
            Some(m) => m,
            None => String::from_str("unknown error"),
        };
        Reply::Failure { kind, message }
    }
}

/// The error that engine initialisation reports when it fails; it is kept
/// and returned to every later caller.
pub fn runtime_unavailable(message: Option<String>) -> (e: Error)
    ensures
        e@ == (ErrorView {
            kind: ErrorKind::RuntimeUnavailable,
            message: match message {
                Some(m) => m@,
                None => "unknown error"@,
            },
        }),
{
    match message {
        Some(m) => Error::new(ErrorKind::RuntimeUnavailable, m),
        None => Error::with_text(ErrorKind::RuntimeUnavailable, "unknown error"),
    }
}

} // verus!
