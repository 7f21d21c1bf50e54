use vstd::prelude::*;

use crate::error::{process_not_found_view, Error, ErrorKind, ErrorView};

verus! {

/// Handle to a target process.
#[derive(Debug, Clone, Copy, PartialEq, Eq, Structural, Hash)]
pub struct Process {
    pid: i32,
}

impl View for Process {
    type V = i32;

    closed spec fn view(&self) -> i32 {
        self.pid
    }
}

/// What an operating-system probe of a pid found.
#[derive(Debug)]
pub enum ProbeOutcome {
    /// The process exists.
    Exists,
    /// No process has this pid.
    Missing,
    /// The probe was refused for lack of privilege, so existence is unknown.
    Denied,
    /// The probe failed for another reason, described by the message.
    Failed(String),
}

/// A positive pid that still has to be probed before it becomes a `Process`.
#[derive(Debug)]
pub struct PidProbe {
    pid: i32,
}

impl View for PidProbe {
    type V = i32;

    closed spec fn view(&self) -> i32 {
        self.pid
    }
}

pub open spec fn pid_rejected_view() -> ErrorView {
    ErrorView { kind: ErrorKind::InvalidInput, message: "pid must be > 0"@ }
}

pub open spec fn probe_denied_view() -> ErrorView {
    ErrorView {
        kind: ErrorKind::PermissionDenied,
        message: "permission denied while probing process"@,
    }
}

/// What the validating constructor yields for a positive pid, given the probe.
pub open spec fn probe_result(pid: i32, outcome: ProbeOutcome) -> Result<i32, ErrorView> {
    match outcome {
        ProbeOutcome::Exists => Ok(pid),
        ProbeOutcome::Missing => Err(process_not_found_view(pid as int)),
        ProbeOutcome::Denied => Err(probe_denied_view()),
        ProbeOutcome::Failed(m) => Err(ErrorView { kind: ErrorKind::Io, message: m@ }),
    }
}

impl Process {
    /// A handle for a pid that the caller knows to be valid, for instance one
    /// that a spawn call has just returned. Nothing is checked.
    pub fn from_pid_unchecked(pid: i32) -> (p: Process)
        ensures
            p@ == pid,
    {
        Process { pid }
    }

    /// First step of the validating constructor: a pid must be positive.
    /// The returned probe request is concluded with the operating system's
    /// answer by `PidProbe::conclude`.
    pub fn from_pid(pid: i32) -> (r: Result<PidProbe, Error>)
        ensures
            r is Ok <==> pid > 0,
            r matches Ok(p) ==> p@ == pid,
            r matches Err(e) ==> e@ == pid_rejected_view(),
    {
        if pid <= 0 {
            return Err(Error::with_text(ErrorKind::InvalidInput, "pid must be > 0"));
        }
        Ok(PidProbe { pid })
    }

    /// Return the pid.
    pub fn pid(&self) -> (r: i32)
        ensures
            r == self@,
    {
        self.pid
    }
}

impl PidProbe {
    /// The pid to probe.
    pub fn pid(&self) -> (r: i32)
        ensures
            r == self@,
    {
        self.pid
    }

    /// Second step of the validating constructor. An inconclusive probe for
    /// lack of privilege is reported as such, never as a missing process.
    pub fn conclude(self, outcome: ProbeOutcome) -> (r: Result<Process, Error>)
        ensures
            r matches Ok(p) ==> probe_result(self@, outcome) == Ok::<i32, ErrorView>(p@),
            r matches Err(e) ==> probe_result(self@, outcome) == Err::<i32, ErrorView>(e@),
    {
        match outcome {
            ProbeOutcome::Exists => Ok(Process { pid: self.pid }),
            ProbeOutcome::Missing => Err(Error::process_not_found(self.pid)),
            ProbeOutcome::Denied => Err(
                Error::with_text(
                    ErrorKind::PermissionDenied,
                    "permission denied while probing process",
                ),
            ),
            ProbeOutcome::Failed(m) => Err(Error::new(ErrorKind::Io, m)),
        }
    }
}

} // verus!
