//! Errors of the supervisor and of its registry.

use vstd::prelude::*;
use vstd::string::StringExecFns;
use crate::lifecycle::SubserviceId;

verus! {

/// What can go wrong while subservices are started or stopped.
#[derive(Clone, Copy, Debug, PartialEq, Eq, Structural)]
pub enum SupervisorError {
    /// A start was requested of something that was started before.
    AlreadyStarted,
    /// A lifecycle step was requested that the current state does not allow.
    InvalidTransition,
    /// The shared state is held by another caller; retry or escalate.
    Busy,
    /// A subservice could not be started.
    StartFailed { subservice: SubserviceId },
    /// A graceful drain ran past its deadline and the subservice was forced down.
    StopTimedOut,
}

impl SupervisorError {
    /// Whether this error ends the startup: only a failed start of a required
    /// subservice does.
    pub open spec fn fatal(self) -> bool {
        match self {
            SupervisorError::StartFailed { subservice } => subservice.required(),
            _ => false,
        }
    }

    /// The error in words.
    pub open spec fn message_spec(self) -> Seq<char> {
        match self {
            SupervisorError::AlreadyStarted => "already started"@,
            SupervisorError::InvalidTransition => "invalid lifecycle transition"@,
            SupervisorError::Busy => "supervisor is busy"@,
            SupervisorError::StartFailed { subservice } => "failed to start "@
                + subservice.name_spec(),
            SupervisorError::StopTimedOut => "graceful stop timed out"@,
        }
    }

    /// The error in words, for whoever reads the log or the terminal.
    pub fn message(&self) -> (m: String)
        ensures
            m@ == self.message_spec(),
    {
        match self {
            SupervisorError::AlreadyStarted => String::from_str("already started"),
            SupervisorError::InvalidTransition => String::from_str("invalid lifecycle transition"),
            SupervisorError::Busy => String::from_str("supervisor is busy"),
            SupervisorError::StartFailed { subservice } => {
                let mut m = String::from_str("failed to start ");
                m.append(subservice.name());
                m
            },
            SupervisorError::StopTimedOut => String::from_str("graceful stop timed out"),
        }
    }

    /// Tells whether the error is fatal to the process.
    pub fn is_fatal(&self) -> (fatal: bool)
        ensures
            fatal == self.fatal(),
    {
        match self {
            SupervisorError::StartFailed { subservice } => subservice.is_required(),
            _ => false,
        }
    }
}

} // verus!
