//! Errors of the observation pipeline.

use crate::cuda_funcs::CUDAError;
use vstd::prelude::*;

verus! {

/// What an aspect can fail with.
#[derive(Debug)]
pub enum MonitorError {
    /// A vendor call failed; the code is handed back to the host.
    CUDAError(CUDAError),
    /// An invariant of the pipeline itself is broken. Not recoverable.
    Internal(String),
}

/// A launch could not be rendered because its name or its stream id could not
/// be obtained.
#[derive(Clone, Copy, Debug, PartialEq, Eq)]
pub struct FormatError;

/// Message of the internal error raised when `before_call` finds a pending
/// start event.
pub open spec fn start_event_already_set() -> Seq<char> {
    "START_EVENT is already set"@
}

/// Message of the internal error raised when `after_call` finds no pending
/// start event.
pub open spec fn start_event_not_set() -> Seq<char> {
    "START_EVENT is not set"@
}

/// Message of the internal error raised when a launch cannot be rendered.
pub open spec fn launch_format_failed() -> Seq<char> {
    "failed to format the launch"@
}

impl MonitorError {
    /// Whether this is the internal error with the given message.
    pub open spec fn is_internal(&self, message: Seq<char>) -> bool {
        match self {
            MonitorError::Internal(m) => m@ == message,
            MonitorError::CUDAError(_) => false,
        }
    }

    /// The internal error with the given message.
    pub fn internal(message: &str) -> (r: MonitorError)
        ensures
            r.is_internal(message@),
    {
        MonitorError::Internal(String::from_str(message))
    }

    /// The text of the error: `CUDA error: CUDA error code: <code>` or
    /// `Internal error: <message>`.
    pub fn message(&self) -> (r: String)
        ensures
            r@ == self.message_text(),
    {
        match self {
            MonitorError::CUDAError(e) => {
                let mut out = String::from_str("CUDA error: ");
                out.append(e.message().as_str());
                out
            },
            MonitorError::Internal(m) => {
                let mut out = String::from_str("Internal error: ");
                out.append(m.as_str());
                out
            },
        }
    }

    /// The text that `message` returns.
    pub open spec fn message_text(&self) -> Seq<char> {
        match self {
            MonitorError::CUDAError(e) => "CUDA error: "@ + e.message_text(),
            MonitorError::Internal(m) => "Internal error: "@ + m@,
        }
    }
}

} // verus!
