//! Failures that the runtime reports to its caller.
//!
//! Quality and transport trouble is not an error: it shows as a lower
//! quality tier or another transport class. Only requests that cannot be
//! honoured at all are reported.

use vstd::prelude::*;
use vstd::string::StringExecFns;

verus! {

/// Why a request was refused.
#[derive(Debug, Clone, Copy, PartialEq, Eq, Structural)]
pub enum ElaraError {
    /// The session is in a state that forbids the operation.
    InvalidState,
    /// No transport class became connectable.
    NegotiationFailed,
    /// A session with the same identifier is already registered.
    DuplicateSession,
}

impl ElaraError {
    /// A short description for logs and user messages.
    pub fn message(&self) -> (text: String)
        ensures
            text@ == match *self {
                ElaraError::InvalidState => "operation not allowed in the current session state"@,
                ElaraError::NegotiationFailed => "no transport path could be established"@,
                ElaraError::DuplicateSession => "a session with this identifier already exists"@,
            },
    {
        match self {
            ElaraError::InvalidState => String::from_str(
                "operation not allowed in the current session state",
            ),
            ElaraError::NegotiationFailed => String::from_str(
                "no transport path could be established",
            ),
            ElaraError::DuplicateSession => String::from_str(
                "a session with this identifier already exists",
            ),
        }
    }
}

} // verus!
