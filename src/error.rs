//! The errors that the relay's operations report to their caller.
use vstd::prelude::*;
use vstd::string::*;

verus! {

/// Why an operation of the relay failed.
#[derive(Debug, Clone, PartialEq, Eq)]
pub enum SessionError {
    /// The credential is missing or cannot be used in a request header.
    ConfigError(String),
    /// The remote service refused the connection or its authentication.
    HandshakeError(String),
    /// No session has ever been started.
    NotInitialized,
    /// No session is open at the moment.
    SessionNotActive,
    /// Writing to the connection failed.
    TransportError(String),
}

/// What a caller is told when no session was ever started.
pub open spec fn not_initialized_text() -> Seq<char> {
    "Not initialized"@
}

/// What a caller is told when no session is open.
pub open spec fn not_running_text() -> Seq<char> {
    "Deepgram not running"@
}

impl SessionError {
    /// The human-readable text of the error, as handed to the caller.
    pub fn message(&self) -> (r: String)
        ensures
            self is NotInitialized ==> r@ == not_initialized_text(),
            self is SessionNotActive ==> r@ == not_running_text(),
            self matches SessionError::ConfigError(m) ==> r@ == m@,
            self matches SessionError::HandshakeError(m) ==> r@ == m@,
            self matches SessionError::TransportError(m) ==> r@ == m@,
    {
        match self {
            SessionError::ConfigError(m) => m.clone(),
            SessionError::HandshakeError(m) => m.clone(),
            SessionError::NotInitialized => String::from_str("Not initialized"),
            SessionError::SessionNotActive => String::from_str("Deepgram not running"),
            SessionError::TransportError(m) => m.clone(),
        }
    }
}

} // verus!
