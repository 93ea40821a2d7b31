//! The error taxonomy of the token pipeline.

use vstd::prelude::*;

verus! {

/// Error raised while retrieving an API token.
///
/// Only [`TokenError::WaitTimeout`] is retryable; see [`TokenError::is_timeout`].
#[derive(Debug, Clone)]
pub enum TokenError {
    /// A configuration value is missing (the name of the value).
    EnvRead(String),
    /// A configuration value cannot be parsed (its name and its text).
    EnvMalformed(String, String),
    /// The automation server could not be started.
    Spawn(String),
    /// The automation server exited before the session was opened (its exit status).
    ServerDied(String),
    /// No session could be opened after the given number of connection tries.
    Connect(u32),
    /// An expected element did not appear within its bound.
    WaitTimeout,
    /// Any other failure of a remote command.
    Command(String),
    /// The named cookie was absent, or empty, after the login marker appeared.
    CookieMissing,
    /// Every allowed attempt ended in a timeout (the number of attempts made).
    RetriesExhausted(u32),
}

impl TokenError {
    /// Whether this error is the one retryable class: an element wait that timed out.
    pub fn is_timeout(&self) -> (r: bool)
        ensures
            r == (*self is WaitTimeout),
    {
        match self {
            TokenError::WaitTimeout => true,
            _ => false,
        }
    }
}

/// What one pipeline attempt hands to the orchestrator.
#[derive(Debug, Clone)]
pub enum AttemptResult {
    Success(String),
    TimeoutFailure(TokenError),
    FatalFailure(TokenError),
}

/// Sorts an attempt's outcome into success, a retryable timeout, or a fatal error.
pub fn classify(outcome: Result<String, TokenError>) -> (r: AttemptResult)
    ensures
        r == classify_spec(outcome),
{
    match outcome {
        Ok(token) => AttemptResult::Success(token),
        Err(e) => {
            if e.is_timeout() {
                AttemptResult::TimeoutFailure(e)
            } else {
                AttemptResult::FatalFailure(e)
            }
        },
    }
}

pub open spec fn classify_spec(outcome: Result<String, TokenError>) -> AttemptResult {
    match outcome {
        Ok(token) => AttemptResult::Success(token),
        Err(e) => if e is WaitTimeout {
            AttemptResult::TimeoutFailure(e)
        } else {
            AttemptResult::FatalFailure(e)
        },
    }
}

} // verus!
