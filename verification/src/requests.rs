//! What the front end sends and what it gets back.

use vstd::prelude::*;

verus! {

/// The credentials with which a user asks to be let in.
#[derive(Debug, Clone, PartialEq, Eq)]
pub struct LoginRequest {
    pub username: String,
    pub password: String,
}

/// The credentials with which a new user asks to be registered.
#[derive(Debug, Clone, PartialEq, Eq)]
pub struct RegisterRequest {
    pub username: String,
    pub password: String,
}

/// The envelope of every answer: either the data of a success or the message of a failure.
#[derive(Debug, Clone, PartialEq, Eq)]
pub struct CommandResponse<T> {
    pub success: bool,
    pub data: Option<T>,
    pub error: Option<String>,
}

impl<T> CommandResponse<T> {
    /// Whether the envelope is a success that carries data, or a failure that carries a
    /// message, and nothing else.
    pub open spec fn well_formed(self) -> bool {
        if self.success {
            self.data is Some && self.error is None
        } else {
            self.data is None && self.error is Some
        }
    }

    /// The answer to a request that succeeded.
    pub fn success(data: T) -> (r: Self)
        ensures
            r.success,
            r.data == Some(data),
            r.error is None,
            r.well_formed(),
    {
        CommandResponse { success: true, data: Some(data), error: None }
    }

    /// The answer to a request that failed.
    pub fn error(error: String) -> (r: Self)
        ensures
            !r.success,
            r.data is None,
            r.error == Some(error),
            r.well_formed(),
    {
        CommandResponse { success: false, data: None, error: Some(error) }
    }

    /// Wraps the outcome of an operation: no failure escapes as anything but a message.
    pub fn from_result(outcome: Result<T, String>) -> (r: Self)
        ensures
            r.well_formed(),
            match outcome {
                Ok(data) => r.success && r.data == Some(data),
                Err(e) => !r.success && r.error == Some(e),
            },
    {
        match outcome {
            Ok(data) => CommandResponse::success(data),
            Err(e) => CommandResponse::error(e),
        }
    }
}

} // verus!
