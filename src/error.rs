//! The library's error type.

use vstd::prelude::*;

verus! {

/// What can go wrong in a synchronisation step.
#[derive(Debug)]
pub enum Error {
    TaskwarriorNotFound,
    TaskwarriorVersionTooOld(String),
    TaskwarriorCommandFailed(String),
    TaskwarriorParseFailed(String),
    InvalidHabiticaCredentials,
    HabiticaApiError(String),
    ConfigError(String),
    TaskNotFound(String),
    InvalidTaskStatus(String),
    SyncConflict(String),
    Custom(String),
}

impl Error {
    /// An error that carries only a message.
    pub fn custom(msg: String) -> (r: Self)
        ensures
            r matches Error::Custom(m) && m == msg,
    {
        Error::Custom(msg)
    }

    /// A configuration error.
    pub fn config(msg: String) -> (r: Self)
        ensures
            r matches Error::ConfigError(m) && m == msg,
    {
        Error::ConfigError(msg)
    }

    pub open spec fn spec_is_user_error(&self) -> bool {
        ||| self is TaskwarriorNotFound
        ||| self is TaskwarriorVersionTooOld
        ||| self is InvalidHabiticaCredentials
        ||| self is ConfigError
    }

    /// Errors the user can fix, shown without a diagnostic trail.
    pub fn is_user_error(&self) -> (r: bool)
        ensures
            r == self.spec_is_user_error(),
    {
        match self {
            Error::TaskwarriorNotFound
            | Error::TaskwarriorVersionTooOld(_)
            | Error::InvalidHabiticaCredentials
            | Error::ConfigError(_) => true,
            _ => false,
        }
    }
}

} // verus!
