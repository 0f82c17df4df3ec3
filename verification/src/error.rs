//! The error taxonomy of the library.

use vstd::prelude::*;

verus! {

/// Everything that can go wrong in the configuration core.
#[derive(Clone, Copy, Debug, PartialEq, Eq, Structural)]
pub enum Error {
    /// No persisted global configuration was found.
    MissingConfig,
    /// Persisted or remote data could not be parsed.
    ParseError,
    /// A URL failed validation during configuration.
    InvalidUrl,
    /// The catalog fetch failed in transport or returned a non-success status.
    NetworkError,
    /// Directory or file I/O failed while loading or saving the configuration.
    StorageError,
    /// The underlying git invocation returned a non-zero status.
    GitCommandFailure,
}

impl Error {
    /// A short human-readable message for the error.
    pub fn message(&self) -> (r: &'static str)
        ensures
            r@ == match *self {
                Error::MissingConfig => "no configuration found"@,
                Error::ParseError => "cannot parse data"@,
                Error::InvalidUrl => "invalid URL"@,
                Error::NetworkError => "network failure"@,
                Error::StorageError => "storage failure"@,
                Error::GitCommandFailure => "git command failed"@,
            },
    {
        match *self {
            Error::MissingConfig => "no configuration found",
            Error::ParseError => "cannot parse data",
            Error::InvalidUrl => "invalid URL",
            Error::NetworkError => "network failure",
            Error::StorageError => "storage failure",
            Error::GitCommandFailure => "git command failed",
        }
    }
}

} // verus!
