//! The failure taxonomy the lifecycle and registry operations report.
//!
//! Validation failures are raised synchronously, before any engine request is
//! composed; the remaining kinds classify what the engine exchange reported.

use vstd::prelude::*;

verus! {

/// A typed failure of a lifecycle or registry operation.
#[derive(Clone, Debug, PartialEq, Eq)]
pub enum Error {
    /// An identifier was empty or consisted of whitespace alone.
    InvalidIdentifier,
    /// A module specification named a type this runtime does not support.
    InvalidModuleType,
    /// An endpoint whose scheme this runtime does not support.
    InvalidUrl,
    /// A required request parameter was missing.
    BadParam,
    /// The targeted resource does not exist on the engine.
    NotFound(String),
    /// A non-success response, transport failure, or malformed response
    /// from the container engine.
    Engine(String),
}

impl Error {
    /// A validation failure: raised before any engine request is composed.
    pub open spec fn is_validation(self) -> bool {
        self is InvalidIdentifier || self is InvalidModuleType || self is InvalidUrl
            || self is BadParam
    }

    pub fn is_not_found(&self) -> (r: bool)
        ensures
            r == (self is NotFound),
    {
        match self {
            Error::NotFound(_) => true,
            _ => false,
        }
    }

    /// A copy equal to this error.
    pub fn dup(&self) -> (r: Error)
        ensures
            r == *self,
    {
        match self {
            Error::InvalidIdentifier => Error::InvalidIdentifier,
            Error::InvalidModuleType => Error::InvalidModuleType,
            Error::InvalidUrl => Error::InvalidUrl,
            Error::BadParam => Error::BadParam,
            Error::NotFound(s) => Error::NotFound(s.clone()),
            Error::Engine(s) => Error::Engine(s.clone()),
        }
    }

    pub fn validation(&self) -> (r: bool)
        ensures
            r == self.is_validation(),
    {
        match self {
            Error::InvalidIdentifier => true,
            Error::InvalidModuleType => true,
            Error::InvalidUrl => true,
            Error::BadParam => true,
            _ => false,
        }
    }
}

} // verus!
