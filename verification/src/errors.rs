//! The terminal failure kinds of an engine operation. Every error leaves the
//! store exactly as it was: validation and authorization are fully evaluated
//! before the single persisting write.

use vstd::prelude::*;

verus! {

/// Why an operation was refused.
#[derive(Clone, Copy, PartialEq, Eq, Structural, Debug)]
pub enum EngineError {
    /// A required field of the request is missing, empty or outside its
    /// enumeration.
    ValidationError,
    /// The caller address has no registered user record.
    UnauthenticatedCaller,
    /// The caller lacks the required role, or is absent from an
    /// application's permission list.
    PermissionDenied,
    /// The address or application key is already taken.
    AlreadyExists,
    /// The referenced application does not exist.
    NotFound,
}

impl EngineError {
    /// A short description of the error, for callers that report it.
    pub fn describe(&self) -> &'static str {
        match self {
            EngineError::ValidationError => "validation error",
            EngineError::UnauthenticatedCaller => "unauthenticated caller",
            EngineError::PermissionDenied => "permission denied",
            EngineError::AlreadyExists => "already exists",
            EngineError::NotFound => "not found",
        }
    }
}

} // verus!
