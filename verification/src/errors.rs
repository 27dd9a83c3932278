//! The error taxonomy of the pipeline: validation failures caused by the
//! caller's input, and store failures wrapped into a single handler-level
//! error carrying a readable description.

use vstd::prelude::*;

verus! {

/// A required field of the inbound event was empty. The checks run in the
/// order email, first name, last name, and only the first violation is
/// reported.
#[derive(Clone, Copy, Debug, PartialEq, Eq, Structural)]
pub enum ValidationError {
    EmptyEmail,
    EmptyFirstName,
    EmptyLastName,
}

/// The message surfaced to the caller for a validation failure.
pub open spec fn validation_message(v: ValidationError) -> Seq<char> {
    match v {
        ValidationError::EmptyEmail => "Empty email"@,
        ValidationError::EmptyFirstName => "Empty First Name"@,
        ValidationError::EmptyLastName => "Empty Last Name"@,
    }
}

impl ValidationError {
    /// A human-readable description of the violated requirement.
    pub fn describe(&self) -> (r: String)
        ensures
            r@ == validation_message(*self),
    {
        match self {
            ValidationError::EmptyEmail => "Empty email".to_owned(),
            ValidationError::EmptyFirstName => "Empty First Name".to_owned(),
            ValidationError::EmptyLastName => "Empty Last Name".to_owned(),
        }
    }
}

/// The handler-level error: either the caller's input was rejected, or the
/// store reported a failure, wrapped with a readable description.
#[derive(Clone, Debug)]
pub enum HelloError {
    Validation(ValidationError),
    DbError(String),
}

/// The message carried by a handler-level error.
pub open spec fn error_message(e: HelloError) -> Seq<char> {
    match e {
        HelloError::Validation(v) => validation_message(v),
        HelloError::DbError(m) => m@,
    }
}

impl HelloError {
    /// The type tag surfaced on the error channel.
    pub fn error_type(&self) -> (r: &'static str)
        ensures
            self matches HelloError::Validation(_) ==> r@ == "ValidationError"@,
            self matches HelloError::DbError(_) ==> r@ == "DatabaseError"@,
    {
        match self {
            HelloError::Validation(_) => "ValidationError",
            HelloError::DbError(_) => "DatabaseError",
        }
    }

    /// The human-readable message carried by this error.
    pub fn describe(&self) -> (r: String)
        ensures
            r@ == error_message(*self),
    {
        match self {
            HelloError::Validation(v) => v.describe(),
            HelloError::DbError(m) => m.clone(),
        }
    }
}

} // verus!
