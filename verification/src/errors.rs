//! The error taxonomy of the service and its mapping to response statuses.
//!
//! Unknown user and wrong password share a single variant on purpose: the
//! caller must not be able to tell the two apart (username-enumeration
//! resistance).

use vstd::prelude::*;
use vstd::string::StringExecFns;

verus! {

/// Everything a service operation can reject with.
#[derive(Clone, Copy, Debug, PartialEq, Eq, Structural)]
pub enum AuthError {
    /// The role is not one of the enumerated roles.
    InvalidRole,
    /// The username is too short.
    InvalidUsername,
    /// The password is too short.
    InvalidPassword,
    /// The username is already registered.
    AlreadyExists,
    /// Unknown user or wrong password; deliberately one variant for both.
    Unauthenticated,
    /// The token is malformed, carries a bad signature, or has expired.
    InvalidToken,
    /// A backing store or a cryptographic operation failed.
    Internal,
}

/// The transport-level status an error maps to.
#[derive(Clone, Copy, Debug, PartialEq, Eq, Structural)]
pub enum StatusCode {
    InvalidArgument,
    AlreadyExists,
    Unauthenticated,
    Internal,
}

pub open spec fn status_of(e: AuthError) -> StatusCode {
    match e {
        AuthError::InvalidRole => StatusCode::InvalidArgument,
        AuthError::InvalidUsername => StatusCode::InvalidArgument,
        AuthError::InvalidPassword => StatusCode::InvalidArgument,
        AuthError::AlreadyExists => StatusCode::AlreadyExists,
        AuthError::Unauthenticated => StatusCode::Unauthenticated,
        AuthError::InvalidToken => StatusCode::Unauthenticated,
        AuthError::Internal => StatusCode::Internal,
    }
}

pub open spec fn message_of(e: AuthError) -> Seq<char> {
    match e {
        AuthError::InvalidRole => "Invalid user role"@,
        AuthError::InvalidUsername => "Invalid username"@,
        AuthError::InvalidPassword => "Invalid password"@,
        AuthError::AlreadyExists => "User already exists"@,
        AuthError::Unauthenticated => "Invalid credentials"@,
        AuthError::InvalidToken => "Invalid token"@,
        AuthError::Internal => "Internal error"@,
    }
}

impl AuthError {
    /// The status this error surfaces as.
    pub fn status(&self) -> (r: StatusCode)
        ensures
            r == status_of(*self),
    {
        match self {
            AuthError::InvalidRole => StatusCode::InvalidArgument,
            AuthError::InvalidUsername => StatusCode::InvalidArgument,
            AuthError::InvalidPassword => StatusCode::InvalidArgument,
            AuthError::AlreadyExists => StatusCode::AlreadyExists,
            AuthError::Unauthenticated => StatusCode::Unauthenticated,
            AuthError::InvalidToken => StatusCode::Unauthenticated,
            AuthError::Internal => StatusCode::Internal,
        }
    }

    /// The user-facing message. Unknown user and wrong password produce the
    /// same text, so a caller learns nothing about which one happened.
    pub fn message(&self) -> (r: String)
        ensures
            r@ == message_of(*self),
    {
        match self {
            AuthError::InvalidRole => String::from_str("Invalid user role"),
            AuthError::InvalidUsername => String::from_str("Invalid username"),
            AuthError::InvalidPassword => String::from_str("Invalid password"),
            AuthError::AlreadyExists => String::from_str("User already exists"),
            AuthError::Unauthenticated => String::from_str("Invalid credentials"),
            AuthError::InvalidToken => String::from_str("Invalid token"),
            AuthError::Internal => String::from_str("Internal error"),
        }
    }
}

} // verus!
