//! The error taxonomy shared by every repository operation.
//!
//! Validation and not-found errors are produced at the repository boundary
//! and passed through unchanged; store failures are collapsed into
//! `InternalError`, whose client-visible message is deliberately generic.

use vstd::prelude::*;

verus! {

/// Errors produced by the repositories and the validation layer.
#[derive(Debug, Clone, PartialEq, Eq)]
pub enum Error {
    /// The requested resource does not exist.
    NotFound,
    /// No verified principal accompanies the request.
    Unauthorized,
    /// The principal lacks a capability the operation requires.
    Forbidden,
    /// A required field is empty (or became empty after trimming).
    EmptyField(&'static str),
    /// A field exceeds its maximum permitted length in bytes.
    TooManyCharacters { field: &'static str, maximum_length: u64 },
    /// An alias with the given name already exists.
    AliasExists,
    /// A patch or create names an alias category absent from the lookup table.
    UnknownAliasType,
    /// A store-level failure; no detail is exposed to clients.
    InternalError,
}

/// The human-readable message each error carries in client-facing response
/// bodies. An internal failure always reads as the fixed generic text: no
/// internal detail reaches a client.
pub open spec fn message_spec(e: Error) -> Seq<char> {
    match e {
        Error::NotFound => "Not Found"@,
        Error::Unauthorized => "Unauthorized"@,
        Error::Forbidden => "Forbidden"@,
        Error::EmptyField(field) => "The field "@ + field@ + " is empty"@,
        Error::TooManyCharacters { field, .. } => "The field "@ + field@ + " is too long"@,
        Error::AliasExists => "An alias with that name already exists"@,
        Error::UnknownAliasType => "The supplied alias type does not exist"@,
        Error::InternalError => "Internal Server Error"@,
    }
}

/// The HTTP status each error maps to: absent resources are 404, a missing
/// principal 401, a missing capability 403, store failures 500, and every
/// validation failure 400.
pub open spec fn status_code_spec(e: Error) -> u16 {
    match e {
        Error::NotFound => 404,
        Error::Unauthorized => 401,
        Error::Forbidden => 403,
        Error::InternalError => 500,
        _ => 400,
    }
}

impl Error {
    /// The human-readable message used in client-facing response bodies.
    pub fn message(&self) -> (r: String)
        ensures
            r@ == message_spec(*self),
    {
        match self {
            Error::NotFound => "Not Found".to_owned(),
            Error::Unauthorized => "Unauthorized".to_owned(),
            Error::Forbidden => "Forbidden".to_owned(),
            Error::EmptyField(field) => {
                let mut m = String::from_str("The field ");
                m.append(field);
                m.append(" is empty");
                m
            },
            Error::TooManyCharacters { field, .. } => {
                let mut m = String::from_str("The field ");
                m.append(field);
                m.append(" is too long");
                m
            },
            Error::AliasExists => "An alias with that name already exists".to_owned(),
            Error::UnknownAliasType => "The supplied alias type does not exist".to_owned(),
            Error::InternalError => "Internal Server Error".to_owned(),
        }
    }

    /// The HTTP status code this error maps to.
    pub fn status_code(&self) -> (r: u16)
        ensures
            r == status_code_spec(*self),
    {
        match self {
            Error::NotFound => 404,
            Error::Unauthorized => 401,
            Error::Forbidden => 403,
            Error::InternalError => 500,
            Error::EmptyField(_) => 400,
            Error::TooManyCharacters { .. } => 400,
            Error::AliasExists => 400,
            Error::UnknownAliasType => 400,
        }
    }
}

} // verus!
