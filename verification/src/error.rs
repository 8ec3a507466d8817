//! The admin's error type: what a handler fails with and what the
//! client is told about it.
use vstd::prelude::*;
use crate::text::to_owned_string;

verus! {

/// A handler failure, carrying the operator-facing message.
#[derive(Debug, Clone)]
pub enum AdminError {
    BadRequest(String),
    Unauthorized(String),
    NotFound(String),
    MethodNotAllowed(String),
    Forbidden(String),
    Conflict(String),
    Internal(String),
}

/// What the client is shown: the message itself, except for internal
/// errors whose detail stays server-side.
pub open spec fn client_text(e: AdminError) -> Seq<char> {
    match e {
        AdminError::BadRequest(m) => m@,
        AdminError::Unauthorized(m) => m@,
        AdminError::NotFound(m) => m@,
        AdminError::MethodNotAllowed(m) => m@,
        AdminError::Forbidden(m) => m@,
        AdminError::Conflict(m) => m@,
        AdminError::Internal(_) => "Internal Server Error"@,
    }
}

/// The HTTP status each kind of failure answers with.
pub open spec fn status_of(e: AdminError) -> u16 {
    match e {
        AdminError::BadRequest(_) => 400,
        AdminError::Unauthorized(_) => 401,
        AdminError::Forbidden(_) => 403,
        AdminError::NotFound(_) => 404,
        AdminError::MethodNotAllowed(_) => 405,
        AdminError::Conflict(_) => 409,
        AdminError::Internal(_) => 500,
    }
}

impl AdminError {
    /// The HTTP status code of the failure.
    pub fn status(&self) -> (s: u16)
        ensures
            s == status_of(*self),
    {
        match self {
            AdminError::BadRequest(_) => 400,
            AdminError::Unauthorized(_) => 401,
            AdminError::Forbidden(_) => 403,
            AdminError::NotFound(_) => 404,
            AdminError::MethodNotAllowed(_) => 405,
            AdminError::Conflict(_) => 409,
            AdminError::Internal(_) => 500,
        }
    }

    /// The message safe to show the client.
    pub fn client_message(&self) -> (m: String)
        ensures
            m@ == client_text(*self),
    {
        match self {
            AdminError::BadRequest(m) => m.clone(),
            AdminError::Unauthorized(m) => m.clone(),
            AdminError::NotFound(m) => m.clone(),
            AdminError::MethodNotAllowed(m) => m.clone(),
            AdminError::Forbidden(m) => m.clone(),
            AdminError::Conflict(m) => m.clone(),
            AdminError::Internal(_) => to_owned_string("Internal Server Error"),
        }
    }
}

} // verus!
