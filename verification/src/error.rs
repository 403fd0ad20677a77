//! The failure taxonomy the operations surface: storage failures, pool
//! failures, absent lookups, bad requests, and everything else. Outside
//! error values cross into the library as their message text; the status
//! each variant maps to is fixed here, and the boundary renders it.

use vstd::prelude::*;

verus! {

/// A failure surfaced to the caller. Storage failures propagate unchanged:
/// nothing is retried or swallowed inside the library.
pub enum AppError {
    /// A failure from the storage round trip.
    Database(String),
    /// A failure drawing a connection from the pool.
    Pool(String),
    /// A lookup that legitimately found nothing, where the caller required
    /// a value.
    NotFound(String),
    /// Malformed input rejected without a storage round trip.
    BadRequest(String),
    /// Any other internal failure.
    InternalServerError(String),
}

impl AppError {
    /// The HTTP status each failure maps to at the boundary.
    pub fn status_code(&self) -> (c: u16)
        ensures
            self is Database ==> c == 500,
            self is Pool ==> c == 503,
            self is NotFound ==> c == 404,
            self is BadRequest ==> c == 400,
            self is InternalServerError ==> c == 500,
    {
        match self {
            AppError::Database(_) => 500,
            AppError::Pool(_) => 503,
            AppError::NotFound(_) => 404,
            AppError::BadRequest(_) => 400,
            AppError::InternalServerError(_) => 500,
        }
    }

    /// The message the failure carries.
    pub fn message(&self) -> (m: &String)
        ensures
            self matches AppError::Database(s) ==> m == s,
            self matches AppError::Pool(s) ==> m == s,
            self matches AppError::NotFound(s) ==> m == s,
            self matches AppError::BadRequest(s) ==> m == s,
            self matches AppError::InternalServerError(s) ==> m == s,
    {
        match self {
            AppError::Database(s) => s,
            AppError::Pool(s) => s,
            AppError::NotFound(s) => s,
            AppError::BadRequest(s) => s,
            AppError::InternalServerError(s) => s,
        }
    }
}

} // verus!
