//! Application errors and the responses they map to.
use vstd::prelude::*;

verus! {

/// An application error with its detail text.
#[derive(Debug, Clone)]
pub enum AppError {
    Database(String),
    Storage(String),
    Transcoding(String),
    NotFound(String),
    BadRequest(String),
    Internal(String),
    Redis(String),
}

/// The HTTP status code of an error: the detail of a missing resource or a
/// bad request is the client's business, every other error is a server fault.
pub open spec fn status_of(e: AppError) -> u16 {
    match e {
        AppError::NotFound(_) => 404,
        AppError::BadRequest(_) => 400,
        _ => 500,
    }
}

/// The message shown to the client: the detail for a missing resource or a
/// bad request, a fixed text that hides the detail otherwise.
pub open spec fn public_message_of(e: AppError) -> Seq<char> {
    match e {
        AppError::Database(_) => "Database error occurred"@,
        AppError::Storage(_) => "Storage error occurred"@,
        AppError::Transcoding(_) => "Transcoding error occurred"@,
        AppError::NotFound(m) => m@,
        AppError::BadRequest(m) => m@,
        AppError::Internal(_) => "Internal server error"@,
        AppError::Redis(_) => "Queue error occurred"@,
    }
}

impl AppError {
    /// The HTTP status code of the response.
    pub fn status_code(&self) -> (r: u16)
        ensures
            r == status_of(*self),
    {
        match self {
            AppError::NotFound(_) => 404,
            AppError::BadRequest(_) => 400,
            _ => 500,
        }
    }

    /// The message of the response body.
    pub fn public_message(&self) -> (r: String)
        ensures
            r@ == public_message_of(*self),
    {
        match self {
            AppError::Database(_) => String::from_str("Database error occurred"),
            AppError::Storage(_) => String::from_str("Storage error occurred"),
            AppError::Transcoding(_) => String::from_str("Transcoding error occurred"),
            AppError::NotFound(m) => m.clone(),
            AppError::BadRequest(m) => m.clone(),
            AppError::Internal(_) => String::from_str("Internal server error"),
            AppError::Redis(_) => String::from_str("Queue error occurred"),
        }
    }
}

} // verus!
