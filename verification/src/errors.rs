//! The error taxonomy and its mapping onto HTTP responses.
//!
//! Validation failures reject an item before any store access; conflicts are
//! ordinarily recovered into the response's conflict list and only surface as
//! errors from the single-entity handlers; authorization failures close off
//! cross-tenant access; the remaining variants classify infrastructure
//! failures so transport code can pick a status line.

use vstd::prelude::*;

verus! {

/// Application-level error, carrying a human-readable message.
#[derive(Debug)]
pub enum AppError {
    Database(String),
    Auth(String),
    Unauthorized(String),
    Validation(String),
    GoogleApi(String),
    NotFound(String),
    Conflict(String),
    Internal(String),
    Jwt(String),
    Http(String),
    Serialization(String),
}

/// Ghost counterpart of [`AppError`].
pub ghost enum ErrorView {
    Database(Seq<char>),
    Auth(Seq<char>),
    Unauthorized(Seq<char>),
    Validation(Seq<char>),
    GoogleApi(Seq<char>),
    NotFound(Seq<char>),
    Conflict(Seq<char>),
    Internal(Seq<char>),
    Jwt(Seq<char>),
    Http(Seq<char>),
    Serialization(Seq<char>),
}

impl View for AppError {
    type V = ErrorView;

    open spec fn view(&self) -> ErrorView {
        match self {
            AppError::Database(m) => ErrorView::Database(m@),
            AppError::Auth(m) => ErrorView::Auth(m@),
            AppError::Unauthorized(m) => ErrorView::Unauthorized(m@),
            AppError::Validation(m) => ErrorView::Validation(m@),
            AppError::GoogleApi(m) => ErrorView::GoogleApi(m@),
            AppError::NotFound(m) => ErrorView::NotFound(m@),
            AppError::Conflict(m) => ErrorView::Conflict(m@),
            AppError::Internal(m) => ErrorView::Internal(m@),
            AppError::Jwt(m) => ErrorView::Jwt(m@),
            AppError::Http(m) => ErrorView::Http(m@),
            AppError::Serialization(m) => ErrorView::Serialization(m@),
        }
    }
}

impl ErrorView {
    /// The HTTP status code a transport layer reports for this error.
    pub open spec fn spec_status(self) -> u16 {
        match self {
            ErrorView::Database(_) => 500,
            ErrorView::Auth(_) => 401,
            ErrorView::Unauthorized(_) => 401,
            ErrorView::Validation(_) => 400,
            ErrorView::GoogleApi(_) => 502,
            ErrorView::NotFound(_) => 404,
            ErrorView::Conflict(_) => 409,
            ErrorView::Internal(_) => 500,
            ErrorView::Jwt(_) => 401,
            ErrorView::Http(_) => 502,
            ErrorView::Serialization(_) => 400,
        }
    }

    /// The fixed label a transport layer uses as the public error text.
    ///
    /// Variants whose message is safe to show verbatim report it unchanged;
    /// the infrastructure variants hide their message behind a fixed label.
    pub open spec fn spec_label(self) -> Seq<char> {
        match self {
            ErrorView::Database(_) => "Database error"@,
            ErrorView::Auth(m) => m,
            ErrorView::Unauthorized(m) => m,
            ErrorView::Validation(m) => m,
            ErrorView::GoogleApi(m) => m,
            ErrorView::NotFound(m) => m,
            ErrorView::Conflict(m) => m,
            ErrorView::Internal(_) => "Internal server error"@,
            ErrorView::Jwt(_) => "Invalid token"@,
            ErrorView::Http(_) => "External service error"@,
            ErrorView::Serialization(_) => "Invalid data format"@,
        }
    }
}

impl AppError {
    /// The HTTP status code a transport layer reports for this error.
    pub fn http_status(&self) -> (s: u16)
        ensures
            s == self@.spec_status(),
    {
        match self {
            AppError::Database(_) => 500,
            AppError::Auth(_) => 401,
            AppError::Unauthorized(_) => 401,
            AppError::Validation(_) => 400,
            AppError::GoogleApi(_) => 502,
            AppError::NotFound(_) => 404,
            AppError::Conflict(_) => 409,
            AppError::Internal(_) => 500,
            AppError::Jwt(_) => 401,
            AppError::Http(_) => 502,
            AppError::Serialization(_) => 400,
        }
    }

    /// The public error text paired with [`AppError::http_status`].
    pub fn public_label(&self) -> (l: String)
        ensures
            l@ == self@.spec_label(),
    {
        match self {
            AppError::Database(_) => label_string("Database error"),
            AppError::Auth(m) => m.clone(),
            AppError::Unauthorized(m) => m.clone(),
            AppError::Validation(m) => m.clone(),
            AppError::GoogleApi(m) => m.clone(),
            AppError::NotFound(m) => m.clone(),
            AppError::Conflict(m) => m.clone(),
            AppError::Internal(_) => label_string("Internal server error"),
            AppError::Jwt(_) => label_string("Invalid token"),
            AppError::Http(_) => label_string("External service error"),
            AppError::Serialization(_) => label_string("Invalid data format"),
        }
    }
}

/// Copy a borrowed label into an owned string.
fn label_string(s: &str) -> (r: String)
    ensures
        r@ == s@,
{
    String::from_str(s)
}

} // verus!
