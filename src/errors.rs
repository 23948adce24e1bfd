use vstd::prelude::*;

verus! {

/// The kinds of failure that reach the transport boundary.
#[derive(Debug, Clone, Copy, PartialEq, Eq, Structural)]
pub enum AppErrorType {
    DbError,
    NotFoundError,
}

/// A failure, with an optional message for the client and an optional cause
/// that is only ever logged.
#[derive(Debug, Clone, PartialEq, Eq)]
pub struct AppError {
    pub message: Option<String>,
    pub cause: Option<String>,
    pub error_type: AppErrorType,
}

/// The error envelope sent to the client: `{ "error": <message> }`.
#[derive(Debug, Clone, PartialEq, Eq)]
pub struct AppErrorResponse {
    pub error: String,
}

/// HTTP status of a successful reply.
pub const STATUS_OK: u16 = 200;

/// HTTP status of a `DbError`.
pub const STATUS_INTERNAL_SERVER_ERROR: u16 = 500;

/// HTTP status of a `NotFoundError`.
pub const STATUS_NOT_FOUND: u16 = 404;

/// An error as a mathematical value.
pub struct AppErrorView {
    pub message: Option<Seq<char>>,
    pub cause: Option<Seq<char>>,
    pub error_type: AppErrorType,
}

pub open spec fn option_string_view(o: Option<String>) -> Option<Seq<char>> {
    match o {
        Some(s) => Some(s@),
        None => None,
    }
}

impl View for AppError {
    type V = AppErrorView;

    open spec fn view(&self) -> AppErrorView {
        AppErrorView {
            message: option_string_view(self.message),
            cause: option_string_view(self.cause),
            error_type: self.error_type,
        }
    }
}

/// The message shown for an error of the given kind that carries none.
pub open spec fn default_message(t: AppErrorType) -> Seq<char> {
    match t {
        AppErrorType::DbError => "Database error!"@,
        AppErrorType::NotFoundError => "Unexpected Error"@,
    }
}

impl AppErrorView {
    /// What the client is shown: the curated message, else the kind's default.
    pub open spec fn client_message(self) -> Seq<char> {
        match self.message {
            Some(m) => m,
            None => default_message(self.error_type),
        }
    }

    pub open spec fn status_code(self) -> u16 {
        match self.error_type {
            AppErrorType::DbError => STATUS_INTERNAL_SERVER_ERROR,
            AppErrorType::NotFoundError => STATUS_NOT_FOUND,
        }
    }
}

/// The error built from an underlying failure whose text is `cause`.
pub open spec fn db_error_of(cause: Seq<char>) -> AppErrorView {
    AppErrorView { message: None, cause: Some(cause), error_type: AppErrorType::DbError }
}

/// A database error that carries a curated message and no cause.
pub open spec fn db_failure_of(message: Seq<char>) -> AppErrorView {
    AppErrorView { message: Some(message), cause: None, error_type: AppErrorType::DbError }
}

impl AppError {
    /// The text the client is shown for this error.
    pub fn message(&self) -> (r: String)
        ensures
            r@ == self@.client_message(),
    {
        match &self.message {
            Some(m) => m.clone(),
            None => match self.error_type {
                AppErrorType::DbError => {
                    proof {
                        reveal_strlit("Database error!");
                    }
                    "Database error!".to_owned()
                },
                AppErrorType::NotFoundError => {
                    proof {
                        reveal_strlit("Unexpected Error");
                    }
                    "Unexpected Error".to_owned()
                },
            },
        }
    }

    /// A database error from an underlying failure: no curated message, and
    /// the failure's text kept as the cause.
    pub fn db_error(cause: String) -> (r: AppError)
        ensures
            r@ == db_error_of(cause@),
    {
        AppError { message: None, cause: Some(cause), error_type: AppErrorType::DbError }
    }

    /// A database error with a curated message for the client and no cause.
    pub fn db_failure(message: &str) -> (r: AppError)
        ensures
            r@ == db_failure_of(message@),
    {
        AppError { message: Some(message.to_owned()), cause: None, error_type: AppErrorType::DbError }
    }

    /// The HTTP status that this error is answered with.
    pub fn status_code(&self) -> (r: u16)
        ensures
            r == self@.status_code(),
    {
        match self.error_type {
            AppErrorType::DbError => STATUS_INTERNAL_SERVER_ERROR,
            AppErrorType::NotFoundError => STATUS_NOT_FOUND,
        }
    }

    /// The envelope sent to the client; it never carries the cause.
    pub fn error_response(&self) -> (r: AppErrorResponse)
        ensures
            r.error@ == self@.client_message(),
    {
        AppErrorResponse { error: self.message() }
    }
}

} // verus!
