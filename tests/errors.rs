use todo_api::errors::{AppError, AppErrorType, STATUS_INTERNAL_SERVER_ERROR, STATUS_NOT_FOUND};

#[test]
fn test_default_message() {
    let db_error = AppError {
        message: None,
        cause: None,
        error_type: AppErrorType::DbError,
    };
    assert_eq!(db_error.message(), "Database error!".to_string(),
               "Default message should be shown");
}

#[test]
fn not_found_default_message() {
    let e = AppError {
        message: None,
        cause: None,
        error_type: AppErrorType::NotFoundError,
    };
    assert_eq!(e.message(), "Unexpected Error".to_string());
    assert_eq!(e.status_code(), STATUS_NOT_FOUND);
    assert_eq!(e.status_code(), 404);
}

#[test]
fn curated_message_wins() {
    let e = AppError {
        message: Some("Error deleting todo list".to_string()),
        cause: Some("driver said no".to_string()),
        error_type: AppErrorType::DbError,
    };
    assert_eq!(e.message(), "Error deleting todo list");
}

#[test]
fn db_error_keeps_cause_and_no_message() {
    let e = AppError::db_error("connection refused".to_string());
    assert_eq!(e.message, None);
    assert_eq!(e.cause, Some("connection refused".to_string()));
    assert_eq!(e.error_type, AppErrorType::DbError);
    assert_eq!(e.status_code(), STATUS_INTERNAL_SERVER_ERROR);
    assert_eq!(e.status_code(), 500);
}

#[test]
fn db_failure_has_message_and_no_cause() {
    let e = AppError::db_failure("Error checking todo item");
    assert_eq!(e.message, Some("Error checking todo item".to_string()));
    assert_eq!(e.cause, None);
    assert_eq!(e.error_type, AppErrorType::DbError);
}

#[test]
fn error_response_never_leaks_cause() {
    let e = AppError::db_error("password authentication failed".to_string());
    let body = e.error_response();
    assert_eq!(body.error, "Database error!");
    assert!(!body.error.contains("password"));
}
