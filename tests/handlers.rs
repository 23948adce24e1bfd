use todo_api::errors::{AppError, STATUS_OK};
use todo_api::handlers::{reply_status, status};
use todo_api::models::TodoList;

#[test]
fn liveness_is_up_with_200() {
    let (code, body) = status();
    assert_eq!(code, 200);
    assert_eq!(code, STATUS_OK);
    assert_eq!(body.status, "UP");
}

#[test]
fn success_replies_200() {
    let ok: Result<Vec<TodoList>, AppError> = Ok(vec![]);
    assert_eq!(reply_status(&ok), 200);
}

#[test]
fn error_replies_with_its_status() {
    let err: Result<TodoList, AppError> = Err(AppError::db_error("x".to_string()));
    assert_eq!(reply_status(&err), 500);
}
