use todo_api::db::{
    check_item, create_item, create_todo, delete_item, delete_todo, get_items, get_todos,
};
use todo_api::errors::{AppErrorType, STATUS_INTERNAL_SERVER_ERROR};
use todo_api::handlers::reply_status;
use todo_api::models::{TodoItem, TodoList};
use todo_api::row::{PgColumn, PgRow, PgValue};

fn col(name: &str, value: PgValue) -> PgColumn {
    PgColumn { name: name.to_string(), value }
}

fn list_row(id: i32, title: &str) -> PgRow {
    PgRow {
        columns: vec![col("id", PgValue::Int(id)), col("title", PgValue::Text(title.to_string()))],
    }
}

fn item_row(id: i32, list_id: i32, title: &str, checked: bool) -> PgRow {
    PgRow {
        columns: vec![
            col("id", PgValue::Int(id)),
            col("list_id", PgValue::Int(list_id)),
            col("title", PgValue::Text(title.to_string())),
            col("checked", PgValue::Bool(checked)),
        ],
    }
}

fn list(id: i32, title: &str) -> TodoList {
    TodoList { id, title: title.to_string() }
}

fn item(id: i32, list_id: i32, title: &str, checked: bool) -> TodoItem {
    TodoItem { id, list_id, title: title.to_string(), checked }
}

#[test]
fn get_todos_maps_every_row_in_order() {
    let rows = vec![list_row(2, "B"), list_row(1, "A")];
    assert_eq!(get_todos(Ok(rows)), Ok(vec![list(2, "B"), list(1, "A")]));
}

#[test]
fn get_todos_empty_table() {
    assert_eq!(get_todos(Ok(vec![])), Ok(vec![]));
}

#[test]
fn get_todos_driver_failure_is_db_error() {
    let e = get_todos(Err("relation \"todo_list\" does not exist".to_string())).unwrap_err();
    assert_eq!(e.error_type, AppErrorType::DbError);
    assert_eq!(e.message, None);
    assert_eq!(e.cause, Some("relation \"todo_list\" does not exist".to_string()));
}

#[test]
fn get_todos_row_without_title_is_db_error() {
    let rows = vec![PgRow { columns: vec![col("id", PgValue::Int(1))] }];
    let e = get_todos(Ok(rows)).unwrap_err();
    assert_eq!(e.error_type, AppErrorType::DbError);
    assert_eq!(e.message, None);
    assert!(e.cause.is_some());
}

#[test]
fn get_items_in_creation_order() {
    let rows = vec![item_row(3, 1, "milk", false), item_row(7, 1, "eggs", true)];
    assert_eq!(get_items(Ok(rows)), Ok(vec![item(3, 1, "milk", false), item(7, 1, "eggs", true)]));
}

#[test]
fn get_items_wrong_column_type_is_db_error() {
    let rows = vec![PgRow {
        columns: vec![
            col("id", PgValue::Int(3)),
            col("list_id", PgValue::Int(1)),
            col("title", PgValue::Text("milk".to_string())),
            col("checked", PgValue::Null),
        ],
    }];
    let e = get_items(Ok(rows)).unwrap_err();
    assert_eq!(e.error_type, AppErrorType::DbError);
}

#[test]
fn create_todo_returns_inserted_row() {
    assert_eq!(create_todo(Ok(vec![list_row(5, "Groceries")])), Ok(list(5, "Groceries")));
}

#[test]
fn create_todo_without_row_fails_with_message() {
    let e = create_todo(Ok(vec![])).unwrap_err();
    assert_eq!(e.message, Some("Error creating todo list".to_string()));
    assert_eq!(e.cause, None);
    assert_eq!(e.error_type, AppErrorType::DbError);
}

#[test]
fn delete_todo_returns_deleted_row() {
    assert_eq!(delete_todo(Ok(vec![list_row(4, "Old")])), Ok(list(4, "Old")));
}

#[test]
fn delete_todo_missing_id_is_500_with_envelope() {
    let r = delete_todo(Ok(vec![]));
    assert_eq!(reply_status(&r), STATUS_INTERNAL_SERVER_ERROR);
    let e = r.unwrap_err();
    assert_eq!(e.message, Some("Error deleting todo list".to_string()));
    assert_eq!(e.error_response().error, "Error deleting todo list");
}

#[test]
fn create_item_returns_unchecked_row() {
    let r = create_item(Ok(vec![item_row(9, 2, "bread", false)]));
    assert_eq!(r, Ok(item(9, 2, "bread", false)));
}

#[test]
fn create_item_without_row_fails_with_message() {
    let e = create_item(Ok(vec![])).unwrap_err();
    assert_eq!(e.message, Some("Error creating todo item".to_string()));
}

#[test]
fn create_item_under_missing_list_is_db_error() {
    let cause = "insert or update on table \"todo_item\" violates foreign key constraint";
    let r = create_item(Err(cause.to_string()));
    assert_eq!(reply_status(&r), 500);
    let e = r.unwrap_err();
    assert_eq!(e.error_type, AppErrorType::DbError);
    assert_eq!(e.cause, Some(cause.to_string()));
    assert_eq!(e.error_response().error, "Database error!");
}

#[test]
fn delete_item_returns_deleted_row() {
    assert_eq!(delete_item(Ok(vec![item_row(9, 2, "bread", true)])), Ok(item(9, 2, "bread", true)));
}

#[test]
fn delete_item_without_row_fails_with_message() {
    let e = delete_item(Ok(vec![])).unwrap_err();
    assert_eq!(e.message, Some("Error deleting todo item".to_string()));
}

#[test]
fn check_item_returns_toggled_row() {
    assert_eq!(check_item(Ok(vec![item_row(9, 2, "bread", true)])), Ok(item(9, 2, "bread", true)));
}

#[test]
fn check_item_without_row_fails_with_message() {
    let e = check_item(Ok(vec![])).unwrap_err();
    assert_eq!(e.message, Some("Error checking todo item".to_string()));
    assert_eq!(e.status_code(), 500);
}

#[test]
fn single_row_operations_take_the_last_row() {
    let rows = vec![list_row(1, "first"), list_row(2, "second")];
    assert_eq!(delete_todo(Ok(rows)), Ok(list(2, "second")));
}

#[test]
fn single_row_driver_failure_keeps_cause() {
    let e = check_item(Err("timeout".to_string())).unwrap_err();
    assert_eq!(e.message, None);
    assert_eq!(e.cause, Some("timeout".to_string()));
}
