use todo_api::db::{check_item, create_item, create_todo, delete_todo, get_items, get_todos};
use todo_api::errors::AppErrorType;
use todo_api::handlers::{reply_status, status};
use todo_api::row::{PgColumn, PgRow, PgValue};

fn col(name: &str, value: PgValue) -> PgColumn {
    PgColumn { name: name.to_string(), value }
}

fn list_row(id: i32, title: &str) -> PgRow {
    PgRow {
        columns: vec![col("id", PgValue::Int(id)), col("title", PgValue::Text(title.to_string()))],
    }
}

fn item_row(id: i32, list_id: i32, title: &str, checked: bool) -> PgRow {
    PgRow {
        columns: vec![
            col("id", PgValue::Int(id)),
            col("list_id", PgValue::Int(list_id)),
            col("title", PgValue::Text(title.to_string())),
            col("checked", PgValue::Bool(checked)),
        ],
    }
}

#[test]
fn lists_listed_newest_first() {
    let a = create_todo(Ok(vec![list_row(1, "A")])).unwrap();
    let b = create_todo(Ok(vec![list_row(2, "B")])).unwrap();
    // the store answers SELECT_LISTS highest id first
    let listed = get_todos(Ok(vec![list_row(b.id, &b.title), list_row(a.id, &a.title)])).unwrap();
    assert_eq!(listed[0].title, "B");
    assert_eq!(listed[1].title, "A");
    assert!(listed[0].id > listed[1].id);
}

#[test]
fn items_listed_in_creation_order() {
    let x = create_item(Ok(vec![item_row(10, 1, "X", false)])).unwrap();
    let y = create_item(Ok(vec![item_row(11, 1, "Y", false)])).unwrap();
    let listed = get_items(Ok(vec![
        item_row(x.id, x.list_id, &x.title, x.checked),
        item_row(y.id, y.list_id, &y.title, y.checked),
    ]))
    .unwrap();
    assert_eq!(listed[0].title, "X");
    assert_eq!(listed[1].title, "Y");
}

#[test]
fn created_list_is_listed_once() {
    let created = create_todo(Ok(vec![list_row(3, "Groceries")])).unwrap();
    assert_eq!(created.title, "Groceries");
    let listed = get_todos(Ok(vec![list_row(3, "Groceries"), list_row(2, "Chores")])).unwrap();
    let matching: Vec<_> = listed.iter().filter(|l| l.title == "Groceries").collect();
    assert_eq!(matching.len(), 1);
    assert_eq!(matching[0].id, created.id);
}

#[test]
fn deleting_missing_list_is_500() {
    let r = delete_todo(Ok(vec![]));
    assert_eq!(reply_status(&r), 500);
    assert_eq!(r.unwrap_err().error_response().error, "Error deleting todo list");
}

#[test]
fn toggling_twice_restores_checked() {
    let first = check_item(Ok(vec![item_row(5, 1, "milk", true)])).unwrap();
    assert!(first.checked);
    let second = check_item(Ok(vec![item_row(5, 1, "milk", false)])).unwrap();
    assert!(!second.checked);
    assert_eq!(first.id, second.id);
}

#[test]
fn orphan_item_fails() {
    let r = create_item(Err("violates foreign key constraint \"todo_item_list_id_fkey\"".to_string()));
    assert_eq!(reply_status(&r), 500);
    assert_eq!(r.unwrap_err().error_type, AppErrorType::DbError);
}

#[test]
fn liveness_needs_no_store() {
    let (code, body) = status();
    assert_eq!(code, 200);
    assert_eq!(body.status, "UP".to_string());
}
