use vstd::prelude::*;

use crate::errors::{db_error_of, db_failure_of, AppError, AppErrorView};
use crate::models::{TodoItem, TodoItemView, TodoList, TodoListView};
use crate::row::{item_of_row, list_of_row, PgRow};

verus! {

/// All lists, most recent first.
pub const SELECT_LISTS: &'static str = "SELECT * FROM todo_list order by id desc";

/// The items of one list (`$1`), in creation order.
pub const SELECT_ITEMS: &'static str = "SELECT * FROM todo_item WHERE list_id = $1 order by id";

/// Inserts a list titled `$1` and returns it.
pub const INSERT_LIST: &'static str = "INSERT INTO todo_list (title) VALUES ($1) RETURNING id, title";

/// Deletes the list with id `$1` and returns it.
pub const DELETE_LIST: &'static str = "DELETE FROM todo_list WHERE id = $1 RETURNING id, title";

/// Inserts an unchecked item titled `$2` under list `$1` and returns it.
pub const INSERT_ITEM: &'static str =
    "INSERT INTO todo_item (list_id, title) VALUES ($1, $2) RETURNING id, list_id, title, checked";

/// Deletes the item with id `$1` and returns it.
pub const DELETE_ITEM: &'static str =
    "DELETE FROM todo_item WHERE id = $1 RETURNING id, list_id, title, checked";

/// Flips `checked` of the item with id `$1` and returns it.
pub const TOGGLE_ITEM: &'static str =
    "UPDATE todo_item SET checked = NOT checked WHERE id = $1 RETURNING id, list_id, title, checked";

/// What a statement's round trip gave: the rows, or the text of the driver's
/// failure (in preparing or in executing it).
pub open spec fn outcome_view(o: Result<Vec<PgRow>, String>) -> Result<Seq<PgRow>, Seq<char>> {
    match o {
        Ok(rows) => Ok(rows@),
        Err(e) => Err(e@),
    }
}

/// The cause recorded when a returned row does not have the entity's columns.
pub open spec fn row_mismatch() -> Seq<char> {
    "returned row does not match the entity's columns"@
}

pub open spec fn rows_are_lists(rows: Seq<PgRow>) -> bool {
    forall|i: int| 0 <= i < rows.len() ==> (#[trigger] list_of_row(rows[i])) is Some
}

pub open spec fn lists_of(rows: Seq<PgRow>) -> Seq<TodoListView> {
    rows.map_values(|row: PgRow| list_of_row(row)->0)
}

pub open spec fn rows_are_items(rows: Seq<PgRow>) -> bool {
    forall|i: int| 0 <= i < rows.len() ==> (#[trigger] item_of_row(rows[i])) is Some
}

pub open spec fn items_of(rows: Seq<PgRow>) -> Seq<TodoItemView> {
    rows.map_values(|row: PgRow| item_of_row(row)->0)
}

/// Result of a statement that returns any number of lists.
pub open spec fn many_lists(o: Result<Seq<PgRow>, Seq<char>>) -> Result<Seq<TodoListView>, AppErrorView> {
    match o {
        Err(cause) => Err(db_error_of(cause)),
        Ok(rows) => if rows_are_lists(rows) {
            Ok(lists_of(rows))
        } else {
            Err(db_error_of(row_mismatch()))
        },
    }
}

/// Result of a statement that returns any number of items.
pub open spec fn many_items(o: Result<Seq<PgRow>, Seq<char>>) -> Result<Seq<TodoItemView>, AppErrorView> {
    match o {
        Err(cause) => Err(db_error_of(cause)),
        Ok(rows) => if rows_are_items(rows) {
            Ok(items_of(rows))
        } else {
            Err(db_error_of(row_mismatch()))
        },
    }
}

/// Result of a statement that must return the affected list: no row at all is
/// a failure with the curated `message`.
pub open spec fn one_list(o: Result<Seq<PgRow>, Seq<char>>, message: Seq<char>) -> Result<
    TodoListView,
    AppErrorView,
> {
    match many_lists(o) {
        Err(e) => Err(e),
        Ok(lists) => if lists.len() == 0 {
            Err(db_failure_of(message))
        } else {
            Ok(lists.last())
        },
    }
}

/// Result of a statement that must return the affected item: no row at all is
/// a failure with the curated `message`.
pub open spec fn one_item(o: Result<Seq<PgRow>, Seq<char>>, message: Seq<char>) -> Result<
    TodoItemView,
    AppErrorView,
> {
    match many_items(o) {
        Err(e) => Err(e),
        Ok(items) => if items.len() == 0 {
            Err(db_failure_of(message))
        } else {
            Ok(items.last())
        },
    }
}

pub open spec fn lists_view(r: Result<Vec<TodoList>, AppError>) -> Result<Seq<TodoListView>, AppErrorView> {
    match r {
        Ok(v) => Ok(v@.map_values(|l: TodoList| l@)),
        Err(e) => Err(e@),
    }
}

pub open spec fn items_view(r: Result<Vec<TodoItem>, AppError>) -> Result<Seq<TodoItemView>, AppErrorView> {
    match r {
        Ok(v) => Ok(v@.map_values(|it: TodoItem| it@)),
        Err(e) => Err(e@),
    }
}

pub open spec fn list_view(r: Result<TodoList, AppError>) -> Result<TodoListView, AppErrorView> {
    match r {
        Ok(l) => Ok(l@),
        Err(e) => Err(e@),
    }
}

pub open spec fn item_view(r: Result<TodoItem, AppError>) -> Result<TodoItemView, AppErrorView> {
    match r {
        Ok(it) => Ok(it@),
        Err(e) => Err(e@),
    }
}

/// The rows describe exactly the lists `lists`, in order.
pub open spec fn rows_hold_lists(rows: Seq<PgRow>, lists: Seq<TodoListView>) -> bool {
    &&& rows.len() == lists.len()
    &&& forall|i: int| 0 <= i < rows.len() ==> #[trigger] list_of_row(rows[i]) == Some(lists[i])
}

/// The rows describe exactly the items `items`, in order.
pub open spec fn rows_hold_items(rows: Seq<PgRow>, items: Seq<TodoItemView>) -> bool {
    &&& rows.len() == items.len()
    &&& forall|i: int| 0 <= i < rows.len() ==> #[trigger] item_of_row(rows[i]) == Some(items[i])
}

/// Rows that describe lists are read back as those lists.
pub proof fn lemma_rows_hold_lists(rows: Seq<PgRow>, lists: Seq<TodoListView>)
    requires
        rows_hold_lists(rows, lists),
    ensures
        many_lists(Ok(rows)) == Ok::<Seq<TodoListView>, AppErrorView>(lists),
{
    assert(rows_are_lists(rows));
    assert(lists_of(rows) =~= lists);
}

/// Rows that describe items are read back as those items.
pub proof fn lemma_rows_hold_items(rows: Seq<PgRow>, items: Seq<TodoItemView>)
    requires
        rows_hold_items(rows, items),
    ensures
        many_items(Ok(rows)) == Ok::<Seq<TodoItemView>, AppErrorView>(items),
{
    assert(rows_are_items(rows));
    assert(items_of(rows) =~= items);
}

fn row_mismatch_error() -> (r: AppError)
    ensures
        r@ == db_error_of(row_mismatch()),
{
    proof {
        reveal_strlit("returned row does not match the entity's columns");
    }
    AppError::db_error("returned row does not match the entity's columns".to_owned())
}

/// Maps every row to a list, or fails on the first row that is not one.
fn lists_from_rows(rows: &Vec<PgRow>) -> (r: Option<Vec<TodoList>>)
    ensures
        match r {
            Some(v) => rows_are_lists(rows@) && v@.map_values(|l: TodoList| l@) == lists_of(rows@),
            None => !rows_are_lists(rows@),
        },
{
    let mut out: Vec<TodoList> = Vec::new();
    let mut i: usize = 0;
    while i < rows.len()
        invariant
            i <= rows@.len(),
            out@.len() == i,
            forall|j: int| 0 <= j < i ==> (#[trigger] list_of_row(rows@[j])) == Some(out@[j]@),
        decreases rows@.len() - i,
    {
        match TodoList::from_row(&rows[i]) {
            Some(l) => out.push(l),
            None => return None,
        }
        i = i + 1;
    }
    assert(out@.map_values(|l: TodoList| l@) =~= lists_of(rows@));
    Some(out)
}

/// Maps every row to an item, or fails on the first row that is not one.
fn items_from_rows(rows: &Vec<PgRow>) -> (r: Option<Vec<TodoItem>>)
    ensures
        match r {
            Some(v) => rows_are_items(rows@) && v@.map_values(|it: TodoItem| it@) == items_of(rows@),
            None => !rows_are_items(rows@),
        },
{
    let mut out: Vec<TodoItem> = Vec::new();
    let mut i: usize = 0;
    while i < rows.len()
        invariant
            i <= rows@.len(),
            out@.len() == i,
            forall|j: int| 0 <= j < i ==> (#[trigger] item_of_row(rows@[j])) == Some(out@[j]@),
        decreases rows@.len() - i,
    {
        match TodoItem::from_row(&rows[i]) {
            Some(it) => out.push(it),
            None => return None,
        }
        i = i + 1;
    }
    assert(out@.map_values(|it: TodoItem| it@) =~= items_of(rows@));
    Some(out)
}

/// Result of listing the lists, given the round trip of `SELECT_LISTS`.
pub fn get_todos(outcome: Result<Vec<PgRow>, String>) -> (r: Result<Vec<TodoList>, AppError>)
    ensures
        lists_view(r) == many_lists(outcome_view(outcome)),
{
    match outcome {
        Err(cause) => Err(AppError::db_error(cause)),
        Ok(rows) => match lists_from_rows(&rows) {
            Some(lists) => Ok(lists),
            None => Err(row_mismatch_error()),
        },
    }
}

/// Result of listing a list's items, given the round trip of `SELECT_ITEMS`.
pub fn get_items(outcome: Result<Vec<PgRow>, String>) -> (r: Result<Vec<TodoItem>, AppError>)
    ensures
        items_view(r) == many_items(outcome_view(outcome)),
{
    match outcome {
        Err(cause) => Err(AppError::db_error(cause)),
        Ok(rows) => match items_from_rows(&rows) {
            Some(items) => Ok(items),
            None => Err(row_mismatch_error()),
        },
    }
}

/// The affected list of a statement that returns it, or `message` when none came back.
fn single_list(outcome: Result<Vec<PgRow>, String>, message: &str) -> (r: Result<TodoList, AppError>)
    ensures
        list_view(r) == one_list(outcome_view(outcome), message@),
{
    match outcome {
        Err(cause) => Err(AppError::db_error(cause)),
        Ok(rows) => match lists_from_rows(&rows) {
            Some(mut lists) => {
                match lists.pop() {
                    Some(l) => {
                        assert(l@ == lists_of(rows@).last());
                        Ok(l)
                    },
                    None => Err(AppError::db_failure(message)),
                }
            },
            None => Err(row_mismatch_error()),
        },
    }
}

/// The affected item of a statement that returns it, or `message` when none came back.
fn single_item(outcome: Result<Vec<PgRow>, String>, message: &str) -> (r: Result<TodoItem, AppError>)
    ensures
        item_view(r) == one_item(outcome_view(outcome), message@),
{
    match outcome {
        Err(cause) => Err(AppError::db_error(cause)),
        Ok(rows) => match items_from_rows(&rows) {
            Some(mut items) => {
                match items.pop() {
                    Some(it) => {
                        assert(it@ == items_of(rows@).last());
                        Ok(it)
                    },
                    None => Err(AppError::db_failure(message)),
                }
            },
            None => Err(row_mismatch_error()),
        },
    }
}

pub open spec fn create_list_failed() -> Seq<char> {
    "Error creating todo list"@
}

pub open spec fn delete_list_failed() -> Seq<char> {
    "Error deleting todo list"@
}

pub open spec fn create_item_failed() -> Seq<char> {
    "Error creating todo item"@
}

pub open spec fn delete_item_failed() -> Seq<char> {
    "Error deleting todo item"@
}

pub open spec fn check_item_failed() -> Seq<char> {
    "Error checking todo item"@
}

/// Result of creating a list, given the round trip of `INSERT_LIST`.
pub fn create_todo(outcome: Result<Vec<PgRow>, String>) -> (r: Result<TodoList, AppError>)
    ensures
        list_view(r) == one_list(outcome_view(outcome), create_list_failed()),
{
    proof {
        reveal_strlit("Error creating todo list");
    }
    single_list(outcome, "Error creating todo list")
}

/// Result of deleting a list, given the round trip of `DELETE_LIST`.
pub fn delete_todo(outcome: Result<Vec<PgRow>, String>) -> (r: Result<TodoList, AppError>)
    ensures
        list_view(r) == one_list(outcome_view(outcome), delete_list_failed()),
{
    proof {
        reveal_strlit("Error deleting todo list");
    }
    single_list(outcome, "Error deleting todo list")
}

/// Result of creating an item, given the round trip of `INSERT_ITEM`.
pub fn create_item(outcome: Result<Vec<PgRow>, String>) -> (r: Result<TodoItem, AppError>)
    ensures
        item_view(r) == one_item(outcome_view(outcome), create_item_failed()),
{
    proof {
        reveal_strlit("Error creating todo item");
    }
    single_item(outcome, "Error creating todo item")
}

/// Result of deleting an item, given the round trip of `DELETE_ITEM`.
pub fn delete_item(outcome: Result<Vec<PgRow>, String>) -> (r: Result<TodoItem, AppError>)
    ensures
        item_view(r) == one_item(outcome_view(outcome), delete_item_failed()),
{
    proof {
        reveal_strlit("Error deleting todo item");
    }
    single_item(outcome, "Error deleting todo item")
}

/// Result of toggling an item, given the round trip of `TOGGLE_ITEM`.
pub fn check_item(outcome: Result<Vec<PgRow>, String>) -> (r: Result<TodoItem, AppError>)
    ensures
        item_view(r) == one_item(outcome_view(outcome), check_item_failed()),
{
    proof {
        reveal_strlit("Error checking todo item");
    }
    single_item(outcome, "Error checking todo item")
}

} // verus!
