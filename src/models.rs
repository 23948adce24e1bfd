use vstd::prelude::*;

verus! {

/// Body of the liveness probe.
#[derive(Debug, Clone, PartialEq, Eq)]
pub struct Status {
    pub status: String,
}

/// A named container of to-do items, as stored in `todo_list(id, title)`.
#[derive(Debug, Clone, PartialEq, Eq)]
pub struct TodoList {
    pub id: i32,
    pub title: String,
}

/// A checkable entry of a list, as stored in `todo_item(id, list_id, title, checked)`.
#[derive(Debug, Clone, PartialEq, Eq)]
pub struct TodoItem {
    pub id: i32,
    pub title: String,
    pub checked: bool,
    pub list_id: i32,
}

/// Payload that creates a list.
#[derive(Debug, Clone, PartialEq, Eq)]
pub struct CreateTodoList {
    pub title: String,
}

/// Payload that creates an item.
#[derive(Debug, Clone, PartialEq, Eq)]
pub struct CreateTodoItem {
    pub title: String,
}

/// A list as a mathematical value.
pub struct TodoListView {
    pub id: i32,
    pub title: Seq<char>,
}

/// An item as a mathematical value.
pub struct TodoItemView {
    pub id: i32,
    pub title: Seq<char>,
    pub checked: bool,
    pub list_id: i32,
}

impl View for TodoList {
    type V = TodoListView;

    open spec fn view(&self) -> TodoListView {
        TodoListView { id: self.id, title: self.title@ }
    }
}

impl View for TodoItem {
    type V = TodoItemView;

    open spec fn view(&self) -> TodoItemView {
        TodoItemView { id: self.id, title: self.title@, checked: self.checked, list_id: self.list_id }
    }
}

} // verus!
