use vstd::prelude::*;

use crate::models::{TodoItem, TodoItemView, TodoList, TodoListView};

verus! {

/// One cell of a result row, as the store typed it.
#[derive(Debug, Clone, PartialEq, Eq)]
pub enum PgValue {
    Int(i32),
    Text(String),
    Bool(bool),
    Null,
}

/// A named cell of a result row.
#[derive(Debug, Clone, PartialEq, Eq)]
pub struct PgColumn {
    pub name: String,
    pub value: PgValue,
}

/// A result row: its cells in the order the statement returned them.
#[derive(Debug, Clone, PartialEq, Eq)]
pub struct PgRow {
    pub columns: Vec<PgColumn>,
}

/// The value of the first cell named `name`, if any.
pub open spec fn column_in(cols: Seq<PgColumn>, name: Seq<char>) -> Option<PgValue>
    decreases cols.len(),
{
    if cols.len() == 0 {
        None
    } else if cols[0].name@ == name {
        Some(cols[0].value)
    } else {
        column_in(cols.drop_first(), name)
    }
}

pub open spec fn int_column(row: PgRow, name: Seq<char>) -> Option<i32> {
    match column_in(row.columns@, name) {
        Some(PgValue::Int(v)) => Some(v),
        _ => None,
    }
}

pub open spec fn text_column(row: PgRow, name: Seq<char>) -> Option<Seq<char>> {
    match column_in(row.columns@, name) {
        Some(PgValue::Text(s)) => Some(s@),
        _ => None,
    }
}

pub open spec fn bool_column(row: PgRow, name: Seq<char>) -> Option<bool> {
    match column_in(row.columns@, name) {
        Some(PgValue::Bool(b)) => Some(b),
        _ => None,
    }
}

/// The list a row describes: it needs an integer `id` and a text `title`.
pub open spec fn list_of_row(row: PgRow) -> Option<TodoListView> {
    match (int_column(row, "id"@), text_column(row, "title"@)) {
        (Some(id), Some(title)) => Some(TodoListView { id, title }),
        _ => None,
    }
}

/// The item a row describes: it needs an integer `id` and `list_id`, a text
/// `title` and a boolean `checked`.
pub open spec fn item_of_row(row: PgRow) -> Option<TodoItemView> {
    match (
        int_column(row, "id"@),
        text_column(row, "title"@),
        bool_column(row, "checked"@),
        int_column(row, "list_id"@),
    ) {
        (Some(id), Some(title), Some(checked), Some(list_id)) => Some(
            TodoItemView { id, title, checked, list_id },
        ),
        _ => None,
    }
}

impl PgRow {
    /// Index of the first cell named `name`.
    fn position(&self, name: &str) -> (r: Option<usize>)
        ensures
            match r {
                Some(i) => i < self.columns@.len() && column_in(self.columns@, name@) == Some(
                    self.columns@[i as int].value,
                ),
                None => column_in(self.columns@, name@) is None,
            },
    {
        let key = name.to_owned();
        let ghost cols = self.columns@;
        let n = self.columns.len();
        let mut i: usize = 0;
        assert(cols.subrange(0, n as int) =~= cols);
        while i < n
            invariant
                n == cols.len(),
                cols == self.columns@,
                key@ == name@,
                i <= n,
                column_in(cols, key@) == column_in(cols.subrange(i as int, n as int), key@),
            decreases n - i,
        {
            assert(cols.subrange(i as int, n as int)[0] == cols[i as int]);
            if self.columns[i].name == key {
                return Some(i);
            }
            assert(cols.subrange(i as int, n as int).drop_first() =~= cols.subrange(
                i + 1,
                n as int,
            ));
            i = i + 1;
        }
        assert(cols.subrange(n as int, n as int).len() == 0);
        None
    }

    /// The integer in the cell named `name`.
    pub fn get_int(&self, name: &str) -> (r: Option<i32>)
        ensures
            r == int_column(*self, name@),
    {
        match self.position(name) {
            Some(i) => match &self.columns[i].value {
                PgValue::Int(v) => Some(*v),
                _ => None,
            },
            None => None,
        }
    }

    /// The text in the cell named `name`.
    pub fn get_text(&self, name: &str) -> (r: Option<String>)
        ensures
            match r {
                Some(s) => text_column(*self, name@) == Some(s@),
                None => text_column(*self, name@) is None,
            },
    {
        match self.position(name) {
            Some(i) => match &self.columns[i].value {
                PgValue::Text(s) => Some(s.clone()),
                _ => None,
            },
            None => None,
        }
    }

    /// The boolean in the cell named `name`.
    pub fn get_bool(&self, name: &str) -> (r: Option<bool>)
        ensures
            r == bool_column(*self, name@),
    {
        match self.position(name) {
            Some(i) => match &self.columns[i].value {
                PgValue::Bool(b) => Some(*b),
                _ => None,
            },
            None => None,
        }
    }
}

impl TodoList {
    /// Reads a list out of a row by column name; the order of the cells does not matter.
    pub fn from_row(row: &PgRow) -> (r: Option<TodoList>)
        ensures
            match r {
                Some(l) => list_of_row(*row) == Some(l@),
                None => list_of_row(*row) is None,
            },
    {
        proof {
            reveal_strlit("id");
            reveal_strlit("title");
        }
        let id = row.get_int("id");
        let title = row.get_text("title");
        match (id, title) {
            (Some(id), Some(title)) => Some(TodoList { id, title }),
            _ => None,
        }
    }
}

impl TodoItem {
    /// Reads an item out of a row by column name; the order of the cells does not matter.
    pub fn from_row(row: &PgRow) -> (r: Option<TodoItem>)
        ensures
            match r {
                Some(it) => item_of_row(*row) == Some(it@),
                None => item_of_row(*row) is None,
            },
    {
        proof {
            reveal_strlit("id");
            reveal_strlit("title");
            reveal_strlit("checked");
            reveal_strlit("list_id");
        }
        let id = row.get_int("id");
        let title = row.get_text("title");
        let checked = row.get_bool("checked");
        let list_id = row.get_int("list_id");
        match (id, title, checked, list_id) {
            (Some(id), Some(title), Some(checked), Some(list_id)) => Some(
                TodoItem { id, title, checked, list_id },
            ),
            _ => None,
        }
    }
}

} // verus!
