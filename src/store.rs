use vstd::prelude::*;

use crate::models::{TodoItemView, TodoListView};

verus! {

/// The relational store as a mathematical value: the rows of `todo_list` and
/// of `todo_item` in the order they were inserted, and the next value of each
/// table's id sequence. It states what each statement of the data access
/// layer does to the store and which rows it returns.
pub struct StoreModel {
    pub lists: Seq<TodoListView>,
    pub items: Seq<TodoItemView>,
    pub next_list_id: int,
    pub next_item_id: int,
}

pub open spec fn lists_ascending(s: Seq<TodoListView>) -> bool {
    forall|i: int, j: int| 0 <= i < j < s.len() ==> s[i].id < s[j].id
}

pub open spec fn items_ascending(s: Seq<TodoItemView>) -> bool {
    forall|i: int, j: int| 0 <= i < j < s.len() ==> s[i].id < s[j].id
}

pub open spec fn lists_descending(s: Seq<TodoListView>) -> bool {
    forall|i: int, j: int| 0 <= i < j < s.len() ==> s[i].id > s[j].id
}

/// The item with its `checked` flag flipped.
pub open spec fn flipped(it: TodoItemView) -> TodoItemView {
    TodoItemView { checked: !it.checked, ..it }
}

/// The item flipped if it has id `id`, else unchanged.
pub open spec fn flipped_if(id: i32) -> spec_fn(TodoItemView) -> TodoItemView {
    |it: TodoItemView| if it.id == id { flipped(it) } else { it }
}

pub open spec fn list_has_id(id: i32) -> spec_fn(TodoListView) -> bool {
    |l: TodoListView| l.id == id
}

pub open spec fn list_lacks_id(id: i32) -> spec_fn(TodoListView) -> bool {
    |l: TodoListView| l.id != id
}

pub open spec fn item_has_id(id: i32) -> spec_fn(TodoItemView) -> bool {
    |it: TodoItemView| it.id == id
}

pub open spec fn item_lacks_id(id: i32) -> spec_fn(TodoItemView) -> bool {
    |it: TodoItemView| it.id != id
}

pub open spec fn item_in_list(list_id: i32) -> spec_fn(TodoItemView) -> bool {
    |it: TodoItemView| it.list_id == list_id
}

impl StoreModel {
    /// A store with no rows whose sequences start at 1.
    pub open spec fn empty() -> StoreModel {
        StoreModel { lists: Seq::empty(), items: Seq::empty(), next_list_id: 1, next_item_id: 1 }
    }

    pub open spec fn has_list(self, id: i32) -> bool {
        exists|j: int| 0 <= j < self.lists.len() && self.lists[j].id == id
    }

    /// Ids are handed out in increasing order and never reused, and every
    /// item belongs to a list that exists.
    pub open spec fn wf(self) -> bool {
        &&& lists_ascending(self.lists)
        &&& items_ascending(self.items)
        &&& 1 <= self.next_list_id
        &&& 1 <= self.next_item_id
        &&& forall|i: int| 0 <= i < self.lists.len() ==> self.lists[i].id < self.next_list_id
        &&& forall|i: int| 0 <= i < self.items.len() ==> self.items[i].id < self.next_item_id
        &&& forall|i: int| 0 <= i < self.items.len() ==> self.has_list(#[trigger] self.items[i].list_id)
    }

    /// Rows of `SELECT_LISTS`: every list, highest id first.
    pub open spec fn select_lists(self) -> Seq<TodoListView> {
        Seq::new(self.lists.len(), |i: int| self.lists[self.lists.len() - 1 - i])
    }

    /// Rows of `SELECT_ITEMS`: the list's items, lowest id first.
    pub open spec fn select_items(self, list_id: i32) -> Seq<TodoItemView> {
        self.items.filter(item_in_list(list_id))
    }

    /// `INSERT_LIST`: the new store and the returned row, or `None` where the
    /// statement fails (the id sequence is past the column's range).
    pub open spec fn insert_list(self, title: Seq<char>) -> Option<(StoreModel, TodoListView)> {
        if self.next_list_id > i32::MAX {
            None
        } else {
            let l = TodoListView { id: self.next_list_id as i32, title };
            Some(
                (
                    StoreModel {
                        lists: self.lists.push(l),
                        items: self.items,
                        next_list_id: self.next_list_id + 1,
                        next_item_id: self.next_item_id,
                    },
                    l,
                ),
            )
        }
    }

    /// `DELETE_LIST`: the new store and the returned rows, or `None` where the
    /// statement fails (items still reference the list, which the foreign key
    /// refuses).
    pub open spec fn delete_list(self, id: i32) -> Option<(StoreModel, Seq<TodoListView>)> {
        if exists|j: int| 0 <= j < self.items.len() && self.items[j].list_id == id {
            None
        } else {
            Some(
                (
                    StoreModel {
                        lists: self.lists.filter(list_lacks_id(id)),
                        items: self.items,
                        next_list_id: self.next_list_id,
                        next_item_id: self.next_item_id,
                    },
                    self.lists.filter(list_has_id(id)),
                ),
            )
        }
    }

    /// `INSERT_ITEM`: the new store and the returned row, or `None` where the
    /// statement fails (no list has id `list_id`, which the foreign key refuses,
    /// or the id sequence is past the column's range).
    pub open spec fn insert_item(self, list_id: i32, title: Seq<char>) -> Option<
        (StoreModel, TodoItemView),
    > {
        if !self.has_list(list_id) || self.next_item_id > i32::MAX {
            None
        } else {
            let it = TodoItemView { id: self.next_item_id as i32, title, checked: false, list_id };
            Some(
                (
                    StoreModel {
                        lists: self.lists,
                        items: self.items.push(it),
                        next_list_id: self.next_list_id,
                        next_item_id: self.next_item_id + 1,
                    },
                    it,
                ),
            )
        }
    }

    /// `DELETE_ITEM`: the new store and the returned rows.
    pub open spec fn delete_item(self, id: i32) -> (StoreModel, Seq<TodoItemView>) {
        (
            StoreModel {
                lists: self.lists,
                items: self.items.filter(item_lacks_id(id)),
                next_list_id: self.next_list_id,
                next_item_id: self.next_item_id,
            },
            self.items.filter(item_has_id(id)),
        )
    }

    /// `TOGGLE_ITEM`: the new store and the returned rows.
    pub open spec fn toggle_item(self, id: i32) -> (StoreModel, Seq<TodoItemView>) {
        (
            StoreModel {
                lists: self.lists,
                items: self.items.map_values(flipped_if(id)),
                next_list_id: self.next_list_id,
                next_item_id: self.next_item_id,
            },
            self.items.filter(item_has_id(id)).map_values(flipped_if(id)),
        )
    }
}

/// What filtering keeps of a list table: rows of it that meet `pred`, in
/// increasing id order.
pub proof fn lemma_filter_lists(s: Seq<TodoListView>, pred: spec_fn(TodoListView) -> bool)
    requires
        lists_ascending(s),
    ensures
        lists_ascending(s.filter(pred)),
        forall|i: int|
            0 <= i < s.filter(pred).len() ==> s.contains(#[trigger] s.filter(pred)[i]) && pred(
                s.filter(pred)[i],
            ),
    decreases s.len(),
{
    reveal(Seq::filter);
    if s.len() > 0 {
        let d = s.drop_last();
        lemma_filter_lists(d, pred);
        let fd = d.filter(pred);
        assert forall|i: int| 0 <= i < fd.len() implies #[trigger] fd[i].id < s.last().id by {
            assert(d.contains(fd[i]));
            let k = choose|k: int| 0 <= k < d.len() && d[k] == fd[i];
            assert(s[k] == fd[i]);
        }
        assert forall|i: int| 0 <= i < fd.len() implies s.contains(#[trigger] fd[i]) by {
            assert(d.contains(fd[i]));
            let k = choose|k: int| 0 <= k < d.len() && d[k] == fd[i];
            assert(s[k] == fd[i]);
        }
        if pred(s.last()) {
            assert(s.contains(s.last()));
        }
    }
}

/// What filtering keeps of an item table: rows of it that meet `pred`, in
/// increasing id order.
pub proof fn lemma_filter_items(s: Seq<TodoItemView>, pred: spec_fn(TodoItemView) -> bool)
    requires
        items_ascending(s),
    ensures
        items_ascending(s.filter(pred)),
        forall|i: int|
            0 <= i < s.filter(pred).len() ==> s.contains(#[trigger] s.filter(pred)[i]) && pred(
                s.filter(pred)[i],
            ),
    decreases s.len(),
{
    reveal(Seq::filter);
    if s.len() > 0 {
        let d = s.drop_last();
        lemma_filter_items(d, pred);
        let fd = d.filter(pred);
        assert forall|i: int| 0 <= i < fd.len() implies #[trigger] fd[i].id < s.last().id by {
            assert(d.contains(fd[i]));
            let k = choose|k: int| 0 <= k < d.len() && d[k] == fd[i];
            assert(s[k] == fd[i]);
        }
        assert forall|i: int| 0 <= i < fd.len() implies s.contains(#[trigger] fd[i]) by {
            assert(d.contains(fd[i]));
            let k = choose|k: int| 0 <= k < d.len() && d[k] == fd[i];
            assert(s[k] == fd[i]);
        }
        if pred(s.last()) {
            assert(s.contains(s.last()));
        }
    }
}

} // verus!
