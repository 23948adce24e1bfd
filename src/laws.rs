use vstd::prelude::*;

use crate::db::{
    create_item_failed, create_list_failed, delete_list_failed, lemma_rows_hold_items,
    lemma_rows_hold_lists, many_items, many_lists, one_item, one_list, rows_hold_items,
    rows_hold_lists,
};
use crate::errors::{db_error_of, db_failure_of, AppErrorView, STATUS_INTERNAL_SERVER_ERROR};
use crate::models::{TodoItemView, TodoListView};
use crate::row::PgRow;
use crate::store::{
    flipped, flipped_if, item_has_id, item_in_list, item_lacks_id, items_ascending, lemma_filter_items,
    lemma_filter_lists, list_has_id, list_lacks_id, lists_descending, StoreModel,
};

verus! {

/// In a well-formed store, lists are listed highest id first and a list's
/// items lowest id first.
pub proof fn lemma_listing_orders(s: StoreModel, list_id: i32)
    requires
        s.wf(),
    ensures
        lists_descending(s.select_lists()),
        items_ascending(s.select_items(list_id)),
{
    lemma_filter_items(s.items, item_in_list(list_id));
}

/// The empty store is well formed, and every statement keeps the store well
/// formed: ids stay increasing and are never reused, and every item keeps a list.
pub proof fn lemma_statements_keep_store_well_formed(
    s: StoreModel,
    title: Seq<char>,
    list_id: i32,
    id: i32,
)
    requires
        s.wf(),
    ensures
        StoreModel::empty().wf(),
        s.insert_list(title) matches Some((s1, _)) ==> s1.wf(),
        s.delete_list(id) matches Some((s1, _)) ==> s1.wf(),
        s.insert_item(list_id, title) matches Some((s1, _)) ==> s1.wf(),
        s.delete_item(id).0.wf(),
        s.toggle_item(id).0.wf(),
{
    if let Some((s1, _)) = s.insert_list(title) {
        assert forall|i: int| 0 <= i < s1.items.len() implies s1.has_list(
            #[trigger] s1.items[i].list_id,
        ) by {
            assert(s.has_list(s.items[i].list_id));
            let j = choose|j: int| 0 <= j < s.lists.len() && s.lists[j].id == s.items[i].list_id;
            assert(s1.lists[j] == s.lists[j]);
        }
    }
    if let Some((s1, _)) = s.delete_list(id) {
        lemma_filter_lists(s.lists, list_lacks_id(id));
        assert forall|i: int| 0 <= i < s1.lists.len() implies s1.lists[i].id < s1.next_list_id by {
            assert(s.lists.contains(s1.lists[i]));
        }
        assert forall|i: int| 0 <= i < s1.items.len() implies s1.has_list(
            #[trigger] s1.items[i].list_id,
        ) by {
            assert(s.has_list(s.items[i].list_id));
            let j = choose|j: int| 0 <= j < s.lists.len() && s.lists[j].id == s.items[i].list_id;
            s.lists.lemma_filter_contains(list_lacks_id(id), j);
            let m = choose|m: int| 0 <= m < s1.lists.len() && s1.lists[m] == s.lists[j];
        }
    }
    if let Some((s1, _)) = s.insert_item(list_id, title) {
        assert forall|i: int| 0 <= i < s1.items.len() implies s1.has_list(
            #[trigger] s1.items[i].list_id,
        ) by {
            let x = s1.items[i].list_id;
            if i < s.items.len() {
                assert(s1.items[i] == s.items[i]);
                assert(s.has_list(s.items[i].list_id));
            } else {
                assert(x == list_id);
            }
            assert(s.has_list(x));
            let j = choose|j: int| 0 <= j < s.lists.len() && s.lists[j].id == x;
            assert(s1.lists[j].id == x);
        }
    }
    let d = s.delete_item(id).0;
    lemma_filter_items(s.items, item_lacks_id(id));
    assert(d.items == s.items.filter(item_lacks_id(id)));
    assert forall|i: int| 0 <= i < d.items.len() implies d.items[i].id < d.next_item_id
        && d.has_list(#[trigger] d.items[i].list_id) by {
        assert(s.items.contains(s.items.filter(item_lacks_id(id))[i]));
        let q = choose|q: int| 0 <= q < s.items.len() && s.items[q] == d.items[i];
        assert(s.has_list(s.items[q].list_id));
        let j = choose|j: int| 0 <= j < s.lists.len() && s.lists[j].id == s.items[q].list_id;
        assert(d.lists[j].id == d.items[i].list_id);
    }
    let t = s.toggle_item(id).0;
    assert forall|i: int| 0 <= i < t.items.len() implies t.has_list(#[trigger] t.items[i].list_id) by {
        assert(t.items[i].list_id == s.items[i].list_id);
        assert(s.has_list(s.items[i].list_id));
        let j = choose|j: int| 0 <= j < s.lists.len() && s.lists[j].id == s.items[i].list_id;
        assert(t.lists[j].id == t.items[i].list_id);
    }
}

/// Listing after creating list `a` and then list `b` shows `b` first and `a`
/// right after it.
pub proof fn lemma_lists_newest_first(
    s: StoreModel,
    a: Seq<char>,
    b: Seq<char>,
    s1: StoreModel,
    la: TodoListView,
    s2: StoreModel,
    lb: TodoListView,
    rows: Seq<PgRow>,
)
    requires
        s.wf(),
        s.insert_list(a) == Some((s1, la)),
        s1.insert_list(b) == Some((s2, lb)),
        rows_hold_lists(rows, s2.select_lists()),
    ensures
        many_lists(Ok(rows)) matches Ok(v) && v.len() >= 2 && v[0] == lb && v[1] == la,
        lb.title == b,
        la.title == a,
        lb.id > la.id,
{
    lemma_rows_hold_lists(rows, s2.select_lists());
}

/// Listing a list's items after creating item `x` and then item `y` under it
/// shows `x` and then `y`, last.
pub proof fn lemma_items_in_creation_order(
    s: StoreModel,
    list_id: i32,
    x: Seq<char>,
    y: Seq<char>,
    s1: StoreModel,
    ix: TodoItemView,
    s2: StoreModel,
    iy: TodoItemView,
    rows: Seq<PgRow>,
)
    requires
        s.wf(),
        s.insert_item(list_id, x) == Some((s1, ix)),
        s1.insert_item(list_id, y) == Some((s2, iy)),
        rows_hold_items(rows, s2.select_items(list_id)),
    ensures
        many_items(Ok(rows)) matches Ok(v) && v.len() >= 2 && v[v.len() - 2] == ix && v[v.len()
            - 1] == iy,
        ix.title == x,
        iy.title == y,
        ix.id < iy.id,
{
    let p = item_in_list(list_id);
    reveal(Seq::filter);
    assert(s2.items.drop_last() =~= s1.items);
    assert(s1.items.drop_last() =~= s.items);
    assert(s2.items.filter(p) == s1.items.filter(p).push(iy));
    assert(s1.items.filter(p) == s.items.filter(p).push(ix));
    lemma_rows_hold_items(rows, s2.select_items(list_id));
}

/// Creating a list titled `t` where none is yet returns a row with a fresh id,
/// and listing afterwards shows exactly one list titled `t`: that row, first.
pub proof fn lemma_created_list_listed_once(
    s: StoreModel,
    t: Seq<char>,
    s1: StoreModel,
    l: TodoListView,
    created: Seq<PgRow>,
    listed: Seq<PgRow>,
)
    requires
        s.wf(),
        forall|i: int| 0 <= i < s.lists.len() ==> s.lists[i].title != t,
        s.insert_list(t) == Some((s1, l)),
        rows_hold_lists(created, seq![l]),
        rows_hold_lists(listed, s1.select_lists()),
    ensures
        one_list(Ok(created), create_list_failed()) == Ok::<TodoListView, AppErrorView>(l),
        l.title == t,
        forall|i: int| 0 <= i < s.lists.len() ==> s.lists[i].id != l.id,
        many_lists(Ok(listed)) matches Ok(v) && v.len() >= 1 && v[0] == l && forall|j: int|
            0 <= j < v.len() && v[j].title == t ==> j == 0,
{
    lemma_rows_hold_lists(created, seq![l]);
    lemma_rows_hold_lists(listed, s1.select_lists());
    let v = s1.select_lists();
    assert(v[0] == l);
    assert forall|j: int| 0 <= j < v.len() && v[j].title == t implies j == 0 by {
        if j != 0 {
            assert(v[j] == s.lists[s.lists.len() - j]);
        }
    }
}

/// Deleting a list by an id that no list has returns no row, which the data
/// access layer answers with a database error (status 500, curated message).
pub proof fn lemma_delete_missing_list_fails(s: StoreModel, id: i32)
    requires
        s.wf(),
        !s.has_list(id),
    ensures
        s.delete_list(id) matches Some((_, returned)) && returned.len() == 0,
        one_list(Ok(Seq::<PgRow>::empty()), delete_list_failed()) == Err::<
            TodoListView,
            AppErrorView,
        >(db_failure_of(delete_list_failed())),
        db_failure_of(delete_list_failed()).status_code() == STATUS_INTERNAL_SERVER_ERROR,
        db_failure_of(delete_list_failed()).client_message() == delete_list_failed(),
{
    assert(!exists|j: int| 0 <= j < s.items.len() && s.items[j].list_id == id) by {
        if exists|j: int| 0 <= j < s.items.len() && s.items[j].list_id == id {
            let j = choose|j: int| 0 <= j < s.items.len() && s.items[j].list_id == id;
            assert(s.has_list(s.items[j].list_id));
        }
    }
    lemma_filter_lists(s.lists, list_has_id(id));
    let returned = s.lists.filter(list_has_id(id));
    if returned.len() > 0 {
        assert(s.lists.contains(returned[0]));
    }
    lemma_rows_hold_lists(Seq::<PgRow>::empty(), Seq::<TodoListView>::empty());
}

/// Flipping an item's flag in every row maps and then filters by id as it
/// filters and then maps.
proof fn lemma_toggle_commutes(s: Seq<TodoItemView>, id: i32)
    ensures
        s.map_values(flipped_if(id)).filter(item_has_id(id)) == s.filter(item_has_id(id)).map_values(
            flipped_if(id),
        ),
    decreases s.len(),
{
    reveal(Seq::filter);
    let f = flipped_if(id);
    let p = item_has_id(id);
    if s.len() > 0 {
        lemma_toggle_commutes(s.drop_last(), id);
        assert(s.map_values(f).drop_last() =~= s.drop_last().map_values(f));
        if p(s.last()) {
            assert(s.drop_last().filter(p).push(s.last()).map_values(f) =~= s.drop_last().filter(
                p,
            ).map_values(f).push(f(s.last())));
        }
    } else {
        assert(s.map_values(f) =~= s);
    }
    assert(s.map_values(f).filter(p) =~= s.filter(p).map_values(f));
}

/// Toggling an item twice leaves the store as it was; the second toggle
/// returns the item as it was before the first, the first returns it flipped.
pub proof fn lemma_toggle_twice(s: StoreModel, id: i32, first: Seq<PgRow>, second: Seq<PgRow>)
    requires
        s.wf(),
        rows_hold_items(first, s.toggle_item(id).1),
        rows_hold_items(second, s.toggle_item(id).0.toggle_item(id).1),
    ensures
        s.toggle_item(id).0.toggle_item(id).0 == s,
        forall|k: int|
            0 <= k < s.items.len() && s.items[k].id == id ==> {
                &&& one_item(Ok(first), crate::db::check_item_failed()) == Ok::<
                    TodoItemView,
                    AppErrorView,
                >(flipped(s.items[k]))
                &&& one_item(Ok(second), crate::db::check_item_failed()) == Ok::<
                    TodoItemView,
                    AppErrorView,
                >(s.items[k])
            },
{
    let f = flipped_if(id);
    let p = item_has_id(id);
    let t1 = s.toggle_item(id).0;
    assert(t1.items.map_values(f) =~= s.items);
    assert(t1.toggle_item(id).0 == s);
    lemma_toggle_commutes(s.items, id);
    let found = s.items.filter(p);
    assert(found.map_values(f).map_values(f) =~= found);
    lemma_rows_hold_items(first, found.map_values(f));
    lemma_rows_hold_items(second, found);
    lemma_filter_items(s.items, p);
    assert forall|k: int| 0 <= k < s.items.len() && s.items[k].id == id implies found =~= seq![
        s.items[k],
    ] by {
        s.items.lemma_filter_contains(p, k);
        let m = choose|m: int| 0 <= m < found.len() && found[m] == s.items[k];
        assert forall|i: int| 0 <= i < found.len() implies found[i] == s.items[k] by {
            assert(s.items.contains(found[i]));
            let q = choose|q: int| 0 <= q < s.items.len() && s.items[q] == found[i];
            assert(q == k);
        }
        if found.len() > 1 {
            assert(found[0].id < found[1].id);
        }
    }
}

/// Creating an item under a list id that no list has fails in the store (its
/// foreign key), and the data access layer passes that failure on as a
/// database error (status 500).
pub proof fn lemma_orphan_item_refused(
    s: StoreModel,
    list_id: i32,
    title: Seq<char>,
    cause: Seq<char>,
)
    requires
        !s.has_list(list_id),
    ensures
        s.insert_item(list_id, title) is None,
        one_item(Err(cause), create_item_failed()) == Err::<TodoItemView, AppErrorView>(
            db_error_of(cause),
        ),
        db_error_of(cause).status_code() == STATUS_INTERNAL_SERVER_ERROR,
{
}

} // verus!
