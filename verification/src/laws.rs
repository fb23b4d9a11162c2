//! What holds of the request operations across calls, stated over the
//! outcomes that the operations' contracts promise.

use vstd::prelude::*;
use crate::handler::{create_outcome, delete_outcome, edit_outcome, fetch_outcome};
use crate::ident::{id_text, lemma_id_text_injective};
use crate::model::{Timestamp, TodoView, UpdateView};
use crate::response::{
    not_found_message, GenericResponse, SingleTodoResponse, STATUS_CONFLICT, STATUS_CREATED,
    STATUS_NOT_FOUND, STATUS_OK,
};
use crate::store::{
    all_stored, distinct_ids, has_id, has_title, index_of_id, is_first_with_id,
    lemma_has_id_has_first, lemma_index_of_id, merged, page_of,
};

verus! {

/// Two replies that carry a record say the same: the same status code, the
/// same status text and the same record.
pub open spec fn same_success(a: (u16, SingleTodoResponse), b: (u16, SingleTodoResponse)) -> bool {
    a.0 == b.0 && a.1.status@ == b.1.status@ && a.1.data.todo@ == b.1.data.todo@
}

/// Two failures say the same: the same status code, status text and message.
pub open spec fn same_failure(a: (u16, GenericResponse), b: (u16, GenericResponse)) -> bool {
    a.0 == b.0 && a.1.status@ == b.1.status@ && a.1.message@ == b.1.message@
}

/// `text` stands somewhere in `message`.
pub open spec fn names(message: Seq<char>, text: Seq<char>) -> bool {
    exists|k: int|
        0 <= k && k + text.len() <= message.len() && #[trigger] message.subrange(
            k,
            k + text.len(),
        ) == text
}

/// No two records of `s` share a title.
pub open spec fn distinct_titles(s: Seq<TodoView>) -> bool {
    forall|i: int, j: int|
        0 <= i < j < s.len() ==> (#[trigger] s[i]).title != (#[trigger] s[j]).title
}

/// Every record of `s` was last updated no earlier than it was created.
pub open spec fn time_ordered(s: Seq<TodoView>) -> bool {
    forall|i: int|
        0 <= i < s.len() ==> ((#[trigger] s[i]).created_at->0).le(s[i].updated_at->0)
}

/// A page is a window on the store: with `limit` records to a page, page
/// `page` holds the records from position `(page - 1) * limit` on, in their
/// order, as many as the store has from there, and `limit` at most.
pub proof fn page_is_a_window(s: Seq<TodoView>, page: int, limit: int)
    requires
        page >= 1,
        limit >= 0,
    ensures
        ({
            let offset = (page - 1) * limit;
            let window = page_of(s, page, limit);
            &&& window.len() <= limit
            &&& offset >= s.len() ==> window.len() == 0
            &&& offset + limit <= s.len() ==> window.len() == limit
            &&& offset < s.len() < offset + limit ==> window.len() == s.len() - offset
            &&& forall|k: int| 0 <= k < window.len() ==> #[trigger] window[k] == s[offset + k]
        }),
{
    assert((page - 1) * limit >= 0) by (nonlinear_arith)
        requires
            page >= 1,
            limit >= 0,
    ;
}

/// A fetch depends on the store and the identifier alone: as long as the
/// store holds the same records, every fetch of an identifier replies the
/// same, however often it is made.
pub proof fn fetch_is_repeatable(
    s: Seq<TodoView>,
    id: u128,
    first: Result<(u16, SingleTodoResponse), (u16, GenericResponse)>,
    second: Result<(u16, SingleTodoResponse), (u16, GenericResponse)>,
)
    requires
        fetch_outcome(s, id, first),
        fetch_outcome(s, id, second),
    ensures
        match (first, second) {
            (Ok(a), Ok(b)) => same_success(a, b),
            (Err(a), Err(b)) => same_failure(a, b),
            _ => false,
        },
{
}

/// A fetch after an update of the same identifier replies the record that
/// the update returned: the record as it was, merged with the update.
pub proof fn fetch_after_edit(
    s: Seq<TodoView>,
    id: u128,
    patch: UpdateView,
    now: Timestamp,
    s2: Seq<TodoView>,
    edited: Result<(u16, SingleTodoResponse), (u16, GenericResponse)>,
    fetched: Result<(u16, SingleTodoResponse), (u16, GenericResponse)>,
)
    requires
        has_id(s, id_text(id)),
        edit_outcome(s, id, patch, now, s2, edited),
        fetch_outcome(s2, id, fetched),
    ensures
        edited matches Ok(a) && fetched matches Ok(b) && same_success(a, b),
        fetched matches Ok(b) && b.1.data.todo@ == merged(
            s[index_of_id(s, id_text(id))],
            patch,
            now,
        ),
{
    let t = id_text(id);
    let i = index_of_id(s, t);
    lemma_has_id_has_first(s, t);
    assert(is_first_with_id(s2, t, i)) by {
        assert forall|j: int| 0 <= j < i implies (#[trigger] s2[j]).id != Some(t) by {
            assert(s2[j] == s[j]);
        }
    }
    lemma_index_of_id(s2, t, i);
}

/// A fetch is not affected by the update of a record with another
/// identifier: it replies the same before and after.
pub proof fn fetch_ignores_edit_of_other(
    s: Seq<TodoView>,
    id: u128,
    other: u128,
    patch: UpdateView,
    now: Timestamp,
    s2: Seq<TodoView>,
    edited: Result<(u16, SingleTodoResponse), (u16, GenericResponse)>,
    before: Result<(u16, SingleTodoResponse), (u16, GenericResponse)>,
    after: Result<(u16, SingleTodoResponse), (u16, GenericResponse)>,
)
    requires
        other != id,
        edit_outcome(s, other, patch, now, s2, edited),
        fetch_outcome(s, id, before),
        fetch_outcome(s2, id, after),
    ensures
        match (before, after) {
            (Ok(a), Ok(b)) => same_success(a, b),
            (Err(a), Err(b)) => same_failure(a, b),
            _ => false,
        },
{
    let t = id_text(id);
    let u = id_text(other);
    assert(u != t) by {
        if u == t {
            lemma_id_text_injective(other, id);
        }
    }
    if has_id(s, u) {
        let k = index_of_id(s, u);
        lemma_has_id_has_first(s, u);
        assert(s2.len() == s.len());
        assert forall|j: int| 0 <= j < s.len() implies (#[trigger] s2[j]).id == s[j].id by {}
        if has_id(s, t) {
            let i = index_of_id(s, t);
            lemma_has_id_has_first(s, t);
            assert(i != k);
            assert(is_first_with_id(s2, t, i)) by {
                assert forall|j: int| 0 <= j < i implies (#[trigger] s2[j]).id != Some(t) by {
                    assert(s2[j].id == s[j].id);
                }
            }
            lemma_index_of_id(s2, t, i);
            assert(s2[i] == s[i]);
        } else {
            if has_id(s2, t) {
                let w = choose|w: int| 0 <= w < s2.len() && (#[trigger] s2[w]).id == Some(t);
                assert(s[w].id == Some(t));
            }
        }
    }
}

/// Of two creation requests with the same title, made one after the other
/// on a store in which no record has that title, the first succeeds and the
/// second is refused as a conflict and leaves the store as the first left
/// it. The two requests may be taken in either order.
pub proof fn create_twice_same_title(
    s: Seq<TodoView>,
    first: TodoView,
    second: TodoView,
    id1: u128,
    now1: Timestamp,
    id2: u128,
    now2: Timestamp,
    s1: Seq<TodoView>,
    r1: Result<(u16, SingleTodoResponse), (u16, GenericResponse)>,
    s2: Seq<TodoView>,
    r2: Result<(u16, SingleTodoResponse), (u16, GenericResponse)>,
)
    requires
        first.title == second.title,
        !has_title(s, first.title),
        create_outcome(s, first, id1, now1, s1, r1),
        create_outcome(s1, second, id2, now2, s2, r2),
    ensures
        r1 matches Ok(a) && a.0 == STATUS_CREATED,
        r2 matches Err(b) && b.0 == STATUS_CONFLICT,
        s2 == s1,
        s1.len() == s.len() + 1,
{
    assert(s1[s.len() as int].title == second.title);
}

/// A creation request keeps the titles of the store distinct.
pub proof fn create_keeps_titles_distinct(
    s: Seq<TodoView>,
    body: TodoView,
    id: u128,
    now: Timestamp,
    s2: Seq<TodoView>,
    r: Result<(u16, SingleTodoResponse), (u16, GenericResponse)>,
)
    requires
        distinct_titles(s),
        create_outcome(s, body, id, now, s2, r),
    ensures
        distinct_titles(s2),
{
    if !has_title(s, body.title) {
        assert forall|i: int, j: int| 0 <= i < j < s2.len() implies (#[trigger] s2[i]).title != (
        #[trigger] s2[j]).title by {
            if j < s.len() {
                assert(s2[i] == s[i] && s2[j] == s[j]);
            } else {
                assert(s2[i] == s[i]);
                assert(s2[j].title == body.title);
            }
        }
    }
}

/// A creation request keeps the identifiers of the store distinct, provided
/// that no record has the new identifier yet.
pub proof fn create_keeps_ids_distinct(
    s: Seq<TodoView>,
    body: TodoView,
    id: u128,
    now: Timestamp,
    s2: Seq<TodoView>,
    r: Result<(u16, SingleTodoResponse), (u16, GenericResponse)>,
)
    requires
        distinct_ids(s),
        !has_id(s, id_text(id)),
        create_outcome(s, body, id, now, s2, r),
    ensures
        distinct_ids(s2),
{
    if !has_title(s, body.title) {
        assert forall|i: int, j: int| 0 <= i < j < s2.len() implies (#[trigger] s2[i]).id != (
        #[trigger] s2[j]).id by {
            if j < s.len() {
                assert(s2[i] == s[i] && s2[j] == s[j]);
            } else {
                assert(s2[i] == s[i]);
                assert(s2[j].id == Some(id_text(id)));
            }
        }
    }
}

/// An update that names only a completion flag leaves the record's title and
/// content as they were, as well as its identifier and creation time, and
/// sets the flag. Where the time of the update is not earlier than the
/// record's last update, the new update time is not earlier either.
pub proof fn edit_completed_only(
    s: Seq<TodoView>,
    id: u128,
    completed: bool,
    now: Timestamp,
    s2: Seq<TodoView>,
    r: Result<(u16, SingleTodoResponse), (u16, GenericResponse)>,
)
    requires
        all_stored(s),
        has_id(s, id_text(id)),
        (s[index_of_id(s, id_text(id))].updated_at->0).le(now),
        edit_outcome(
            s,
            id,
            UpdateView { title: None, content: None, completed: Some(completed) },
            now,
            s2,
            r,
        ),
    ensures
        r matches Ok(reply) && ({
            let before = s[index_of_id(s, id_text(id))];
            let after = reply.1.data.todo@;
            &&& reply.0 == STATUS_OK
            &&& after.id == before.id
            &&& after.title == before.title
            &&& after.content == before.content
            &&& after.completed == Some(completed)
            &&& after.created_at == before.created_at
            &&& after.updated_at is Some
            &&& (before.updated_at->0).le(after.updated_at->0)
            &&& s2[index_of_id(s, id_text(id))] == after
        }),
{
    lemma_has_id_has_first(s, id_text(id));
}

/// An update keeps every record as the store holds it, keeps the
/// identifiers distinct, and changes no record but the one it names.
pub proof fn edit_keeps_ids_distinct(
    s: Seq<TodoView>,
    id: u128,
    patch: UpdateView,
    now: Timestamp,
    s2: Seq<TodoView>,
    r: Result<(u16, SingleTodoResponse), (u16, GenericResponse)>,
)
    requires
        distinct_ids(s),
        edit_outcome(s, id, patch, now, s2, r),
    ensures
        distinct_ids(s2),
        s2.len() == s.len(),
        forall|j: int|
            0 <= j < s.len() && !is_first_with_id(s, id_text(id), j) ==> #[trigger] s2[j] == s[j],
{
    let t = id_text(id);
    if has_id(s, t) {
        lemma_has_id_has_first(s, t);
        assert forall|i: int, j: int| 0 <= i < j < s2.len() implies (#[trigger] s2[i]).id != (
        #[trigger] s2[j]).id by {
            assert(s2[i].id == s[i].id && s2[j].id == s[j].id);
        }
        assert forall|j: int|
            0 <= j < s.len() && !is_first_with_id(s, t, j) implies #[trigger] s2[j] == s[j] by {
            lemma_first_is_index(s, t, j);
        }
    }
}

/// An update keeps every record's update time no earlier than its creation
/// time, provided that the time of the update is not earlier than the
/// creation time of the record it names.
pub proof fn edit_keeps_time_order(
    s: Seq<TodoView>,
    id: u128,
    patch: UpdateView,
    now: Timestamp,
    s2: Seq<TodoView>,
    r: Result<(u16, SingleTodoResponse), (u16, GenericResponse)>,
)
    requires
        time_ordered(s),
        has_id(s, id_text(id)) ==> (s[index_of_id(s, id_text(id))].created_at->0).le(now),
        edit_outcome(s, id, patch, now, s2, r),
    ensures
        time_ordered(s2),
{
    let t = id_text(id);
    if has_id(s, t) {
        lemma_has_id_has_first(s, t);
        let i = index_of_id(s, t);
        assert forall|j: int| 0 <= j < s2.len() implies ((#[trigger] s2[j]).created_at->0).le(
            s2[j].updated_at->0,
        ) by {
            if j != i {
                assert(s2[j] == s[j]);
            }
        }
    }
}

/// A creation request keeps every record's update time no earlier than its
/// creation time: the new record has one time for both.
pub proof fn create_keeps_time_order(
    s: Seq<TodoView>,
    body: TodoView,
    id: u128,
    now: Timestamp,
    s2: Seq<TodoView>,
    r: Result<(u16, SingleTodoResponse), (u16, GenericResponse)>,
)
    requires
        time_ordered(s),
        create_outcome(s, body, id, now, s2, r),
    ensures
        time_ordered(s2),
{
    if !has_title(s, body.title) {
        assert forall|j: int| 0 <= j < s2.len() implies ((#[trigger] s2[j]).created_at->0).le(
            s2[j].updated_at->0,
        ) by {
            if j < s.len() {
                assert(s2[j] == s[j]);
            }
        }
    }
}

/// After the deletion of an identifier, in a store whose identifiers are
/// distinct, a fetch of that identifier finds nothing.
pub proof fn fetch_after_delete(
    s: Seq<TodoView>,
    id: u128,
    s2: Seq<TodoView>,
    deleted: Result<u16, (u16, GenericResponse)>,
    fetched: Result<(u16, SingleTodoResponse), (u16, GenericResponse)>,
)
    requires
        distinct_ids(s),
        delete_outcome(s, id, s2, deleted),
        fetch_outcome(s2, id, fetched),
    ensures
        !has_id(s2, id_text(id)),
        fetched matches Err(reply) && reply.0 == STATUS_NOT_FOUND,
{
    delete_removes_id(s, id, s2, deleted);
}

/// A deletion leaves no record with the identifier it names, in a store
/// whose identifiers are distinct; it keeps the identifiers distinct, and
/// the other records stay, in their order.
pub proof fn delete_removes_id(
    s: Seq<TodoView>,
    id: u128,
    s2: Seq<TodoView>,
    r: Result<u16, (u16, GenericResponse)>,
)
    requires
        distinct_ids(s),
        delete_outcome(s, id, s2, r),
    ensures
        !has_id(s2, id_text(id)),
        distinct_ids(s2),
        r is Ok <==> has_id(s, id_text(id)),
        r is Ok ==> s2.len() + 1 == s.len(),
{
    let t = id_text(id);
    if has_id(s, t) {
        lemma_has_id_has_first(s, t);
        let i = index_of_id(s, t);
        assert forall|k: int| 0 <= k < s2.len() implies (#[trigger] s2[k]).id != Some(t) by {
            if k < i {
                assert(s2[k] == s[k]);
            } else {
                assert(s2[k] == s[k + 1]);
                assert(s[i].id != s[k + 1].id);
            }
        }
        assert forall|a: int, b: int| 0 <= a < b < s2.len() implies (#[trigger] s2[a]).id != (
        #[trigger] s2[b]).id by {
            let a0 = if a < i { a } else { a + 1 };
            let b0 = if b < i { b } else { b + 1 };
            assert(s2[a] == s[a0] && s2[b] == s[b0]);
            assert(s[a0].id != s[b0].id);
        }
    }
}

/// The message of a failed lookup holds the text of the identifier that was
/// asked for.
pub proof fn not_found_message_names_id(id: Seq<char>)
    ensures
        names(not_found_message(id), id),
{
    reveal_strlit("Todo with ID: ");
    let m = not_found_message(id);
    assert(m.subrange(14, 14 + id.len() as int) =~= id);
}

/// A fetch, an update and a deletion of an identifier that no record has
/// all fail with the status "not found" and a message that holds the text
/// of the identifier, and the update and the deletion leave the store as it
/// is.
pub proof fn absent_id_is_named(
    s: Seq<TodoView>,
    id: u128,
    patch: UpdateView,
    now: Timestamp,
    fetched: Result<(u16, SingleTodoResponse), (u16, GenericResponse)>,
    s_edit: Seq<TodoView>,
    edited: Result<(u16, SingleTodoResponse), (u16, GenericResponse)>,
    s_delete: Seq<TodoView>,
    deleted: Result<u16, (u16, GenericResponse)>,
)
    requires
        !has_id(s, id_text(id)),
        fetch_outcome(s, id, fetched),
        edit_outcome(s, id, patch, now, s_edit, edited),
        delete_outcome(s, id, s_delete, deleted),
    ensures
        fetched matches Err(a) && a.0 == STATUS_NOT_FOUND && names(a.1.message@, id_text(id)),
        edited matches Err(b) && b.0 == STATUS_NOT_FOUND && names(b.1.message@, id_text(id)),
        deleted matches Err(c) && c.0 == STATUS_NOT_FOUND && names(c.1.message@, id_text(id)),
        s_edit == s,
        s_delete == s,
{
    not_found_message_names_id(id_text(id));
}

proof fn lemma_first_is_index(s: Seq<TodoView>, t: Seq<char>, j: int)
    requires
        has_id(s, t),
    ensures
        is_first_with_id(s, t, j) <==> j == index_of_id(s, t),
{
    lemma_has_id_has_first(s, t);
    if is_first_with_id(s, t, j) {
        lemma_index_of_id(s, t, j);
    }
}

} // verus!
