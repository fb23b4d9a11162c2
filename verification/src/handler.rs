//! The six request operations. Each takes the decoded request and the store
//! and returns the status code and payload of the reply.

use vstd::prelude::*;
use crate::clock::current_time;
use crate::ident::{id_text, id_to_string, is_random_id, random_id};
use crate::model::{QueryOptions, Timestamp, Todo, TodoView, UpdateTodoSchema, UpdateView};
use crate::response::{
    conflict, conflict_message, health_message, is_failure, is_success, not_found,
    not_found_message, success, GenericResponse, SingleTodoResponse, TodoListResponse,
    STATUS_CONFLICT, STATUS_CREATED, STATUS_NOT_FOUND, STATUS_NO_CONTENT, STATUS_OK,
};
use crate::store::{
    has_id, has_title, index_of_id, merged, page_of, stored_new, todo_views, TodoStore,
};

verus! {

/// The page that a list request asks for: the first where it names none.
pub open spec fn page_number(opts: Option<QueryOptions>) -> int {
    match opts {
        Some(QueryOptions { page: Some(p), .. }) => p as int,
        _ => 1,
    }
}

/// The number of records on a page of a list request: 10 where it names none.
pub open spec fn page_limit(opts: Option<QueryOptions>) -> int {
    match opts {
        Some(QueryOptions { limit: Some(l), .. }) => l as int,
        _ => 10,
    }
}

/// What a fetch of `id` from the store `s` replies: the first record with
/// that identifier, or that there is none.
pub open spec fn fetch_outcome(
    s: Seq<TodoView>,
    id: u128,
    r: Result<(u16, SingleTodoResponse), (u16, GenericResponse)>,
) -> bool {
    match r {
        Ok(reply) => has_id(s, id_text(id)) && is_success(
            reply,
            STATUS_OK,
            s[index_of_id(s, id_text(id))],
        ),
        Err(reply) => !has_id(s, id_text(id)) && is_failure(
            reply,
            STATUS_NOT_FOUND,
            not_found_message(id_text(id)),
        ),
    }
}

/// What a creation request `body` does to the store `s`, which becomes `s2`,
/// and replies, where the new record would get the identifier `id` and the
/// time `now`: where a record of `s` has the title already, the store stays
/// as it is and the failure names the title; else the new record is appended
/// and returned.
pub open spec fn create_outcome(
    s: Seq<TodoView>,
    body: TodoView,
    id: u128,
    now: Timestamp,
    s2: Seq<TodoView>,
    r: Result<(u16, SingleTodoResponse), (u16, GenericResponse)>,
) -> bool {
    if has_title(s, body.title) {
        &&& s2 == s
        &&& r matches Err(reply)
        &&& is_failure(reply, STATUS_CONFLICT, conflict_message(body.title))
    } else {
        &&& s2 == s.push(stored_new(body, id_text(id), now))
        &&& r matches Ok(reply)
        &&& is_success(reply, STATUS_CREATED, stored_new(body, id_text(id), now))
    }
}

/// What an update `patch` of `id` at the time `now` does to the store `s`,
/// which becomes `s2`, and replies: the first record with that identifier is
/// replaced by the merged one, which is returned; where there is none, the
/// store stays as it is.
pub open spec fn edit_outcome(
    s: Seq<TodoView>,
    id: u128,
    patch: UpdateView,
    now: Timestamp,
    s2: Seq<TodoView>,
    r: Result<(u16, SingleTodoResponse), (u16, GenericResponse)>,
) -> bool {
    if has_id(s, id_text(id)) {
        let i = index_of_id(s, id_text(id));
        &&& s2 == s.update(i, merged(s[i], patch, now))
        &&& r matches Ok(reply)
        &&& is_success(reply, STATUS_OK, merged(s[i], patch, now))
    } else {
        &&& s2 == s
        &&& r matches Err(reply)
        &&& is_failure(reply, STATUS_NOT_FOUND, not_found_message(id_text(id)))
    }
}

/// What a deletion of `id` does to the store `s`, which becomes `s2`, and
/// replies: the first record with that identifier leaves and the others keep
/// their order; where there is none, the store stays as it is.
pub open spec fn delete_outcome(
    s: Seq<TodoView>,
    id: u128,
    s2: Seq<TodoView>,
    r: Result<u16, (u16, GenericResponse)>,
) -> bool {
    if has_id(s, id_text(id)) {
        &&& s2 == s.remove(index_of_id(s, id_text(id)))
        &&& r == Ok::<u16, (u16, GenericResponse)>(STATUS_NO_CONTENT)
    } else {
        &&& s2 == s
        &&& r matches Err(reply)
        &&& is_failure(reply, STATUS_NOT_FOUND, not_found_message(id_text(id)))
    }
}

/// The liveness reply: a fixed message, whatever the store holds.
pub fn health_checker_handler() -> (r: GenericResponse)
    ensures
        r.status@ == "success"@,
        r.message@ == health_message(),
{
    GenericResponse {
        status: String::from_str("success"),
        message: String::from_str("Build Simple CRUD API in Rust using Axum"),
    }
}

/// Lists one page of the store, in the order in which the records were
/// created. Pages are counted from 1.
pub fn todos_list_handler(opts: Option<QueryOptions>, db: &TodoStore) -> (r: TodoListResponse)
    requires
        page_number(opts) >= 1,
    ensures
        r.status@ == "success"@,
        todo_views(r.todos@) == page_of(db@, page_number(opts), page_limit(opts)),
        r.results == r.todos@.len(),
        r.results == page_of(db@, page_number(opts), page_limit(opts)).len(),
{
    let opts = match opts {
        Some(o) => o,
        None => QueryOptions { page: None, limit: None },
    };
    let limit: usize = match opts.limit {
        Some(l) => l,
        None => 10,
    };
    let page: usize = match opts.page {
        Some(p) => p,
        None => 1,
    };
    let todos = db.page(page, limit);
    TodoListResponse { status: String::from_str("success"), results: todos.len(), todos }
}

/// Creates a record from `body` with the identifier `id` at the time `now`,
/// unless a record with the same title exists.
pub fn create_todo_with(db: &mut TodoStore, body: Todo, id: u128, now: Timestamp) -> (r: Result<
    (u16, SingleTodoResponse),
    (u16, GenericResponse),
>)
    requires
        old(db).wf(),
    ensures
        final(db).wf(),
        create_outcome(old(db)@, body@, id, now, final(db)@, r),
{
    if db.contains_title(&body.title) {
        return Err(conflict(&body.title));
    }
    let todo = db.append(body, id_to_string(id), now);
    Ok(success(STATUS_CREATED, todo))
}

/// Creates a record from `body`, with a fresh random identifier and the
/// current time, unless a record with the same title exists. Neither the
/// random source nor the clock is asked where the title exists already.
pub fn create_todo_handler(db: &mut TodoStore, body: Todo) -> (r: Result<
    (u16, SingleTodoResponse),
    (u16, GenericResponse),
>)
    requires
        old(db).wf(),
    ensures
        final(db).wf(),
        has_title(old(db)@, body.title@) ==> {
            &&& final(db)@ == old(db)@
            &&& r matches Err(reply)
            &&& is_failure(reply, STATUS_CONFLICT, conflict_message(body.title@))
        },
        !has_title(old(db)@, body.title@) ==> exists|id: u128, now: Timestamp|
            is_random_id(id) && #[trigger] create_outcome(
                old(db)@,
                body@,
                id,
                now,
                final(db)@,
                r,
            ),
{
    if db.contains_title(&body.title) {
        return Err(conflict(&body.title));
    }
    let id = random_id();
    let now = current_time();
    let todo = db.append(body, id_to_string(id), now);
    let r = Ok(success(STATUS_CREATED, todo));
    assert(create_outcome(old(db)@, body@, id, now, db@, r));
    r
}

/// Fetches the record with the identifier `id`.
pub fn get_todo_handler(id: u128, db: &TodoStore) -> (r: Result<
    (u16, SingleTodoResponse),
    (u16, GenericResponse),
>)
    ensures
        fetch_outcome(db@, id, r),
{
    let id = id_to_string(id);
    match db.position_of_id(&id) {
        Some(i) => Ok(success(STATUS_OK, db.record(i))),
        None => Err(not_found(&id)),
    }
}

/// Applies the update `body` to the record with the identifier `id` at the
/// time `now`.
pub fn edit_todo_at(id: u128, db: &mut TodoStore, body: &UpdateTodoSchema, now: Timestamp) -> (r:
    Result<(u16, SingleTodoResponse), (u16, GenericResponse)>)
    requires
        old(db).wf(),
    ensures
        final(db).wf(),
        edit_outcome(old(db)@, id, body@, now, final(db)@, r),
{
    let text = id_to_string(id);
    match db.position_of_id(&text) {
        Some(i) => Ok(success(STATUS_OK, db.merge_at(i, body, now))),
        None => Err(not_found(&text)),
    }
}

/// Applies the update `body` to the record with the identifier `id`, at the
/// current time. The clock is not asked where no record has the identifier.
pub fn edit_todo_handler(id: u128, db: &mut TodoStore, body: UpdateTodoSchema) -> (r: Result<
    (u16, SingleTodoResponse),
    (u16, GenericResponse),
>)
    requires
        old(db).wf(),
    ensures
        final(db).wf(),
        !has_id(old(db)@, id_text(id)) ==> {
            &&& final(db)@ == old(db)@
            &&& r matches Err(reply)
            &&& is_failure(reply, STATUS_NOT_FOUND, not_found_message(id_text(id)))
        },
        has_id(old(db)@, id_text(id)) ==> exists|now: Timestamp| #[trigger]
            edit_outcome(old(db)@, id, body@, now, final(db)@, r),
{
    let text = id_to_string(id);
    match db.position_of_id(&text) {
        Some(i) => {
            let now = current_time();
            let r = Ok(success(STATUS_OK, db.merge_at(i, &body, now)));
            assert(edit_outcome(old(db)@, id, body@, now, db@, r));
            r
        },
        None => Err(not_found(&text)),
    }
}

/// Removes the record with the identifier `id`.
pub fn delete_todo_handler(id: u128, db: &mut TodoStore) -> (r: Result<u16, (u16, GenericResponse)>)
    requires
        old(db).wf(),
    ensures
        final(db).wf(),
        delete_outcome(old(db)@, id, final(db)@, r),
{
    let text = id_to_string(id);
    match db.position_of_id(&text) {
        Some(i) => {
            db.remove_at(i);
            Ok(STATUS_NO_CONTENT)
        },
        None => Err(not_found(&text)),
    }
}

} // verus!
