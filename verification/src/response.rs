//! The payloads of the service's replies and its status codes.

use vstd::prelude::*;
use crate::model::{Todo, TodoView};

verus! {

/// The request succeeded.
pub const STATUS_OK: u16 = 200;

/// The request succeeded and a record was created.
pub const STATUS_CREATED: u16 = 201;

/// The request succeeded and the reply has no content.
pub const STATUS_NO_CONTENT: u16 = 204;

/// No record has the requested identifier.
pub const STATUS_NOT_FOUND: u16 = 404;

/// A record with the requested title exists already.
pub const STATUS_CONFLICT: u16 = 409;

/// A reply that carries a message only: the liveness reply and every
/// failure.
#[derive(Debug, PartialEq, Eq)]
pub struct GenericResponse {
    pub status: String,
    pub message: String,
}

/// The data of a reply that carries one record.
#[derive(Debug, PartialEq, Eq)]
pub struct TodoData {
    pub todo: Todo,
}

/// A successful reply that carries one record.
#[derive(Debug, PartialEq, Eq)]
pub struct SingleTodoResponse {
    pub status: String,
    pub data: TodoData,
}

/// A successful reply that carries a page of records and their number.
#[derive(Debug, PartialEq, Eq)]
pub struct TodoListResponse {
    pub status: String,
    pub results: usize,
    pub todos: Vec<Todo>,
}

/// The message of the liveness reply.
pub open spec fn health_message() -> Seq<char> {
    "Build Simple CRUD API in Rust using Axum"@
}

/// The message of a failed creation: it names the title that exists already.
pub open spec fn conflict_message(title: Seq<char>) -> Seq<char> {
    "Todo with title: '"@ + title + "' already exists"@
}

/// The message of a failed lookup: it names the identifier asked for.
pub open spec fn not_found_message(id: Seq<char>) -> Seq<char> {
    "Todo with ID: "@ + id + " not found"@
}

/// `reply` is the failure with the status code `code` and the message
/// `message`.
pub open spec fn is_failure(reply: (u16, GenericResponse), code: u16, message: Seq<char>) -> bool {
    &&& reply.0 == code
    &&& reply.1.status@ == "fail"@
    &&& reply.1.message@ == message
}

/// `reply` is the success with the status code `code` that carries the
/// record `todo`.
pub open spec fn is_success(reply: (u16, SingleTodoResponse), code: u16, todo: TodoView) -> bool {
    &&& reply.0 == code
    &&& reply.1.status@ == "success"@
    &&& reply.1.data.todo@ == todo
}

/// The failure for a creation request whose title exists already.
pub fn conflict(title: &String) -> (reply: (u16, GenericResponse))
    ensures
        is_failure(reply, STATUS_CONFLICT, conflict_message(title@)),
{
    let mut message = String::from_str("Todo with title: '");
    message.append(title.as_str());
    message.append("' already exists");
    (STATUS_CONFLICT, GenericResponse { status: String::from_str("fail"), message })
}

/// The failure for a request that names an identifier which no record has.
pub fn not_found(id: &String) -> (reply: (u16, GenericResponse))
    ensures
        is_failure(reply, STATUS_NOT_FOUND, not_found_message(id@)),
{
    let mut message = String::from_str("Todo with ID: ");
    message.append(id.as_str());
    message.append(" not found");
    (STATUS_NOT_FOUND, GenericResponse { status: String::from_str("fail"), message })
}

/// The success with the status code `code` that carries the record `todo`.
pub fn success(code: u16, todo: Todo) -> (reply: (u16, SingleTodoResponse))
    ensures
        is_success(reply, code, todo@),
{
    (code, SingleTodoResponse { status: String::from_str("success"), data: TodoData { todo } })
}

} // verus!
