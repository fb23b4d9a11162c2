//! The records of the service, the payloads of its requests, and the
//! mathematical model that the contracts speak of.

use vstd::prelude::*;

verus! {

/// A point in time: whole seconds since the Unix epoch and the nanoseconds
/// into that second.
#[derive(Clone, Copy, Debug, PartialEq, Eq, Structural)]
pub struct Timestamp {
    pub secs: i64,
    pub nanos: u32,
}

impl Timestamp {
    /// `self` is not later than `other`.
    pub open spec fn le(self, other: Timestamp) -> bool {
        self.secs < other.secs || (self.secs == other.secs && self.nanos <= other.nanos)
    }

    /// Whether `self` is not later than `other`.
    pub fn not_after(&self, other: &Timestamp) -> (r: bool)
        ensures
            r == self.le(*other),
    {
        self.secs < other.secs || (self.secs == other.secs && self.nanos <= other.nanos)
    }
}

/// A todo record. `id`, `completed` and the two timestamps are assigned by
/// the service when the record is created; in a creation request they may be
/// absent and are overwritten if present.
#[allow(non_snake_case)]
#[derive(Debug, PartialEq, Eq)]
pub struct Todo {
    pub id: Option<String>,
    pub title: String,
    pub content: String,
    pub completed: Option<bool>,
    pub createdAt: Option<Timestamp>,
    pub updatedAt: Option<Timestamp>,
}

/// What a [`Todo`] holds, as mathematical values.
pub ghost struct TodoView {
    pub id: Option<Seq<char>>,
    pub title: Seq<char>,
    pub content: Seq<char>,
    pub completed: Option<bool>,
    pub created_at: Option<Timestamp>,
    pub updated_at: Option<Timestamp>,
}

impl View for Todo {
    type V = TodoView;

    open spec fn view(&self) -> TodoView {
        TodoView {
            id: match self.id {
                Some(s) => Some(s@),
                None => None,
            },
            title: self.title@,
            content: self.content@,
            completed: self.completed,
            created_at: self.createdAt,
            updated_at: self.updatedAt,
        }
    }
}

impl Clone for Todo {
    fn clone(&self) -> (r: Self)
        ensures
            r@ == self@,
    {
        Todo {
            id: match &self.id {
                Some(s) => Some(s.clone()),
                None => None,
            },
            title: self.title.clone(),
            content: self.content.clone(),
            completed: self.completed,
            createdAt: self.createdAt,
            updatedAt: self.updatedAt,
        }
    }
}

/// The paging parameters of a list request; an absent one takes its default.
#[derive(Clone, Copy, Debug, Default, PartialEq, Eq)]
pub struct QueryOptions {
    pub page: Option<usize>,
    pub limit: Option<usize>,
}

/// A partial update: every field may be absent, and an absent field leaves
/// the record's value as it is.
#[derive(Debug, PartialEq, Eq)]
pub struct UpdateTodoSchema {
    pub title: Option<String>,
    pub content: Option<String>,
    pub completed: Option<bool>,
}

/// What an [`UpdateTodoSchema`] holds, as mathematical values.
pub ghost struct UpdateView {
    pub title: Option<Seq<char>>,
    pub content: Option<Seq<char>>,
    pub completed: Option<bool>,
}

impl View for UpdateTodoSchema {
    type V = UpdateView;

    open spec fn view(&self) -> UpdateView {
        UpdateView {
            title: match self.title {
                Some(s) => Some(s@),
                None => None,
            },
            content: match self.content {
                Some(s) => Some(s@),
                None => None,
            },
            completed: self.completed,
        }
    }
}

} // verus!
