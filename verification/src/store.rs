//! The record store: an ordered sequence of todo records, in the order in
//! which they were created, and the scans and changes that the request
//! operations are made of.

use vstd::prelude::*;
use crate::model::{Timestamp, Todo, TodoView, UpdateTodoSchema, UpdateView};

verus! {

/// The records of a sequence of todos, in order.
pub open spec fn todo_views(s: Seq<Todo>) -> Seq<TodoView> {
    s.map_values(|t: Todo| t@)
}

/// A record as the store holds it: the service has assigned its identifier,
/// its completion flag and both timestamps.
pub open spec fn stored(t: TodoView) -> bool {
    t.id is Some && t.completed is Some && t.created_at is Some && t.updated_at is Some
}

/// Every record of `s` is as the store holds it.
pub open spec fn all_stored(s: Seq<TodoView>) -> bool {
    forall|i: int| 0 <= i < s.len() ==> stored(#[trigger] s[i])
}

/// Some record of `s` has the identifier `id`.
pub open spec fn has_id(s: Seq<TodoView>, id: Seq<char>) -> bool {
    exists|i: int| 0 <= i < s.len() && (#[trigger] s[i]).id == Some(id)
}

/// `i` is the position of the first record of `s` with the identifier `id`.
pub open spec fn is_first_with_id(s: Seq<TodoView>, id: Seq<char>, i: int) -> bool {
    &&& 0 <= i < s.len()
    &&& s[i].id == Some(id)
    &&& forall|j: int| 0 <= j < i ==> (#[trigger] s[j]).id != Some(id)
}

/// The position of the first record of `s` with the identifier `id`, where
/// there is one.
pub open spec fn index_of_id(s: Seq<TodoView>, id: Seq<char>) -> int {
    choose|i: int| is_first_with_id(s, id, i)
}

/// Some record of `s` has exactly the title `title`.
pub open spec fn has_title(s: Seq<TodoView>, title: Seq<char>) -> bool {
    exists|i: int| 0 <= i < s.len() && (#[trigger] s[i]).title == title
}

/// No two records of `s` share an identifier.
pub open spec fn distinct_ids(s: Seq<TodoView>) -> bool {
    forall|i: int, j: int| 0 <= i < j < s.len() ==> (#[trigger] s[i]).id != (#[trigger] s[j]).id
}

/// The page of `s` that a list request asks for: pages are counted from 1,
/// each holds `limit` records, and the last one may be short or empty.
pub open spec fn page_of(s: Seq<TodoView>, page: int, limit: int) -> Seq<TodoView> {
    let offset = (page - 1) * limit;
    let start = if offset < s.len() { offset } else { s.len() as int };
    let end = if start + limit < s.len() { start + limit } else { s.len() as int };
    s.subrange(start, end)
}

/// The record that a creation request `body` becomes: its title and content,
/// the identifier `id`, not completed, created and last updated at `now`.
pub open spec fn stored_new(body: TodoView, id: Seq<char>, now: Timestamp) -> TodoView {
    TodoView {
        id: Some(id),
        title: body.title,
        content: body.content,
        completed: Some(false),
        created_at: Some(now),
        updated_at: Some(now),
    }
}

/// The text that an update leaves in a field: the requested one if it is
/// present and not empty, else the current one.
pub open spec fn effective_text(requested: Option<Seq<char>>, current: Seq<char>) -> Seq<char> {
    match requested {
        Some(t) => if t.len() > 0 { t } else { current },
        None => current,
    }
}

/// The record that `current` becomes by the update `patch` at `now`: the
/// identifier and the creation time stay, each other field takes its
/// requested value where there is one, and the update time is `now`.
pub open spec fn merged(current: TodoView, patch: UpdateView, now: Timestamp) -> TodoView {
    TodoView {
        id: current.id,
        title: effective_text(patch.title, current.title),
        content: effective_text(patch.content, current.content),
        completed: Some(
            match patch.completed {
                Some(c) => c,
                None => current.completed->0,
            },
        ),
        created_at: current.created_at,
        updated_at: Some(now),
    }
}

/// The first position with a given identifier is unique.
pub proof fn lemma_index_of_id(s: Seq<TodoView>, id: Seq<char>, i: int)
    requires
        is_first_with_id(s, id, i),
    ensures
        has_id(s, id),
        index_of_id(s, id) == i,
{
    let k = index_of_id(s, id);
    assert(is_first_with_id(s, id, k));
    if k < i {
        assert(s[k].id != Some(id));
    } else if i < k {
        assert(s[i].id != Some(id));
    }
}

/// Where some record has the identifier, there is a first one.
pub proof fn lemma_has_id_has_first(s: Seq<TodoView>, id: Seq<char>)
    requires
        has_id(s, id),
    ensures
        is_first_with_id(s, id, index_of_id(s, id)),
{
    let w = choose|i: int| 0 <= i < s.len() && (#[trigger] s[i]).id == Some(id);
    lemma_first_up_to(s, id, w);
}

proof fn lemma_first_up_to(s: Seq<TodoView>, id: Seq<char>, w: int)
    requires
        0 <= w < s.len(),
        s[w].id == Some(id),
    ensures
        exists|i: int| is_first_with_id(s, id, i),
    decreases w,
{
    if exists|j: int| 0 <= j < w && (#[trigger] s[j]).id == Some(id) {
        let j = choose|j: int| 0 <= j < w && (#[trigger] s[j]).id == Some(id);
        lemma_first_up_to(s, id, j);
    } else {
        assert(is_first_with_id(s, id, w));
    }
}

/// The store of the service. Its records are reached only through the
/// operations below, which keep every record as the store holds it.
pub struct TodoStore {
    todos: Vec<Todo>,
}

impl View for TodoStore {
    type V = Seq<TodoView>;

    closed spec fn view(&self) -> Seq<TodoView> {
        todo_views(self.todos@)
    }
}

impl TodoStore {
    /// The store's invariant: every record has its identifier, its completion
    /// flag and both timestamps.
    pub open spec fn wf(&self) -> bool {
        all_stored(self@)
    }

    /// An empty store.
    pub fn new() -> (db: Self)
        ensures
            db@ == Seq::<TodoView>::empty(),
            db.wf(),
    {
        let db = TodoStore { todos: Vec::new() };
        assert(db@ =~= Seq::<TodoView>::empty());
        db
    }

    /// The number of records.
    pub fn len(&self) -> (n: usize)
        ensures
            n == self@.len(),
    {
        self.todos.len()
    }

    /// The position of the first record with the identifier `id`.
    pub fn position_of_id(&self, id: &String) -> (r: Option<usize>)
        ensures
            r is Some <==> has_id(self@, id@),
            r matches Some(i) ==> i == index_of_id(self@, id@) && i < self@.len(),
    {
        let n = self.todos.len();
        let mut i: usize = 0;
        while i < n
            invariant
                n == self.todos@.len(),
                i <= n,
                forall|j: int| 0 <= j < i ==> (#[trigger] self@[j]).id != Some(id@),
            decreases n - i,
        {
            let found = match &self.todos[i].id {
                Some(s) => *s == *id,
                None => false,
            };
            if found {
                proof {
                    assert(self@[i as int] == self.todos@[i as int]@);
                    lemma_index_of_id(self@, id@, i as int);
                }
                return Some(i);
            }
            assert(self@[i as int] == self.todos@[i as int]@);
            i += 1;
        }
        None
    }

    /// Whether some record has exactly the title `title`.
    pub fn contains_title(&self, title: &String) -> (r: bool)
        ensures
            r == has_title(self@, title@),
    {
        let n = self.todos.len();
        let mut i: usize = 0;
        while i < n
            invariant
                n == self.todos@.len(),
                i <= n,
                forall|j: int| 0 <= j < i ==> (#[trigger] self@[j]).title != title@,
            decreases n - i,
        {
            if self.todos[i].title == *title {
                assert(self@[i as int] == self.todos@[i as int]@);
                return true;
            }
            assert(self@[i as int] == self.todos@[i as int]@);
            i += 1;
        }
        false
    }

    /// A copy of the record at position `i`.
    pub fn record(&self, i: usize) -> (r: Todo)
        requires
            i < self@.len(),
        ensures
            r@ == self@[i as int],
    {
        self.todos[i].clone()
    }

    /// The page of records that a list request asks for, as copies, in the
    /// order in which the records were created.
    pub fn page(&self, page: usize, limit: usize) -> (r: Vec<Todo>)
        requires
            page >= 1,
        ensures
            todo_views(r@) == page_of(self@, page as int, limit as int),
            r@.len() == page_of(self@, page as int, limit as int).len(),
    {
        let n = self.todos.len();
        let start: usize = match (page - 1).checked_mul(limit) {
            Some(offset) => if offset < n { offset } else { n },
            None => n,
        };
        let end: usize = if limit < n - start { start + limit } else { n };
        let mut out: Vec<Todo> = Vec::new();
        let mut i: usize = start;
        while i < end
            invariant
                n == self.todos@.len(),
                start <= i <= end <= n,
                out@.len() == i - start,
                forall|k: int| 0 <= k < out@.len() ==> (#[trigger] out@[k])@ == self@[start + k],
            decreases end - i,
        {
            out.push(self.todos[i].clone());
            i += 1;
        }
        assert(todo_views(out@) =~= self@.subrange(start as int, end as int));
        out
    }

    /// Appends the record that the creation request `body` becomes with the
    /// identifier `id` at the time `now`, and returns a copy of it.
    pub fn append(&mut self, body: Todo, id: String, now: Timestamp) -> (r: Todo)
        requires
            old(self).wf(),
        ensures
            r@ == stored_new(body@, id@, now),
            final(self)@ == old(self)@.push(r@),
            final(self).wf(),
    {
        let mut body = body;
        body.id = Some(id);
        body.completed = Some(false);
        body.createdAt = Some(now);
        body.updatedAt = Some(now);
        let todo = body.clone();
        self.todos.push(body);
        assert(self@ =~= old(self)@.push(todo@));
        todo
    }

    /// Applies the update `patch` to the record at position `i` at the time
    /// `now`, and returns a copy of the record as it then is.
    pub fn merge_at(&mut self, i: usize, patch: &UpdateTodoSchema, now: Timestamp) -> (r: Todo)
        requires
            old(self).wf(),
            i < old(self)@.len(),
        ensures
            r@ == merged(old(self)@[i as int], patch@, now),
            final(self)@ == old(self)@.update(i as int, r@),
            final(self).wf(),
    {
        assert(stored(self@[i as int]));
        let todo = &self.todos[i];
        let title = match &patch.title {
            Some(t) => if !t.as_str().is_empty() { t.clone() } else { todo.title.clone() },
            None => todo.title.clone(),
        };
        let content = match &patch.content {
            Some(c) => if !c.as_str().is_empty() { c.clone() } else { todo.content.clone() },
            None => todo.content.clone(),
        };
        let current = todo.completed.unwrap();
        let completed = match patch.completed {
            Some(c) => c,
            None => current,
        };
        let payload = Todo {
            id: match &todo.id {
                Some(s) => Some(s.clone()),
                None => None,
            },
            title,
            content,
            completed: Some(completed),
            createdAt: todo.createdAt,
            updatedAt: Some(now),
        };
        let copy = payload.clone();
        self.todos.set(i, payload);
        assert(self@ =~= old(self)@.update(i as int, copy@));
        copy
    }

    /// Removes the record at position `i`; the records after it move up by
    /// one and keep their order.
    pub fn remove_at(&mut self, i: usize)
        requires
            old(self).wf(),
            i < old(self)@.len(),
        ensures
            final(self)@ == old(self)@.remove(i as int),
            final(self).wf(),
    {
        let _ = self.todos.remove(i);
        assert(self@ =~= old(self)@.remove(i as int));
    }
}

/// The empty store that the service starts with.
pub fn todo_db() -> (db: TodoStore)
    ensures
        db@ == Seq::<TodoView>::empty(),
        db.wf(),
{
    TodoStore::new()
}

} // verus!
