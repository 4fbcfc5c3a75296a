//! The store itself: one deployment instance holding the optional counter
//! record and the live todo records, with the four operations and the laws
//! that hold of every reachable state.

use vstd::prelude::*;

use crate::ops::authorized;
use crate::ops::edited;
use crate::ops::is_owner;
use crate::ops::new_todo;
use crate::ops::CreateTodo;
use crate::ops::DeleteTodo;
use crate::ops::EditTodo;
use crate::ops::Initialize;
use crate::ops::TodoError;
use crate::records::Counter;
use crate::records::Todo;
use crate::records::TODO_SPACE;

verus! {

/// Some live record carries this id.
pub open spec fn has_todo(s: Seq<Todo>, id: u64) -> bool {
    exists|i: int| 0 <= i < s.len() && (#[trigger] s[i]).id == id
}

/// The position of the live record with this id; a single position, because
/// the store keeps ids strictly increasing.
pub open spec fn todo_index(s: Seq<Todo>, id: u64) -> int {
    choose|i: int| 0 <= i < s.len() && (#[trigger] s[i]).id == id
}

/// The live record with this id.
pub open spec fn todo_at(s: Seq<Todo>, id: u64) -> Todo {
    s[todo_index(s, id)]
}

/// Ids appear in strictly increasing order — creation order — so they are
/// pairwise distinct.
pub open spec fn ids_strictly_increasing(s: Seq<Todo>) -> bool {
    forall|i: int, j: int| 0 <= i < j < s.len() ==> (#[trigger] s[i]).id < (#[trigger] s[j]).id
}

/// Two distinct positions hold distinct ids whenever ids are strictly
/// increasing.
proof fn lemma_id_unique(s: Seq<Todo>, i: int, j: int)
    requires
        ids_strictly_increasing(s),
        0 <= i < s.len(),
        0 <= j < s.len(),
        i != j,
    ensures
        s[i].id != s[j].id,
{
    if i < j {
        assert(s[i].id < s[j].id);
    } else {
        assert(s[j].id < s[i].id);
    }
}

/// A position holding an id is the one position `todo_index` denotes, so
/// `todo_at` is the record found there.
proof fn lemma_todo_index_of(s: Seq<Todo>, i: int)
    requires
        ids_strictly_increasing(s),
        0 <= i < s.len(),
    ensures
        has_todo(s, s[i].id),
        todo_index(s, s[i].id) == i,
        todo_at(s, s[i].id) == s[i],
{
    assert(has_todo(s, s[i].id));
    let j = todo_index(s, s[i].id);
    assert(0 <= j < s.len() && s[j].id == s[i].id);
    if j != i {
        lemma_id_unique(s, i, j);
    }
}

/// Law: in every well-formed store — and every store the operations produce
/// is one — the identifiers of the live records are strictly increasing in
/// creation order, and therefore pairwise distinct. Together with
/// `create_todo`'s contract, which appends each new record with the id the
/// counter issued, this says that any sequence of successful creations hands
/// out strictly increasing, never-repeating ids.
pub proof fn lemma_ids_strictly_increasing(app: TodoApp)
    requires
        app.wf(),
    ensures
        ids_strictly_increasing(app.todos_view()),
        forall|i: int, j: int|
            0 <= i < app.todos_view().len() && 0 <= j < app.todos_view().len() && i != j
                ==> (#[trigger] app.todos_view()[i]).id != (#[trigger] app.todos_view()[j]).id,
{
    assert forall|i: int, j: int|
        0 <= i < app.todos_view().len() && 0 <= j < app.todos_view().len() && i != j
            implies (#[trigger] app.todos_view()[i]).id != (#[trigger] app.todos_view()[j]).id by {
        lemma_id_unique(app.todos@, i, j);
    }
}

/// Law: every live record's id lies strictly below the counter's count, so a
/// deleted id — issued below the count of its day, which never decreases —
/// can never come back.
pub proof fn lemma_ids_below_counter(app: TodoApp)
    requires
        app.wf(),
        app.counter_view() is Some,
    ensures
        forall|i: int| 0 <= i < app.todos_view().len()
            ==> (#[trigger] app.todos_view()[i]).id < app.counter_view()->0,
{
}

/// One deployment instance of the record store. All state changes go through
/// the four operations; no other mutation path exists.
pub struct TodoApp {
    counter: Option<Counter>,
    todos: Vec<Todo>,
}

impl TodoApp {
    /// Abstract state of the counter: its count, if the record exists.
    pub closed spec fn counter_view(self) -> Option<u64> {
        match self.counter {
            Some(c) => Some(c.count),
            None => None,
        }
    }

    /// Abstract state of the records: the live todos, in creation order.
    pub closed spec fn todos_view(self) -> Seq<Todo> {
        self.todos@
    }

    /// The invariant every reachable store satisfies: every record's text
    /// fields fit their bounds, ids grow strictly in creation order, every id
    /// was issued below the counter's current count, and no record exists
    /// before the counter does.
    pub closed spec fn wf(self) -> bool {
        &&& forall|i: int| 0 <= i < self.todos@.len() ==> (#[trigger] self.todos@[i]).wf()
        &&& ids_strictly_increasing(self.todos@)
        &&& match self.counter {
            Some(c) => forall|i: int|
                0 <= i < self.todos@.len() ==> (#[trigger] self.todos@[i]).id < c.count,
            None => self.todos@.len() == 0,
        }
    }

    /// A fresh deployment instance: no counter record, no todo records.
    pub fn new() -> (app: TodoApp)
        ensures
            app.wf(),
            app.counter_view() is None,
            app.todos_view() == Seq::<Todo>::empty(),
    {
        TodoApp { counter: None, todos: Vec::new() }
    }

    /// Allocate the singleton counter record with `count == 0`. Fails, and
    /// changes nothing, if the counter already exists.
    pub fn initialize(&mut self, req: Initialize) -> (r: Result<(), TodoError>)
        requires
            old(self).wf(),
        ensures
            final(self).wf(),
            final(self).todos_view() == old(self).todos_view(),
            old(self).counter_view() is None ==> (r matches Ok(u) && u == ()
                && final(self).counter_view() == Some(0u64)),
            old(self).counter_view() is Some ==> (r matches Err(e)
                && e == TodoError::AlreadyInitialized
                && final(self).counter_view() == old(self).counter_view()),
    {
        match self.counter {
            Some(_) => Err(TodoError::AlreadyInitialized),
            None => {
                self.counter = Some(Counter::new());
                Ok(())
            },
        }
    }

    /// Read the counter's current count, or report that the counter record
    /// does not exist yet.
    pub fn get_counter(&self) -> (r: Result<u64, TodoError>)
        ensures
            self.counter_view() matches Some(c) ==> (r matches Ok(n) && n == c),
            self.counter_view() is None ==> (r matches Err(e) && e == TodoError::NotFound),
    {
        match self.counter {
            Some(c) => Ok(c.count),
            None => Err(TodoError::NotFound),
        }
    }

    /// Create one todo record: issue it the counter's current count as its
    /// id, advance the counter by one, and append the record — all as one
    /// atomic step. Oversized text is rejected before anything is allocated,
    /// and a missing counter record rejects the call outright.
    pub fn create_todo(&mut self, req: CreateTodo) -> (r: Result<u64, TodoError>)
        requires
            old(self).wf(),
            old(self).counter_view() matches Some(c) ==> c < u64::MAX,
        ensures
            final(self).wf(),
            old(self).counter_view() is None ==> (r matches Err(e) && e == TodoError::NotFound
                && final(self).counter_view() == old(self).counter_view()
                && final(self).todos_view() == old(self).todos_view()),
            old(self).counter_view() is Some && !req.fields_in_bounds() ==> (r matches Err(e)
                && e == TodoError::FieldTooLong
                && final(self).counter_view() == old(self).counter_view()
                && final(self).todos_view() == old(self).todos_view()),
            old(self).counter_view() is Some && req.fields_in_bounds() ==> (
                r matches Ok(id) && id == old(self).counter_view()->0
                && final(self).counter_view() == Some((old(self).counter_view()->0 + 1) as u64)
                && final(self).todos_view() == old(self).todos_view().push((Todo {
                    id: old(self).counter_view()->0,
                    title: req.title,
                    description: req.description,
                    completed: false,
                    started_at: req.started_at,
                    completed_at: req.completed_at,
                    owner: req.user,
                }))
                && (forall|i: int| 0 <= i < old(self).todos_view().len()
                    ==> (#[trigger] old(self).todos_view()[i]).id < old(self).counter_view()->0)
                && has_todo(final(self).todos_view(), old(self).counter_view()->0)
                && todo_at(final(self).todos_view(), old(self).counter_view()->0)
                    == final(self).todos_view().last()),
    {
        let mut counter = match self.counter {
            Some(c) => c,
            None => {
                return Err(TodoError::NotFound);
            },
        };
        let todo = match new_todo(counter.count, req) {
            Ok(t) => t,
            Err(e) => {
                return Err(e);
            },
        };
        let id = counter.issue_id();
        self.counter = Some(counter);
        self.todos.push(todo);
        proof {
            let s_new = self.todos@;
            assert(ids_strictly_increasing(s_new));
            lemma_todo_index_of(s_new, s_new.len() - 1);
        }
        Ok(id)
    }

    /// Partially edit the record with id `req.todo`: authorize the caller,
    /// check the supplied fields' bounds, then overwrite exactly the supplied
    /// fields — all or nothing. The counter and every other record are left
    /// untouched.
    pub fn edit_todo(&mut self, req: EditTodo) -> (r: Result<(), TodoError>)
        requires
            old(self).wf(),
        ensures
            final(self).wf(),
            final(self).counter_view() == old(self).counter_view(),
            !has_todo(old(self).todos_view(), req.todo) ==> (r matches Err(e)
                && e == TodoError::NotFound
                && final(self).todos_view() == old(self).todos_view()),
            has_todo(old(self).todos_view(), req.todo)
                && !is_owner(req.user, todo_at(old(self).todos_view(), req.todo)) ==> (
                r matches Err(e) && e == TodoError::Unauthorized
                && final(self).todos_view() == old(self).todos_view()),
            has_todo(old(self).todos_view(), req.todo)
                && is_owner(req.user, todo_at(old(self).todos_view(), req.todo))
                && !req.fields_in_bounds() ==> (r matches Err(e) && e == TodoError::FieldTooLong
                && final(self).todos_view() == old(self).todos_view()),
            has_todo(old(self).todos_view(), req.todo)
                && is_owner(req.user, todo_at(old(self).todos_view(), req.todo))
                && req.fields_in_bounds() ==> (r matches Ok(u) && u == ()
                && final(self).todos_view() == old(self).todos_view().update(
                    todo_index(old(self).todos_view(), req.todo),
                    edited(todo_at(old(self).todos_view(), req.todo), req),
                )
                && has_todo(final(self).todos_view(), req.todo)
                && todo_at(final(self).todos_view(), req.todo)
                    == edited(todo_at(old(self).todos_view(), req.todo), req)),
    {
        let ghost s_old = self.todos@;
        let i = match self.find_index(req.todo) {
            Some(i) => i,
            None => {
                return Err(TodoError::NotFound);
            },
        };
        proof {
            lemma_todo_index_of(s_old, i as int);
        }
        let mut t = self.todos.remove(i);
        let r = t.apply_edit(req);
        self.todos.insert(i, t);
        proof {
            if r is Ok {
                assert(self.todos@ =~= s_old.update(i as int, edited(s_old[i as int], req)));
                assert(ids_strictly_increasing(self.todos@));
                lemma_todo_index_of(self.todos@, i as int);
            } else {
                assert(self.todos@ =~= s_old);
            }
        }
        r
    }

    /// Delete the record with id `req.todo`: authorize the caller, remove the
    /// record, and hand its full storage backing back to the owner. The
    /// counter is not decremented, so the id is never reused.
    pub fn delete_todo(&mut self, req: DeleteTodo) -> (r: Result<u64, TodoError>)
        requires
            old(self).wf(),
        ensures
            final(self).wf(),
            final(self).counter_view() == old(self).counter_view(),
            !has_todo(old(self).todos_view(), req.todo) ==> (r matches Err(e)
                && e == TodoError::NotFound
                && final(self).todos_view() == old(self).todos_view()),
            has_todo(old(self).todos_view(), req.todo)
                && !is_owner(req.user, todo_at(old(self).todos_view(), req.todo)) ==> (
                r matches Err(e) && e == TodoError::Unauthorized
                && final(self).todos_view() == old(self).todos_view()),
            has_todo(old(self).todos_view(), req.todo)
                && is_owner(req.user, todo_at(old(self).todos_view(), req.todo)) ==> (
                r matches Ok(refund) && refund == TODO_SPACE
                && final(self).todos_view() == old(self).todos_view().remove(
                    todo_index(old(self).todos_view(), req.todo))
                && !has_todo(final(self).todos_view(), req.todo)),
    {
        let ghost s_old = self.todos@;
        let i = match self.find_index(req.todo) {
            Some(i) => i,
            None => {
                return Err(TodoError::NotFound);
            },
        };
        proof {
            lemma_todo_index_of(s_old, i as int);
        }
        if !authorized(&req.user, &self.todos[i]) {
            return Err(TodoError::Unauthorized);
        }
        self.todos.remove(i);
        proof {
            assert forall|j: int| 0 <= j < self.todos@.len()
                implies (#[trigger] self.todos@[j]).id != req.todo by {
                if j < i as int {
                    lemma_id_unique(s_old, j, i as int);
                } else {
                    lemma_id_unique(s_old, j + 1, i as int);
                }
            }
        }
        Ok(TODO_SPACE)
    }

    /// Read the record with this id, or report that no such record exists.
    pub fn get_todo(&self, id: u64) -> (r: Result<&Todo, TodoError>)
        requires
            self.wf(),
        ensures
            has_todo(self.todos_view(), id) ==> (r matches Ok(t)
                && *t == todo_at(self.todos_view(), id) && t.id == id),
            !has_todo(self.todos_view(), id) ==> (r matches Err(e) && e == TodoError::NotFound),
    {
        match self.find_index(id) {
            Some(i) => {
                proof {
                    lemma_todo_index_of(self.todos@, i as int);
                }
                Ok(&self.todos[i])
            },
            None => Err(TodoError::NotFound),
        }
    }

    /// Position of the record with this id in the backing vector, if any.
    fn find_index(&self, id: u64) -> (r: Option<usize>)
        ensures
            r matches Some(i) ==> (i < self.todos_view().len()
                && self.todos_view()[i as int].id == id),
            r is None ==> !has_todo(self.todos_view(), id),
    {
        let n = self.todos.len();
        let mut i: usize = 0;
        while i < n
            invariant
                n == self.todos@.len(),
                i <= n,
                forall|j: int| 0 <= j < i ==> (#[trigger] self.todos@[j]).id != id,
            decreases n - i,
        {
            if self.todos[i].id == id {
                return Some(i);
            }
            i = i + 1;
        }
        None
    }
}

} // verus!
