//! The four operation requests, the error taxonomy, the ownership rule, and
//! the single-record logic each operation applies: validated construction of
//! a new record and owner-gated partial edit.

use vstd::prelude::*;

use crate::records::Identity;
use crate::records::Todo;
use crate::records::MAX_DESCRIPTION_BYTES;
use crate::records::MAX_TITLE_BYTES;

verus! {

/// Every way an operation can be rejected. A rejected operation leaves the
/// store exactly as it was.
#[derive(Clone, Copy, PartialEq, Eq, Structural, Debug)]
pub enum TodoError {
    /// Initialize was called but the counter record already exists.
    AlreadyInitialized,
    /// The host could not fund the allocation of a new record. The store's
    /// own logic never raises this; the host maps its allocation failures to
    /// it before any record is touched.
    StorageAllocationFailed,
    /// A supplied title or description exceeds its fixed byte bound.
    FieldTooLong,
    /// The caller is not the owner of the record it tried to mutate.
    Unauthorized,
    /// The addressed record does not exist.
    NotFound,
}

/// Request to create the singleton counter record. `user` funds the
/// allocation; the operation's outcome does not otherwise depend on it.
pub struct Initialize {
    pub user: Identity,
}

/// Request to create one todo record. `user` is the caller; it funds the
/// allocation and becomes the record's owner.
pub struct CreateTodo {
    pub title: Vec<u8>,
    pub description: Vec<u8>,
    pub started_at: u64,
    pub completed_at: u64,
    pub user: Identity,
}

impl CreateTodo {
    /// The supplied text fields fit their fixed bounds.
    pub open spec fn fields_in_bounds(self) -> bool {
        self.title@.len() <= MAX_TITLE_BYTES && self.description@.len() <= MAX_DESCRIPTION_BYTES
    }
}

/// Request to partially edit the todo record with id `todo`, made by caller
/// `user`. Only the supplied (`Some`) fields are overwritten; an unsupplied
/// (`None`) field keeps its stored value. The record's id and owner can never
/// be edited.
pub struct EditTodo {
    pub todo: u64,
    pub user: Identity,
    pub title: Option<Vec<u8>>,
    pub description: Option<Vec<u8>>,
    pub completed: Option<bool>,
    pub started_at: Option<u64>,
    pub completed_at: Option<u64>,
}

impl EditTodo {
    /// Every supplied text field fits its fixed bound.
    pub open spec fn fields_in_bounds(self) -> bool {
        &&& (self.title matches Some(t) ==> t@.len() <= MAX_TITLE_BYTES)
        &&& (self.description matches Some(d) ==> d@.len() <= MAX_DESCRIPTION_BYTES)
    }
}

/// Request to delete the todo record with id `todo`, made by caller `user`,
/// who receives the storage refund on success.
pub struct DeleteTodo {
    pub todo: u64,
    pub user: Identity,
}

/// The authorization rule every mutating operation enforces: the caller must
/// be the record's owner.
pub open spec fn is_owner(caller: Identity, todo: Todo) -> bool {
    caller == todo.owner
}

/// Executable ownership check, run at the top of edit and delete before any
/// field is touched.
pub fn authorized(caller: &Identity, todo: &Todo) -> (r: bool)
    ensures
        r == is_owner(*caller, *todo),
{
    *caller == todo.owner
}

/// Build the record a creation request describes, under identifier `id`:
/// all supplied fields copied, `completed` false, the caller as owner.
/// Oversized text is rejected before anything is allocated, never truncated.
pub fn new_todo(id: u64, req: CreateTodo) -> (r: Result<Todo, TodoError>)
    ensures
        req.fields_in_bounds() ==> (r matches Ok(t) && t == (Todo {
            id,
            title: req.title,
            description: req.description,
            completed: false,
            started_at: req.started_at,
            completed_at: req.completed_at,
            owner: req.user,
        })),
        !req.fields_in_bounds() ==> (r matches Err(e) && e == TodoError::FieldTooLong),
{
    if req.title.len() > MAX_TITLE_BYTES || req.description.len() > MAX_DESCRIPTION_BYTES {
        return Err(TodoError::FieldTooLong);
    }
    Ok(Todo {
        id,
        title: req.title,
        description: req.description,
        completed: false,
        started_at: req.started_at,
        completed_at: req.completed_at,
        owner: req.user,
    })
}

/// The record a partial edit leaves behind: each supplied field overwritten,
/// every unsupplied field kept, `id` and `owner` untouched.
pub open spec fn edited(t: Todo, req: EditTodo) -> Todo {
    Todo {
        id: t.id,
        title: match req.title {
            Some(v) => v,
            None => t.title,
        },
        description: match req.description {
            Some(v) => v,
            None => t.description,
        },
        completed: match req.completed {
            Some(v) => v,
            None => t.completed,
        },
        started_at: match req.started_at {
            Some(v) => v,
            None => t.started_at,
        },
        completed_at: match req.completed_at {
            Some(v) => v,
            None => t.completed_at,
        },
        owner: t.owner,
    }
}

impl Todo {
    /// Apply a partial edit to this record: authorize the caller, check the
    /// bounds of every supplied text field, and only then overwrite exactly
    /// the supplied fields — all or nothing.
    pub fn apply_edit(&mut self, req: EditTodo) -> (r: Result<(), TodoError>)
        ensures
            final(self).id == old(self).id,
            final(self).owner == old(self).owner,
            !is_owner(req.user, *old(self)) ==> (r matches Err(e) && e == TodoError::Unauthorized
                && *final(self) == *old(self)),
            is_owner(req.user, *old(self)) && !req.fields_in_bounds() ==> (r matches Err(e)
                && e == TodoError::FieldTooLong && *final(self) == *old(self)),
            is_owner(req.user, *old(self)) && req.fields_in_bounds() ==> (r matches Ok(u)
                && u == () && *final(self) == edited(*old(self), req)),
    {
        if !authorized(&req.user, self) {
            return Err(TodoError::Unauthorized);
        }
        let title_too_long = match &req.title {
            Some(t) => t.len() > MAX_TITLE_BYTES,
            None => false,
        };
        let description_too_long = match &req.description {
            Some(d) => d.len() > MAX_DESCRIPTION_BYTES,
            None => false,
        };
        if title_too_long || description_too_long {
            return Err(TodoError::FieldTooLong);
        }
        if let Some(v) = req.title {
            self.title = v;
        }
        if let Some(v) = req.description {
            self.description = v;
        }
        if let Some(v) = req.completed {
            self.completed = v;
        }
        if let Some(v) = req.started_at {
            self.started_at = v;
        }
        if let Some(v) = req.completed_at {
            self.completed_at = v;
        }
        Ok(())
    }
}

} // verus!
