//! The persistent data model: the identity handle, the singleton counter
//! record, and the todo record with its bounded text fields.

use vstd::prelude::*;

verus! {

/// Maximum length of a todo's title, in bytes.
pub const MAX_TITLE_BYTES: usize = 100;

/// Maximum length of a todo's description, in bytes.
pub const MAX_DESCRIPTION_BYTES: usize = 500;

/// Size in bytes of the record-kind tag that prefixes every stored record.
pub const RECORD_TAG_BYTES: u64 = 8;

/// Storage backing a counter record: the tag plus one 64-bit count.
pub const COUNTER_SPACE: u64 = RECORD_TAG_BYTES + 8;

/// Storage backing a todo record: the tag, the 64-bit id, the two
/// length-prefixed bounded text fields at full capacity, the completed flag,
/// the two 64-bit timestamps, and the 32-byte owner key.
pub const TODO_SPACE: u64 = RECORD_TAG_BYTES + 8 + 4 + 100 + 4 + 500 + 1 + 8 + 8 + 32;

/// An external caller's identity handle: a 256-bit public key, held as four
/// 64-bit words. It names the owner of each todo record and is the subject of
/// every authorization check.
#[derive(Clone, Copy, PartialEq, Eq, Structural, Debug)]
pub struct Identity {
    pub w0: u64,
    pub w1: u64,
    pub w2: u64,
    pub w3: u64,
}

/// The singleton counter record. `count` is the identifier the next created
/// todo will receive; it only ever grows, so no two todos share an id.
#[derive(Clone, Copy, PartialEq, Eq, Structural, Debug)]
pub struct Counter {
    pub count: u64,
}

impl Counter {
    /// A freshly allocated counter starts issuing ids from zero.
    pub fn new() -> (c: Counter)
        ensures
            c.count == 0,
    {
        Counter { count: 0 }
    }

    /// Issue the next identifier: hand out the current `count` and advance it
    /// by one, as a single step of the issuance protocol.
    pub fn issue_id(&mut self) -> (id: u64)
        requires
            old(self).count < u64::MAX,
        ensures
            id == old(self).count,
            final(self).count == old(self).count + 1,
    {
        let id = self.count;
        self.count = self.count + 1;
        id
    }
}

/// One todo record. `id` and `owner` are fixed at creation; the remaining
/// fields may later be overwritten by the owner through a partial edit.
pub struct Todo {
    pub id: u64,
    pub title: Vec<u8>,
    pub description: Vec<u8>,
    pub completed: bool,
    pub started_at: u64,
    pub completed_at: u64,
    pub owner: Identity,
}

impl Todo {
    /// Both text fields fit the fixed capacity their storage was allocated
    /// with; holds for every record the store ever holds.
    pub open spec fn wf(self) -> bool {
        self.title@.len() <= MAX_TITLE_BYTES && self.description@.len() <= MAX_DESCRIPTION_BYTES
    }
}

} // verus!
