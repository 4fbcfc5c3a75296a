//! A verified model of an owner-gated todo record store.
//!
//! The store keeps two kinds of persistent records: a singleton [`Counter`]
//! that issues monotonically increasing identifiers, and one [`Todo`] record
//! per created item. Every mutating operation on a todo is gated on the
//! caller's identity matching the record's owner. The four operations —
//! initialize, create, edit, delete — are methods of [`TodoApp`], each with a
//! contract that pins down exactly which inputs succeed, which error every
//! rejected input raises, and how the store's state changes.

pub mod ops;
pub mod records;
pub mod store;

pub use ops::CreateTodo;
pub use ops::DeleteTodo;
pub use ops::EditTodo;
pub use ops::Initialize;
pub use ops::TodoError;
pub use records::Counter;
pub use records::Identity;
pub use records::Todo;
pub use records::COUNTER_SPACE;
pub use records::MAX_DESCRIPTION_BYTES;
pub use records::MAX_TITLE_BYTES;
pub use records::TODO_SPACE;
pub use store::TodoApp;
