//! A small arithmetic engine: checked binary operations over signed 64-bit
//! integers, an append-only history of the operations that succeeded, a
//! textual rendering of that history, and replay of a past operation by its
//! position.

/// Verified rendering of integers as decimal text.
pub mod decimal;
/// The operation kinds, recorded operations, and the calculator itself.
pub mod engine;
/// Pure decision logic of a ledger-account withdrawal, executed by a host.
pub mod vault;
/// Pure decision logic of a reaction-counter update, executed by a host.
pub mod reaction;
