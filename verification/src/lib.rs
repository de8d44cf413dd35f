//! An in-memory record store for small "memo" records.
//!
//! The store maps integer identifiers to records. Identifiers are handed out
//! by [`allocator::IdentifierAllocator`] in a strictly increasing sequence and
//! are never reused, not even after a record is deleted. Every operation on
//! [`store::RecordStore`] is specified against a mathematical model of the
//! store ([`model::StoreView`]), and [`laws`] proves the properties that hold
//! across whole runs of operations.

pub mod allocator;
pub mod helpers;
pub mod laws;
pub mod model;
pub mod record;
pub mod store;
mod clock;
