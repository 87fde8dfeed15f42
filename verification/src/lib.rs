//! Transactions with optimistic locking over a store of versioned records.
//!
//! Writes are staged in a [`tx::Tx`] and reach the store together at its
//! commit, or not at all: the commit first holds every staged write against
//! the records as they stand and goes ahead only if none of them has been
//! overtaken by another commit. What a commit makes of the records is
//! [`protocol::committed`]; the stores it works on are described by
//! [`backend::Backend`], and [`backend::hashmap::HashmapBackend`] is one that
//! keeps its records in memory.

pub mod backend;
pub mod db;
pub mod error;
pub mod model;
pub mod protocol;
pub mod tx;
