//! Conditional transactions for a replicated key-value store: a builder for
//! the request, the message shapes it is turned into, and a read-only wrapper
//! for the reply.

pub mod kv;
pub mod semantics;
pub mod txn;
pub mod wire;
