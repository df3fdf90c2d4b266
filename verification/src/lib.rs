//! An in-memory movie store: records keyed by a client-chosen string id,
//! an insert-or-replace writer and a point lookup, plus a reader-writer
//! guard so that many lookups may proceed in parallel while a writer has
//! the mapping to itself.

pub mod codec;
pub mod handlers;
pub mod laws;
pub mod shared;
pub mod store;
