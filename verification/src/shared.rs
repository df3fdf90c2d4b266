//! The store behind its concurrency guard: a reader-writer lock that lets
//! any number of lookups proceed in parallel while an upsert has the
//! mapping to itself. The lock is vstd's verified `RwLock`; its invariant
//! carries the store's well-formedness, so every reader sees a
//! well-formed store and every writer must hand one back.

use crate::handlers::{self, ApiError};
use crate::store::{lemma_value_carries_key, Movie, Store};
use vstd::prelude::*;
use vstd::rwlock::{RwLock, RwLockPredicate};

verus! {

/// The lock invariant: whatever store sits behind the guard is well-formed.
pub struct WfStore;

impl RwLockPredicate<Store> for WfStore {
    open spec fn inv(self, s: Store) -> bool {
        s.wf()
    }
}

/// One store for the whole process, shared across concurrent handler
/// invocations. Lookups acquire the guard shared; upserts acquire it
/// exclusively.
pub struct SharedStore {
    lock: RwLock<Store, WfStore>,
}

impl SharedStore {
    /// A fresh shared store, empty at startup.
    pub fn new() -> (r: SharedStore) {
        SharedStore { lock: RwLock::new(Store::new(), Ghost(WfStore)) }
    }

    /// Point lookup under shared access: a snapshot of the record some
    /// well-formed store state holds for `id`, or `NotFound`. A returned
    /// record always carries the requested id.
    pub fn fetch(&self, id: &String) -> (r: Result<Movie, ApiError>)
        ensures
            r matches Err(e) ==> e == ApiError::NotFound,
            r matches Ok(m) ==> m@.id == id@,
    {
        let read_handle = self.lock.acquire_read();
        let store = read_handle.borrow();
        let r = handlers::fetch(store, id);
        proof {
            if r is Ok {
                lemma_value_carries_key(store, id@);
            }
        }
        read_handle.release_read();
        r
    }

    /// Upsert under exclusive access: succeeds exactly when the body
    /// decodes into a movie record, and reports `BadPayload` otherwise.
    pub fn upsert(&self, body: &[u8]) -> (r: Result<(), ApiError>)
        ensures
            r is Ok <==> crate::codec::spec_decode(body@) is Some,
            r matches Err(e) ==> e == ApiError::BadPayload,
    {
        let (mut store, write_handle) = self.lock.acquire_write();
        let r = handlers::upsert(&mut store, body);
        write_handle.release_write(store);
        r
    }
}

} // verus!
