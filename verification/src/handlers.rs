//! The two request handlers: point lookup and upsert, each translating a
//! store outcome into an externally observable response.

use crate::codec::{decode_movie, spec_decode};
use crate::store::{spec_get, spec_put, Movie, Store};
use vstd::prelude::*;

verus! {

/// The two error outcomes a handler can report.
#[derive(Clone, Copy, Debug, PartialEq, Eq, Structural)]
pub enum ApiError {
    /// The requested id was absent from the store at lookup time.
    NotFound,
    /// The request body did not decode into a movie record.
    BadPayload,
}

/// The HTTP status each error outcome is reported as.
pub open spec fn spec_status(e: ApiError) -> u16 {
    match e {
        ApiError::NotFound => 404,
        ApiError::BadPayload => 400,
    }
}

impl ApiError {
    /// The HTTP status this error is reported as: 404 for an absent id,
    /// 400 for a body that does not decode.
    pub fn status(&self) -> (r: u16)
        ensures
            r == spec_status(*self),
    {
        match self {
            ApiError::NotFound => 404,
            ApiError::BadPayload => 400,
        }
    }
}

/// Point lookup: a snapshot of the record held for `id`, or `NotFound`
/// exactly when no record carries that id. The store is never changed.
pub fn fetch(store: &Store, id: &String) -> (r: Result<Movie, ApiError>)
    requires
        store.wf(),
    ensures
        match r {
            Ok(m) => spec_get(store@, id@) == Some(m@),
            Err(e) => spec_get(store@, id@) is None && e == ApiError::NotFound,
        },
{
    match store.get(id) {
        Some(m) => Ok(m),
        None => Err(ApiError::NotFound),
    }
}

/// Upsert: decodes the body and, exactly when it matches the wire schema,
/// re-binds the decoded record's id to the whole new record; on a body that
/// does not decode it reports `BadPayload` and leaves the store untouched.
pub fn upsert(store: &mut Store, body: &[u8]) -> (r: Result<(), ApiError>)
    requires
        old(store).wf(),
    ensures
        final(store).wf(),
        match spec_decode(body@) {
            Some(mv) => r is Ok && final(store)@ == spec_put(old(store)@, mv),
            None => r == Err::<(), ApiError>(ApiError::BadPayload) && *final(store) == *old(
                store,
            ),
        },
{
    match decode_movie(body) {
        Some(m) => {
            store.put(m);
            Ok(())
        },
        None => Err(ApiError::BadPayload),
    }
}

} // verus!
