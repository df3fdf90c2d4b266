//! Decoding a request body into a movie record.
//!
//! The wire format is a JSON object with four required fields:
//! `id` (string), `name` (string), `year` (integer that fits a `u16`) and
//! `was_good` (boolean). Unknown extra fields are ignored and no type is
//! coerced. Parsing the bytes is done by serde_json behind one trusted
//! wrapper; the schema rules above are this library's own logic and are
//! verified.

use crate::store::{Movie, MovieView};
use vstd::prelude::*;

verus! {

/// The raw fields serde_json extracts from a body: `Some` exactly when the
/// bytes are a JSON object holding a string under `id`, a string under
/// `name`, a non-negative integer under `year` and a boolean under
/// `was_good`; `None` on any other input.
pub uninterp spec fn json_movie_fields(body: Seq<u8>) -> Option<(Seq<char>, Seq<char>, u64, bool)>;

/// Relies on serde_json::from_slice::<serde_json::Value> and on
/// serde_json::Value's get, as_str, as_u64 and as_bool: parsing is a pure
/// function of the input bytes; get finds the named member of an object and
/// nothing otherwise; each accessor returns the member exactly when it has
/// that JSON type, with integers above u64::MAX or below zero refused by
/// as_u64.
#[verifier::external_body]
fn extract_fields(body: &[u8]) -> (r: Option<(String, String, u64, bool)>)
    ensures
        match r {
            Some(f) => json_movie_fields(body@) == Some((f.0@, f.1@, f.2, f.3)),
            None => json_movie_fields(body@) is None,
        },
{
    let v: serde_json::Value = serde_json::from_slice(body).ok()?;
    let id = v.get("id")?.as_str()?.to_owned();
    let name = v.get("name")?.as_str()?.to_owned();
    let year = v.get("year")?.as_u64()?;
    let was_good = v.get("was_good")?.as_bool()?;
    Some((id, name, year, was_good))
}

/// The record a body stands for: the raw fields where serde_json finds
/// them and the year fits a `u16`; nothing otherwise.
pub open spec fn spec_decode(body: Seq<u8>) -> Option<MovieView> {
    match json_movie_fields(body) {
        Some(f) => if f.2 <= u16::MAX {
            Some(MovieView { id: f.0, name: f.1, year: f.2 as u16, was_good: f.3 })
        } else {
            None
        },
        None => None,
    }
}

/// Decodes a request body into a movie record, or nothing when the body
/// does not match the wire schema.
pub fn decode_movie(body: &[u8]) -> (r: Option<Movie>)
    ensures
        match r {
            Some(m) => spec_decode(body@) == Some(m@),
            None => spec_decode(body@) is None,
        },
{
    match extract_fields(body) {
        Some((id, name, year, was_good)) => {
            if year <= u16::MAX as u64 {
                Some(Movie { id, name, year: year as u16, was_good })
            } else {
                None
            }
        },
        None => None,
    }
}

} // verus!
