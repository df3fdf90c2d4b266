//! Laws the store obeys, stated over the abstract mapping that the store's
//! own contracts speak of (`spec_get`, `spec_put`).

use crate::store::{spec_get, spec_put, MovieView};
use vstd::prelude::*;

verus! {

/// Round-trip: upserting a record and then fetching its id yields that
/// record, equal in all fields.
pub proof fn lemma_round_trip(st: Map<Seq<char>, MovieView>, mv: MovieView)
    ensures
        spec_get(spec_put(st, mv), mv.id) == Some(mv),
{
}

/// Replacement: upserting a record whose id is already bound overwrites
/// the whole prior record; a later fetch reflects the new record entirely,
/// with no partial merge.
pub proof fn lemma_replacement(st: Map<Seq<char>, MovieView>, prev: MovieView, next: MovieView)
    requires
        prev.id == next.id,
    ensures
        spec_get(spec_put(spec_put(st, prev), next), next.id) == Some(next),
{
}

/// Absence: fetching an id the mapping does not bind yields nothing.
pub proof fn lemma_absence(st: Map<Seq<char>, MovieView>, k: Seq<char>)
    requires
        !st.contains_key(k),
    ensures
        spec_get(st, k) is None,
{
}

/// Agreement: lookups of the same id against the same mapping return the
/// same snapshot. The guard lets any number of such lookups overlap, and
/// with no writer in between they all observe one mapping, so they agree.
pub proof fn lemma_fetch_agreement(
    st: Map<Seq<char>, MovieView>,
    k: Seq<char>,
    r1: Option<MovieView>,
    r2: Option<MovieView>,
)
    requires
        r1 == spec_get(st, k),
        r2 == spec_get(st, k),
    ensures
        r1 == r2,
{
}

/// Whole-record writes: after an upsert, a lookup sees for each id either
/// the complete new record (under the upserted id) or the untouched prior
/// outcome — never a mixture of old and new fields.
pub proof fn lemma_no_partial_write(st: Map<Seq<char>, MovieView>, mv: MovieView, k: Seq<char>)
    ensures
        spec_get(spec_put(st, mv), k) == if k == mv.id {
            Some(mv)
        } else {
            spec_get(st, k)
        },
{
}

/// An upsert binds only its own id: an id absent before an upsert under a
/// different id is still absent after it. Together with `lemma_absence`
/// and the empty store this gives that an id never upserted is never found.
pub proof fn lemma_put_preserves_absence(
    st: Map<Seq<char>, MovieView>,
    mv: MovieView,
    k: Seq<char>,
)
    requires
        k != mv.id,
        !st.contains_key(k),
    ensures
        !spec_put(st, mv).contains_key(k),
{
}

} // verus!
