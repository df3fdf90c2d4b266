//! The movie record and the store that maps each id to at most one record.

use vstd::prelude::*;

verus! {

/// Mathematical model of a movie record: the four fields as plain values.
#[verifier::ext_equal]
pub ghost struct MovieView {
    pub id: Seq<char>,
    pub name: Seq<char>,
    pub year: u16,
    pub was_good: bool,
}

/// A movie record: a string key chosen by the client, a display title, a
/// release year and a client-supplied judgment flag.
#[derive(Debug)]
pub struct Movie {
    pub id: String,
    pub name: String,
    pub year: u16,
    pub was_good: bool,
}

impl View for Movie {
    type V = MovieView;

    open spec fn view(&self) -> MovieView {
        MovieView { id: self.id@, name: self.name@, year: self.year, was_good: self.was_good }
    }
}

impl Movie {
    /// Builds a record from borrowed strings; all four fields are kept as given.
    pub fn new(id: &str, name: &str, year: u16, was_good: bool) -> (r: Self)
        ensures
            r@.id == id@,
            r@.name == name@,
            r@.year == year,
            r@.was_good == was_good,
    {
        Movie { id: id.to_owned(), name: name.to_owned(), year, was_good }
    }

    /// Returns an independent copy: a snapshot that later mutation of the
    /// original cannot reach.
    pub fn duplicate(&self) -> (r: Movie)
        ensures
            r@ == self@,
    {
        Movie {
            id: self.id.clone(),
            name: self.name.clone(),
            year: self.year,
            was_good: self.was_good,
        }
    }
}

/// True when some record in `s` carries the id `k`.
pub open spec fn has_id(s: Seq<Movie>, k: Seq<char>) -> bool {
    exists|i: int| 0 <= i < s.len() && (#[trigger] s[i]).id@ == k
}

/// The position of the record carrying `k`, where one exists.
pub open spec fn index_of_id(s: Seq<Movie>, k: Seq<char>) -> int {
    choose|i: int| 0 <= i < s.len() && (#[trigger] s[i]).id@ == k
}

/// No two records in `s` carry the same id.
pub open spec fn unique_ids(s: Seq<Movie>) -> bool {
    forall|i: int, j: int|
        0 <= i < s.len() && 0 <= j < s.len() && i != j ==> (#[trigger] s[i]).id@ != (
        #[trigger] s[j]).id@
}

/// The mapping a sequence of records stands for: each id to its record.
pub open spec fn map_of(s: Seq<Movie>) -> Map<Seq<char>, MovieView> {
    Map::new(|k: Seq<char>| has_id(s, k), |k: Seq<char>| s[index_of_id(s, k)]@)
}

/// What a point lookup yields on the abstract mapping.
pub open spec fn spec_get(m: Map<Seq<char>, MovieView>, k: Seq<char>) -> Option<MovieView> {
    if m.contains_key(k) {
        Some(m[k])
    } else {
        None
    }
}

/// What an insert-or-replace yields on the abstract mapping.
pub open spec fn spec_put(m: Map<Seq<char>, MovieView>, mv: MovieView) -> Map<
    Seq<char>,
    MovieView,
> {
    m.insert(mv.id, mv)
}

/// The in-memory mapping from movie id to movie record. At most one record
/// per id is ever held; inserting an id already present replaces the whole
/// prior record.
pub struct Store {
    movies: Vec<Movie>,
}

impl View for Store {
    type V = Map<Seq<char>, MovieView>;

    closed spec fn view(&self) -> Map<Seq<char>, MovieView> {
        map_of(self.movies@)
    }
}

impl Store {
    /// Internal well-formedness: ids are unique among the held records.
    pub closed spec fn wf(&self) -> bool {
        unique_ids(self.movies@)
    }

    /// An empty store: no id maps to anything.
    pub fn new() -> (r: Store)
        ensures
            r.wf(),
            r@ == Map::<Seq<char>, MovieView>::empty(),
    {
        let r = Store { movies: Vec::new() };
        proof {
            assert(r@ =~= Map::<Seq<char>, MovieView>::empty());
        }
        r
    }

    /// Point lookup under shared access: a snapshot of the record held for
    /// `id`, or nothing when no record carries that id. The store itself is
    /// never changed.
    pub fn get(&self, id: &String) -> (r: Option<Movie>)
        requires
            self.wf(),
        ensures
            match r {
                Some(m) => spec_get(self@, id@) == Some(m@),
                None => spec_get(self@, id@) is None,
            },
    {
        let n = self.movies.len();
        let mut i: usize = 0;
        while i < n
            invariant
                n == self.movies@.len(),
                0 <= i <= n,
                unique_ids(self.movies@),
                forall|j: int| 0 <= j < i ==> (#[trigger] self.movies@[j]).id@ != id@,
            decreases n - i,
        {
            if self.movies[i].id == *id {
                proof {
                    lemma_map_of_found(self.movies@, id@, i as int);
                }
                return Some(self.movies[i].duplicate());
            }
            i += 1;
        }
        proof {
            lemma_map_of_absent(self.movies@, id@);
        }
        None
    }

    /// Insert-or-replace under exclusive access: after the call the store
    /// maps `m`'s id to `m`, whole record, and no other id changes.
    pub fn put(&mut self, m: Movie)
        requires
            old(self).wf(),
        ensures
            final(self).wf(),
            final(self)@ == spec_put(old(self)@, m@),
    {
        let n = self.movies.len();
        let mut i: usize = 0;
        while i < n
            invariant
                n == self.movies@.len(),
                0 <= i <= n,
                unique_ids(self.movies@),
                self.movies@ == old(self).movies@,
                forall|j: int| 0 <= j < i ==> (#[trigger] self.movies@[j]).id@ != m.id@,
            decreases n - i,
        {
            if self.movies[i].id == m.id {
                proof {
                    lemma_map_of_update(self.movies@, m, i as int);
                }
                self.movies[i] = m;
                return;
            }
            i += 1;
        }
        proof {
            lemma_map_of_push(self.movies@, m);
        }
        self.movies.push(m);
    }
}

/// A record found at position `i` under unique ids is what the mapping
/// holds for its id.
proof fn lemma_map_of_found(s: Seq<Movie>, k: Seq<char>, i: int)
    requires
        unique_ids(s),
        0 <= i < s.len(),
        s[i].id@ == k,
    ensures
        map_of(s).contains_key(k),
        map_of(s)[k] == s[i]@,
{
    assert(has_id(s, k));
    let j = index_of_id(s, k);
    assert(0 <= j < s.len() && s[j].id@ == k);
    assert(j == i);
}

/// An id carried by no record is absent from the mapping.
proof fn lemma_map_of_absent(s: Seq<Movie>, k: Seq<char>)
    requires
        forall|j: int| 0 <= j < s.len() ==> (#[trigger] s[j]).id@ != k,
    ensures
        !map_of(s).contains_key(k),
{
}

/// Replacing the one record that carries `m`'s id turns the mapping into
/// the mapping with that id re-bound to `m`.
proof fn lemma_map_of_update(s: Seq<Movie>, m: Movie, i: int)
    requires
        unique_ids(s),
        0 <= i < s.len(),
        s[i].id@ == m.id@,
    ensures
        unique_ids(s.update(i, m)),
        map_of(s.update(i, m)) == spec_put(map_of(s), m@),
{
    let s2 = s.update(i, m);
    assert(forall|j: int| 0 <= j < s.len() ==> (#[trigger] s2[j]).id@ == s[j].id@);
    assert(unique_ids(s2));
    assert forall|k: Seq<char>| map_of(s2).contains_key(k) <==> spec_put(
        map_of(s),
        m@,
    ).contains_key(k) by {
        if has_id(s2, k) {
            let j = index_of_id(s2, k);
            assert(s[j].id@ == k);
            assert(has_id(s, k));
        }
        if has_id(s, k) {
            let j = index_of_id(s, k);
            assert(s2[j].id@ == k);
            assert(has_id(s2, k));
        }
    }
    assert forall|k: Seq<char>| map_of(s2).contains_key(k) implies map_of(s2)[k] == spec_put(
        map_of(s),
        m@,
    )[k] by {
        let j = index_of_id(s2, k);
        assert(0 <= j < s2.len() && s2[j].id@ == k);
        if k == m.id@ {
            assert(s2[j].id@ == s[j].id@ && s[i].id@ == k);
            assert(j == i);
            assert(map_of(s2)[k] == m@);
        } else {
            assert(j != i);
            assert(s2[j] == s[j]);
            lemma_map_of_found(s, k, j);
            assert(map_of(s2)[k] == s[j]@);
        }
    }
    assert(map_of(s2) =~= spec_put(map_of(s), m@));
}

/// Appending a record whose id no held record carries turns the mapping
/// into the mapping with that id newly bound.
proof fn lemma_map_of_push(s: Seq<Movie>, m: Movie)
    requires
        unique_ids(s),
        forall|j: int| 0 <= j < s.len() ==> (#[trigger] s[j]).id@ != m.id@,
    ensures
        unique_ids(s.push(m)),
        map_of(s.push(m)) == spec_put(map_of(s), m@),
{
    let s2 = s.push(m);
    assert(forall|j: int| 0 <= j < s.len() ==> s2[j] == s[j]);
    assert(s2[s.len() as int] == m);
    assert(unique_ids(s2));
    assert forall|k: Seq<char>| map_of(s2).contains_key(k) <==> spec_put(
        map_of(s),
        m@,
    ).contains_key(k) by {
        if has_id(s2, k) {
            let j = index_of_id(s2, k);
            if j < s.len() {
                assert(has_id(s, k));
            } else {
                assert(k == m.id@);
            }
        }
        if has_id(s, k) {
            let j = index_of_id(s, k);
            assert(s2[j].id@ == k);
            assert(has_id(s2, k));
        }
        if k == m.id@ {
            assert(s2[s.len() as int].id@ == k);
            assert(has_id(s2, k));
        }
    }
    assert forall|k: Seq<char>| map_of(s2).contains_key(k) implies map_of(s2)[k] == spec_put(
        map_of(s),
        m@,
    )[k] by {
        let j = index_of_id(s2, k);
        assert(0 <= j < s2.len() && s2[j].id@ == k);
        if k == m.id@ {
            if j < s.len() {
                assert(s[j].id@ == m.id@);
                assert(false);
            }
            assert(map_of(s2)[k] == m@);
        } else {
            assert(j != s.len());
            assert(s2[j] == s[j]);
            lemma_map_of_found(s, k, j);
            assert(map_of(s2)[k] == s[j]@);
        }
    }
    assert(map_of(s2) =~= spec_put(map_of(s), m@));
}

/// Every record the store holds carries the id it is filed under.
pub proof fn lemma_value_carries_key(store: &Store, k: Seq<char>)
    requires
        store@.contains_key(k),
    ensures
        store@[k].id == k,
{
    let s = store.movies@;
    let j = index_of_id(s, k);
    assert(0 <= j < s.len() && s[j].id@ == k);
}

impl PartialEq for Movie {
    fn eq(&self, other: &Movie) -> (r: bool) {
        self.id == other.id && self.name == other.name && self.year == other.year
            && self.was_good == other.was_good
    }
}

impl vstd::std_specs::cmp::PartialEqSpecImpl for Movie {
    open spec fn obeys_eq_spec() -> bool {
        true
    }

    open spec fn eq_spec(&self, other: &Movie) -> bool {
        self@ == other@
    }
}

} // verus!
