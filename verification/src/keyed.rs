//! Records found by their identifier.
//!
//! The records of the library live in vectors; each record carries a string
//! key. A vector whose keys are pairwise distinct stands for a map from key to
//! record, and the lemmas here relate the vector operations to that map.

use vstd::prelude::*;

verus! {

/// A record that carries a string identifier.
pub trait Keyed: View + Sized {
    /// The identifier, as characters.
    spec fn key_of(&self) -> Seq<char>;

    /// The identifier.
    fn key(&self) -> (k: &String)
        ensures
            k@ == self.key_of(),
    ;
}

/// No two records share a key.
pub open spec fn keys_unique<T: Keyed>(s: Seq<T>) -> bool {
    forall|i: int, j: int|
        0 <= i < s.len() && 0 <= j < s.len() && i != j ==> #[trigger] s[i].key_of()
            != #[trigger] s[j].key_of()
}

/// Some record has key `k`.
pub open spec fn has_key<T: Keyed>(s: Seq<T>, k: Seq<char>) -> bool {
    exists|i: int| 0 <= i < s.len() && #[trigger] s[i].key_of() == k
}

/// The map from key to record view that a sequence of records stands for;
/// where two records share a key, the later one wins.
pub open spec fn to_map<T: Keyed>(s: Seq<T>) -> Map<Seq<char>, T::V>
    decreases s.len(),
{
    if s.len() == 0 {
        Map::empty()
    } else {
        to_map(s.drop_last()).insert(s.last().key_of(), s.last()@)
    }
}

/// The position of the first record with key `k`.
pub open spec fn first_with_key<T: Keyed>(s: Seq<T>, k: Seq<char>) -> Option<int>
    decreases s.len(),
{
    if s.len() == 0 {
        None
    } else if s[0].key_of() == k {
        Some(0)
    } else {
        match first_with_key(s.drop_first(), k) {
            Some(i) => Some(i + 1),
            None => None,
        }
    }
}

/// `first_with_key` finds the least position whose key is `k`, and finds
/// nothing exactly when no record has key `k`.
pub proof fn lemma_first_with_key<T: Keyed>(s: Seq<T>, k: Seq<char>)
    ensures
        match first_with_key(s, k) {
            Some(i) => 0 <= i < s.len() && s[i].key_of() == k && forall|j: int|
                0 <= j < i ==> #[trigger] s[j].key_of() != k,
            None => forall|j: int| 0 <= j < s.len() ==> #[trigger] s[j].key_of() != k,
        },
    decreases s.len(),
{
    if s.len() > 0 && s[0].key_of() != k {
        lemma_first_with_key(s.drop_first(), k);
        match first_with_key(s.drop_first(), k) {
            Some(i) => {
                assert forall|j: int| 0 <= j < i + 1 implies #[trigger] s[j].key_of() != k by {
                    if j > 0 {
                        assert(s[j] == s.drop_first()[j - 1]);
                    }
                }
            },
            None => {
                assert forall|j: int| 0 <= j < s.len() implies #[trigger] s[j].key_of() != k by {
                    if j > 0 {
                        assert(s[j] == s.drop_first()[j - 1]);
                    }
                }
            },
        }
    }
}

/// The map has key `k` exactly when some record has it, and then holds the
/// view of the last such record.
pub proof fn lemma_to_map_lookup<T: Keyed>(s: Seq<T>, k: Seq<char>)
    ensures
        to_map(s).contains_key(k) <==> has_key(s, k),
        keys_unique(s) ==> forall|i: int|
            0 <= i < s.len() && #[trigger] s[i].key_of() == k ==> to_map(s)[k] == s[i]@,
    decreases s.len(),
{
    if s.len() > 0 {
        let t = s.drop_last();
        lemma_to_map_lookup(t, k);
        assert forall|i: int| 0 <= i < t.len() implies #[trigger] t[i] == s[i] by {}
        if has_key(t, k) {
            let i = choose|i: int| 0 <= i < t.len() && #[trigger] t[i].key_of() == k;
            assert(s[i].key_of() == k);
        }
        if has_key(s, k) && s.last().key_of() != k {
            let i = choose|i: int| 0 <= i < s.len() && #[trigger] s[i].key_of() == k;
            assert(t[i].key_of() == k);
        }
        if keys_unique(s) {
            assert(keys_unique(t));
        }
    }
}

/// The map of distinct-keyed records has as many entries as there are records.
pub proof fn lemma_to_map_len<T: Keyed>(s: Seq<T>)
    requires
        keys_unique(s),
    ensures
        to_map(s).dom().finite(),
        to_map(s).len() == s.len(),
    decreases s.len(),
{
    if s.len() > 0 {
        let t = s.drop_last();
        assert(keys_unique(t));
        lemma_to_map_len(t);
        lemma_to_map_lookup(t, s.last().key_of());
        if has_key(t, s.last().key_of()) {
            let i = choose|i: int| 0 <= i < t.len() && #[trigger] t[i].key_of() == s.last().key_of();
            assert(s[i].key_of() == s[s.len() - 1].key_of());
        }
    }
}

/// Pushing a record adds its key to the map, and keeps the keys distinct when
/// the key was new.
pub proof fn lemma_to_map_push<T: Keyed>(s: Seq<T>, v: T)
    ensures
        to_map(s.push(v)) == to_map(s).insert(v.key_of(), v@),
        keys_unique(s) && !has_key(s, v.key_of()) ==> keys_unique(s.push(v)),
{
    assert(s.push(v).drop_last() =~= s);
    if keys_unique(s) && !has_key(s, v.key_of()) {
        assert forall|i: int, j: int|
            0 <= i < s.push(v).len() && 0 <= j < s.push(v).len() && i != j implies #[trigger] s.push(
            v,
        )[i].key_of() != #[trigger] s.push(v)[j].key_of() by {
            if i < s.len() && j < s.len() {
                assert(s.push(v)[i] == s[i] && s.push(v)[j] == s[j]);
            } else if i < s.len() {
                assert(s.push(v)[i] == s[i]);
            } else {
                assert(s.push(v)[j] == s[j]);
            }
        }
    }
}

/// Replacing a record by one with the same key replaces its entry in the map.
pub proof fn lemma_to_map_update<T: Keyed>(s: Seq<T>, i: int, v: T)
    requires
        keys_unique(s),
        0 <= i < s.len(),
        s[i].key_of() == v.key_of(),
    ensures
        keys_unique(s.update(i, v)),
        to_map(s.update(i, v)) == to_map(s).insert(v.key_of(), v@),
    decreases s.len(),
{
    let u = s.update(i, v);
    assert forall|a: int, b: int|
        0 <= a < u.len() && 0 <= b < u.len() && a != b implies #[trigger] u[a].key_of()
        != #[trigger] u[b].key_of() by {
        assert(u[a].key_of() == s[a].key_of());
        assert(u[b].key_of() == s[b].key_of());
    }
    if i == s.len() - 1 {
        assert(u.drop_last() =~= s.drop_last());
    } else {
        let t = s.drop_last();
        assert(keys_unique(t));
        lemma_to_map_update(t, i, v);
        assert(u.drop_last() =~= t.update(i, v));
        assert(s.last().key_of() != v.key_of());
        assert(to_map(u) =~= to_map(s).insert(v.key_of(), v@));
    }
}

/// The position of the first record with key `k`.
pub fn position_of<T: Keyed>(v: &Vec<T>, k: &String) -> (r: Option<usize>)
    ensures
        r matches Some(i) ==> first_with_key(v@, k@) == Some(i as int) && i < v@.len()
            && v@[i as int].key_of() == k@,
        r is None ==> first_with_key(v@, k@) is None,
        r is None <==> !has_key(v@, k@),
{
    proof {
        lemma_first_with_key(v@, k@);
    }
    let mut i: usize = 0;
    while i < v.len()
        invariant
            i <= v@.len(),
            forall|j: int| 0 <= j < i ==> #[trigger] v@[j].key_of() != k@,
        decreases v@.len() - i,
    {
        if v[i].key().eq(k) {
            proof {
                lemma_first_with_key(v@, k@);
                assert(v@[i as int].key_of() == k@);
            }
            return Some(i);
        }
        i += 1;
    }
    None
}

/// Whether `v` holds a string equal to `s`.
pub fn contains_string(v: &Vec<String>, s: &String) -> (r: bool)
    ensures
        r == v.deep_view().contains(s@),
{
    let mut i: usize = 0;
    while i < v.len()
        invariant
            i <= v@.len(),
            forall|j: int| 0 <= j < i ==> #[trigger] v.deep_view()[j] != s@,
        decreases v@.len() - i,
    {
        if v[i].eq(s) {
            assert(v.deep_view()[i as int] == s@);
            return true;
        }
        i += 1;
    }
    false
}

} // verus!
