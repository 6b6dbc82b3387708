//! Mathematical model of an association list read as a map.
//!
//! The grouped pool views are built as vectors of keyed entries; `assoc_map`
//! is the map such a vector denotes, with a later entry for the same key
//! overriding an earlier one (last write wins). The lemmas here let the
//! executable insert-or-replace operations relate their result to
//! `Map::insert` on the denoted map.

use vstd::prelude::*;

verus! {

/// The map denoted by the entry sequence `s`, where `kf` projects an entry's
/// key and `vf` its value. A later entry overrides an earlier one.
pub open spec fn assoc_map<E, K, V>(s: Seq<E>, kf: spec_fn(E) -> K, vf: spec_fn(E) -> V) -> Map<
    K,
    V,
>
    decreases s.len(),
{
    if s.len() == 0 {
        Map::empty()
    } else {
        assoc_map(s.drop_last(), kf, vf).insert(kf(s.last()), vf(s.last()))
    }
}

/// A key is in the denoted map exactly when some entry carries it.
pub proof fn lemma_assoc_map_dom<E, K, V>(s: Seq<E>, kf: spec_fn(E) -> K, vf: spec_fn(E) -> V)
    ensures
        forall|k: K|
            assoc_map(s, kf, vf).dom().contains(k) <==> exists|i: int|
                0 <= i < s.len() && kf(#[trigger] s[i]) == k,
    decreases s.len(),
{
    if s.len() > 0 {
        let d = s.drop_last();
        lemma_assoc_map_dom(d, kf, vf);
        assert forall|k: K| assoc_map(s, kf, vf).dom().contains(k) implies exists|i: int|
            0 <= i < s.len() && kf(#[trigger] s[i]) == k by {
            if kf(s.last()) == k {
                assert(s.last() == s[s.len() - 1]);
                assert(kf(s[s.len() - 1]) == k);
            } else {
                assert(assoc_map(d, kf, vf).dom().contains(k));
                let i = choose|i: int| 0 <= i < d.len() && kf(#[trigger] d[i]) == k;
                assert(d[i] == s[i]);
                assert(kf(s[i]) == k);
            }
        }
        assert forall|k: K|
            exists|i: int| 0 <= i < s.len() && kf(#[trigger] s[i]) == k implies assoc_map(
            s,
            kf,
            vf,
        ).dom().contains(k) by {
            let i = choose|i: int| 0 <= i < s.len() && kf(#[trigger] s[i]) == k;
            if i < s.len() - 1 {
                assert(d[i] == s[i]);
                assert(kf(d[i]) == k);
                assert(assoc_map(d, kf, vf).dom().contains(k));
            } else {
                assert(kf(s.last()) == k);
            }
        }
    }
}

/// If entry `i` carries key `k` and no later entry does, the denoted map
/// sends `k` to entry `i`'s value.
pub proof fn lemma_assoc_map_get<E, K, V>(
    s: Seq<E>,
    kf: spec_fn(E) -> K,
    vf: spec_fn(E) -> V,
    i: int,
)
    requires
        0 <= i < s.len(),
        forall|j: int| i < j < s.len() ==> kf(#[trigger] s[j]) != kf(s[i]),
    ensures
        assoc_map(s, kf, vf).dom().contains(kf(s[i])),
        assoc_map(s, kf, vf)[kf(s[i])] == vf(s[i]),
    decreases s.len(),
{
    if i == s.len() - 1 {
    } else {
        assert(forall|j: int|
            i < j < s.drop_last().len() ==> kf(#[trigger] s.drop_last()[j]) != kf(
                s.drop_last()[i],
            ));
        lemma_assoc_map_get(s.drop_last(), kf, vf, i);
        assert(kf(s.last()) == kf(s[s.len() - 1]));
        assert(kf(s.last()) != kf(s[i]));
    }
}

/// Replacing entry `i` by another entry with the same key turns the denoted
/// map into an insert at that key, provided no other entry shares the key.
pub proof fn lemma_assoc_map_update<E, K, V>(
    s: Seq<E>,
    kf: spec_fn(E) -> K,
    vf: spec_fn(E) -> V,
    i: int,
    e: E,
)
    requires
        0 <= i < s.len(),
        kf(e) == kf(s[i]),
        forall|j: int| 0 <= j < s.len() && j != i ==> kf(#[trigger] s[j]) != kf(s[i]),
    ensures
        assoc_map(s.update(i, e), kf, vf) == assoc_map(s, kf, vf).insert(kf(e), vf(e)),
    decreases s.len(),
{
    let s2 = s.update(i, e);
    if i == s.len() - 1 {
        assert(s2.drop_last() =~= s.drop_last());
        assert(s2.last() == e);
        assert(assoc_map(s2, kf, vf) =~= assoc_map(s, kf, vf).insert(kf(e), vf(e)));
    } else {
        assert(s2.drop_last() =~= s.drop_last().update(i, e));
        assert(s2.last() == s.last());
        assert(forall|j: int|
            0 <= j < s.drop_last().len() && j != i ==> kf(#[trigger] s.drop_last()[j]) != kf(
                s.drop_last()[i],
            ));
        lemma_assoc_map_update(s.drop_last(), kf, vf, i, e);
        assert(kf(s.last()) != kf(e));
        assert(assoc_map(s2, kf, vf) =~= assoc_map(s, kf, vf).insert(kf(e), vf(e)));
    }
}

/// Appending an entry turns the denoted map into an insert at its key.
pub proof fn lemma_assoc_map_push<E, K, V>(
    s: Seq<E>,
    kf: spec_fn(E) -> K,
    vf: spec_fn(E) -> V,
    e: E,
)
    ensures
        assoc_map(s.push(e), kf, vf) == assoc_map(s, kf, vf).insert(kf(e), vf(e)),
{
    assert(s.push(e).drop_last() =~= s);
    assert(s.push(e).last() == e);
}

/// Removing entry `i` and reinserting an entry at the same position is the
/// same sequence as updating position `i`.
pub proof fn lemma_remove_insert_is_update<E>(s: Seq<E>, i: int, e: E)
    requires
        0 <= i < s.len(),
    ensures
        s.remove(i).insert(i, e) == s.update(i, e),
{
    assert(s.remove(i).insert(i, e) =~= s.update(i, e));
}

} // verus!
