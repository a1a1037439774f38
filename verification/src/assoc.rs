//! Association lists: sequences of key-value pairs read as dictionaries.
use vstd::prelude::*;

verus! {

/// No key occurs twice.
pub open spec fn keys_distinct<K, V>(s: Seq<(K, V)>) -> bool {
    forall|i: int, j: int| 0 <= i < j < s.len() ==> s[i].0 != s[j].0
}

/// The dictionary the pairs make, a later pair for a key replacing an
/// earlier one.
pub open spec fn assoc_map<K, V>(s: Seq<(K, V)>) -> Map<K, V>
    decreases s.len(),
{
    if s.len() == 0 {
        Map::empty()
    } else {
        assoc_map(s.drop_last()).insert(s.last().0, s.last().1)
    }
}

/// A key is in the dictionary exactly when some pair has it.
pub proof fn lemma_assoc_map_contains<K, V>(s: Seq<(K, V)>, k: K)
    ensures
        assoc_map(s).dom().contains(k) <==> exists|i: int| 0 <= i < s.len() && s[i].0 == k,
    decreases s.len(),
{
    if s.len() > 0 {
        lemma_assoc_map_contains(s.drop_last(), k);
        if assoc_map(s).dom().contains(k) {
            if s.last().0 == k {
                assert(s[s.len() - 1].0 == k);
            } else {
                let i = choose|i: int| 0 <= i < s.drop_last().len() && s.drop_last()[i].0 == k;
                assert(s[i].0 == k);
            }
        } else {
            assert forall|i: int| 0 <= i < s.len() implies s[i].0 != k by {
                if i < s.len() - 1 {
                    assert(s.drop_last()[i] == s[i]);
                }
            }
        }
    }
}

/// With distinct keys, the dictionary maps each pair's key to its value.
pub proof fn lemma_assoc_map_index<K, V>(s: Seq<(K, V)>, i: int)
    requires
        keys_distinct(s),
        0 <= i < s.len(),
    ensures
        assoc_map(s).dom().contains(s[i].0),
        assoc_map(s)[s[i].0] == s[i].1,
    decreases s.len(),
{
    if i < s.len() - 1 {
        assert(s.drop_last()[i] == s[i]);
        lemma_assoc_map_index(s.drop_last(), i);
    }
}

/// With distinct keys, the dictionary of `s` is `m` when `m` holds every
/// pair of `s` and no key that `s` lacks.
pub proof fn lemma_assoc_map_ext<K, V>(s: Seq<(K, V)>, m: Map<K, V>)
    requires
        keys_distinct(s),
        forall|i: int| 0 <= i < s.len() ==> m.dom().contains(#[trigger] s[i].0) && m[s[i].0] == s[i].1,
        forall|k: K| m.dom().contains(k) ==> exists|i: int| 0 <= i < s.len() && #[trigger] s[i].0 == k,
    ensures
        assoc_map(s) == m,
{
    assert forall|k: K| #[trigger] assoc_map(s).dom().contains(k) <==> m.dom().contains(k) by {
        lemma_assoc_map_contains(s, k);
    }
    assert forall|k: K| assoc_map(s).dom().contains(k) implies #[trigger] assoc_map(s)[k] == m[k] by {
        lemma_assoc_map_contains(s, k);
        let i = choose|i: int| 0 <= i < s.len() && s[i].0 == k;
        lemma_assoc_map_index(s, i);
    }
    assert(assoc_map(s) =~= m);
}

} // verus!
