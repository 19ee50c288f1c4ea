//! Association sequences with a `Map` view.
//!
//! The registry's keyed state lives in short vectors of key/value pairs with
//! pairwise-distinct keys.  Contracts speak of them through [`assoc_map`];
//! the lemmas here carry that view across the push, update and removal the
//! executable code performs.

use vstd::prelude::*;

verus! {

/// The map an association sequence stands for; with distinct keys the order
/// of the pairs does not matter.
pub open spec fn assoc_map<K, V>(s: Seq<(K, V)>) -> Map<K, V>
    decreases s.len(),
{
    if s.len() == 0 {
        Map::empty()
    } else {
        assoc_map(s.drop_last()).insert(s.last().0, s.last().1)
    }
}

/// No key appears twice.
pub open spec fn assoc_keys_unique<K, V>(s: Seq<(K, V)>) -> bool {
    forall|i: int, j: int| 0 <= i < j < s.len() ==> (#[trigger] s[i]).0 != (#[trigger] s[j]).0
}

/// With distinct keys, the map contains exactly the keys of the sequence,
/// each bound to the value paired with it.
pub proof fn lemma_assoc_props<K, V>(s: Seq<(K, V)>)
    requires
        assoc_keys_unique(s),
    ensures
        forall|k: K|
            #[trigger] assoc_map(s).contains_key(k) <==> (exists|i: int|
                0 <= i < s.len() && (#[trigger] s[i]).0 == k),
        forall|i: int|
            0 <= i < s.len() ==> assoc_map(s).contains_key((#[trigger] s[i]).0) && assoc_map(
                s,
            )[s[i].0] == s[i].1,
    decreases s.len(),
{
    if s.len() > 0 {
        let dl = s.drop_last();
        assert(forall|i: int| 0 <= i < dl.len() ==> dl[i] == s[i]);
        lemma_assoc_props(dl);
        assert forall|k: K| #[trigger] assoc_map(s).contains_key(k) implies (exists|i: int|
            0 <= i < s.len() && (#[trigger] s[i]).0 == k) by {
            if k == s.last().0 {
                assert(s[s.len() - 1].0 == k);
            } else {
                assert(assoc_map(dl).contains_key(k));
                let i = choose|i: int| 0 <= i < dl.len() && (#[trigger] dl[i]).0 == k;
                assert(s[i].0 == k);
            }
        }
        assert forall|k: K| (exists|i: int|
            0 <= i < s.len() && (#[trigger] s[i]).0 == k) implies #[trigger] assoc_map(
            s,
        ).contains_key(k) by {
            let i = choose|i: int| 0 <= i < s.len() && (#[trigger] s[i]).0 == k;
            if i < s.len() - 1 {
                assert(dl[i].0 == k);
                assert(assoc_map(dl).contains_key(k));
            }
        }
        assert forall|i: int| 0 <= i < s.len() implies assoc_map(s).contains_key(
            (#[trigger] s[i]).0,
        ) && assoc_map(s)[s[i].0] == s[i].1 by {
            if i < s.len() - 1 {
                assert(s[i].0 != s.last().0);
            }
        }
    }
}

/// Appending a pair whose key is absent inserts it into the map.
pub proof fn lemma_assoc_push<K, V>(s: Seq<(K, V)>, k: K, v: V)
    ensures
        assoc_map(s.push((k, v))) == assoc_map(s).insert(k, v),
{
    assert(s.push((k, v)).drop_last() == s);
}

/// Replacing the value at a position rebinds that key in the map, and keys
/// stay distinct.
pub proof fn lemma_assoc_update<K, V>(s: Seq<(K, V)>, i: int, v: V)
    requires
        assoc_keys_unique(s),
        0 <= i < s.len(),
    ensures
        assoc_map(s.update(i, (s[i].0, v))) == assoc_map(s).insert(s[i].0, v),
        assoc_keys_unique(s.update(i, (s[i].0, v))),
    decreases s.len(),
{
    let k = s[i].0;
    let u = s.update(i, (k, v));
    assert(forall|a: int| 0 <= a < s.len() && a != i ==> u[a] == s[a]);
    assert(u[i].0 == k);
    if i == s.len() - 1 {
        assert(u.drop_last() == s.drop_last());
        assert(assoc_map(u) =~= assoc_map(s).insert(k, v));
    } else {
        let dl = s.drop_last();
        assert(forall|j: int| 0 <= j < dl.len() ==> dl[j] == s[j]);
        assert(u.drop_last() =~= dl.update(i, (k, v)));
        lemma_assoc_update(dl, i, v);
        assert(k != s.last().0);
        assert(u.last() == s.last());
        assert(assoc_map(u) =~= assoc_map(s).insert(k, v));
    }
}

/// Removing a position removes its key from the map, and keys stay
/// distinct.
pub proof fn lemma_assoc_remove<K, V>(s: Seq<(K, V)>, i: int)
    requires
        assoc_keys_unique(s),
        0 <= i < s.len(),
    ensures
        assoc_map(s.remove(i)) == assoc_map(s).remove(s[i].0),
        assoc_keys_unique(s.remove(i)),
    decreases s.len(),
{
    let k = s[i].0;
    let r = s.remove(i);
    let dl = s.drop_last();
    assert(forall|j: int| 0 <= j < dl.len() ==> dl[j] == s[j]);
    assert(forall|j: int| 0 <= j < i ==> r[j] == s[j]);
    assert(forall|j: int| i <= j < r.len() ==> r[j] == s[j + 1]);
    assert(assoc_keys_unique(r)) by {
        assert forall|a: int, b: int| 0 <= a < b < r.len() implies (#[trigger] r[a]).0 != (
        #[trigger] r[b]).0 by {
            let sa = if a < i {
                a
            } else {
                a + 1
            };
            let sb = if b < i {
                b
            } else {
                b + 1
            };
            assert(r[a] == s[sa] && r[b] == s[sb] && sa < sb);
        }
    }
    if i == s.len() - 1 {
        assert(r =~= dl);
        lemma_assoc_props(dl);
        assert(!assoc_map(dl).contains_key(k));
        assert(assoc_map(r) =~= assoc_map(s).remove(k));
    } else {
        assert(r.len() == s.len() - 1);
        assert(r.drop_last() =~= dl.remove(i));
        assert(r.last() == s.last());
        lemma_assoc_remove(dl, i);
        assert(k != s.last().0);
        assert(assoc_map(r) == assoc_map(dl.remove(i)).insert(s.last().0, s.last().1));
        assert(assoc_map(r) =~= assoc_map(s).remove(k));
    }
}

} // verus!
