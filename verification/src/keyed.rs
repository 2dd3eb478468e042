//! Maps modelled by sequences whose entries carry distinct keys.

use vstd::prelude::*;

verus! {

/// No two entries of `s` have the same key.
pub open spec fn unique_keys<T, K>(s: Seq<T>, key: spec_fn(T) -> K) -> bool {
    forall|i: int, j: int| 0 <= i < s.len() && 0 <= j < s.len() && i != j ==> key(s[i]) != key(s[j])
}

/// Some entry of `s` has key `k`.
pub open spec fn has_key<T, K>(s: Seq<T>, key: spec_fn(T) -> K, k: K) -> bool {
    exists|i: int| 0 <= i < s.len() && key(s[i]) == k
}

/// The map from each key of `s` to the value of its entry.
pub open spec fn keyed_map<T, K, V>(s: Seq<T>, key: spec_fn(T) -> K, val: spec_fn(T) -> V) -> Map<K, V> {
    Map::new(
        |k: K| has_key(s, key, k),
        |k: K| val(s[choose|i: int| 0 <= i < s.len() && key(s[i]) == k]),
    )
}

/// The entry at `i` is what the map holds for its key.
pub proof fn lemma_keyed_at<T, K, V>(s: Seq<T>, key: spec_fn(T) -> K, val: spec_fn(T) -> V, i: int)
    requires
        unique_keys(s, key),
        0 <= i < s.len(),
    ensures
        keyed_map(s, key, val).contains_key(key(s[i])),
        keyed_map(s, key, val)[key(s[i])] == val(s[i]),
{
    let k = key(s[i]);
    assert(has_key(s, key, k));
    let j = choose|j: int| 0 <= j < s.len() && key(s[j]) == k;
    assert(j == i);
}

/// Appending an entry with a new key adds it to the map.
pub proof fn lemma_keyed_push<T, K, V>(s: Seq<T>, key: spec_fn(T) -> K, val: spec_fn(T) -> V, x: T)
    requires
        unique_keys(s, key),
        !has_key(s, key, key(x)),
    ensures
        unique_keys(s.push(x), key),
        keyed_map(s.push(x), key, val) == keyed_map(s, key, val).insert(key(x), val(x)),
{
    let t = s.push(x);
    assert(unique_keys(t, key)) by {
        assert forall|i: int, j: int|
            0 <= i < t.len() && 0 <= j < t.len() && i != j implies key(t[i]) != key(t[j]) by {
            if i < s.len() && j < s.len() {
                assert(t[i] == s[i] && t[j] == s[j]);
            } else if i < s.len() {
                assert(t[i] == s[i]);
            } else {
                assert(t[j] == s[j]);
            }
        }
    }
    let m1 = keyed_map(t, key, val);
    let m2 = keyed_map(s, key, val).insert(key(x), val(x));
    assert forall|k: K| m1.contains_key(k) <==> m2.contains_key(k) by {
        if has_key(t, key, k) {
            let i = choose|i: int| 0 <= i < t.len() && key(t[i]) == k;
            if i < s.len() {
                assert(t[i] == s[i]);
                assert(has_key(s, key, k));
            }
        }
        if has_key(s, key, k) {
            let i = choose|i: int| 0 <= i < s.len() && key(s[i]) == k;
            assert(t[i] == s[i]);
            assert(has_key(t, key, k));
        }
        if k == key(x) {
            assert(t[s.len() as int] == x);
            assert(has_key(t, key, k));
        }
    }
    assert forall|k: K| m1.contains_key(k) implies m1[k] == m2[k] by {
        let i = choose|i: int| 0 <= i < t.len() && key(t[i]) == k;
        lemma_keyed_at(t, key, val, i);
        if i < s.len() {
            assert(t[i] == s[i]);
            lemma_keyed_at(s, key, val, i);
        } else {
            assert(t[i] == x);
        }
    }
    assert(m1 =~= m2);
}

/// Replacing the entry at `i` by one with the same key updates the map there.
pub proof fn lemma_keyed_update<T, K, V>(
    s: Seq<T>,
    key: spec_fn(T) -> K,
    val: spec_fn(T) -> V,
    i: int,
    x: T,
)
    requires
        unique_keys(s, key),
        0 <= i < s.len(),
        key(x) == key(s[i]),
    ensures
        unique_keys(s.update(i, x), key),
        keyed_map(s.update(i, x), key, val) == keyed_map(s, key, val).insert(key(x), val(x)),
{
    let t = s.update(i, x);
    assert(unique_keys(t, key)) by {
        assert forall|a: int, b: int|
            0 <= a < t.len() && 0 <= b < t.len() && a != b implies key(t[a]) != key(t[b]) by {
            assert(key(t[a]) == key(s[a]));
            assert(key(t[b]) == key(s[b]));
        }
    }
    let m1 = keyed_map(t, key, val);
    let m2 = keyed_map(s, key, val).insert(key(x), val(x));
    assert forall|k: K| m1.contains_key(k) <==> m2.contains_key(k) by {
        if has_key(t, key, k) {
            let j = choose|j: int| 0 <= j < t.len() && key(t[j]) == k;
            assert(key(s[j]) == k);
            assert(has_key(s, key, k));
        }
        if has_key(s, key, k) {
            let j = choose|j: int| 0 <= j < s.len() && key(s[j]) == k;
            assert(key(t[j]) == k);
            assert(has_key(t, key, k));
        }
        assert(key(t[i]) == key(x));
    }
    assert forall|k: K| m1.contains_key(k) implies m1[k] == m2[k] by {
        let j = choose|j: int| 0 <= j < t.len() && key(t[j]) == k;
        lemma_keyed_at(t, key, val, j);
        if j != i {
            assert(t[j] == s[j]);
            lemma_keyed_at(s, key, val, j);
        }
    }
    assert(m1 =~= m2);
}

/// Removing the entry at `i` removes its key from the map.
pub proof fn lemma_keyed_remove<T, K, V>(s: Seq<T>, key: spec_fn(T) -> K, val: spec_fn(T) -> V, i: int)
    requires
        unique_keys(s, key),
        0 <= i < s.len(),
    ensures
        unique_keys(s.remove(i), key),
        keyed_map(s.remove(i), key, val) == keyed_map(s, key, val).remove(key(s[i])),
{
    let t = s.remove(i);
    assert forall|a: int| 0 <= a < t.len() implies t[a] == s[if a < i { a } else { a + 1 }] by {}
    assert(unique_keys(t, key)) by {
        assert forall|a: int, b: int|
            0 <= a < t.len() && 0 <= b < t.len() && a != b implies key(t[a]) != key(t[b]) by {
            assert(t[a] == s[if a < i { a } else { a + 1 }]);
            assert(t[b] == s[if b < i { b } else { b + 1 }]);
        }
    }
    let m1 = keyed_map(t, key, val);
    let m2 = keyed_map(s, key, val).remove(key(s[i]));
    assert forall|k: K| m1.contains_key(k) <==> m2.contains_key(k) by {
        if has_key(t, key, k) {
            let a = choose|a: int| 0 <= a < t.len() && key(t[a]) == k;
            let b = if a < i { a } else { a + 1 };
            assert(t[a] == s[b]);
            assert(has_key(s, key, k));
        }
        if has_key(s, key, k) && k != key(s[i]) {
            let b = choose|b: int| 0 <= b < s.len() && key(s[b]) == k;
            let a = if b < i { b } else { b - 1 };
            assert(t[a] == s[b]);
            assert(has_key(t, key, k));
        }
    }
    assert forall|k: K| m1.contains_key(k) implies m1[k] == m2[k] by {
        let a = choose|a: int| 0 <= a < t.len() && key(t[a]) == k;
        let b = if a < i { a } else { a + 1 };
        assert(t[a] == s[b]);
        lemma_keyed_at(t, key, val, a);
        lemma_keyed_at(s, key, val, b);
    }
    assert(m1 =~= m2);
}

/// With no entry for `k`, the map has no key `k`.
pub proof fn lemma_keyed_absent<T, K, V>(s: Seq<T>, key: spec_fn(T) -> K, val: spec_fn(T) -> V, k: K)
    requires
        forall|i: int| 0 <= i < s.len() ==> key(s[i]) != k,
    ensures
        !keyed_map(s, key, val).contains_key(k),
{
}

/// The map of an empty sequence is empty.
pub proof fn lemma_keyed_empty<T, K, V>(key: spec_fn(T) -> K, val: spec_fn(T) -> V)
    ensures
        unique_keys(Seq::<T>::empty(), key),
        keyed_map(Seq::<T>::empty(), key, val) == Map::<K, V>::empty(),
{
    assert(keyed_map(Seq::<T>::empty(), key, val) =~= Map::<K, V>::empty());
}


/// The map has exactly one key per entry.
pub proof fn lemma_keyed_len<T, K, V>(s: Seq<T>, key: spec_fn(T) -> K, val: spec_fn(T) -> V)
    requires
        unique_keys(s, key),
    ensures
        keyed_map(s, key, val).dom().finite(),
        keyed_map(s, key, val).len() == s.len(),
{
    let ks = s.map_values(key);
    assert(ks.no_duplicates()) by {
        assert forall|i: int, j: int|
            0 <= i < ks.len() && 0 <= j < ks.len() && i != j implies ks[i] != ks[j] by {}
    }
    ks.unique_seq_to_set();
    vstd::seq_lib::seq_to_set_is_finite(ks);
    assert forall|k: K| keyed_map(s, key, val).dom().contains(k) <==> ks.to_set().contains(k) by {
        if has_key(s, key, k) {
            let i = choose|i: int| 0 <= i < s.len() && key(s[i]) == k;
            assert(ks[i] == k);
        }
        if ks.contains(k) {
            let i = choose|i: int| 0 <= i < ks.len() && ks[i] == k;
            assert(key(s[i]) == k);
        }
    }
    assert(keyed_map(s, key, val).dom() =~= ks.to_set());
}


/// Sequences whose entries agree on keys and values give the same map.
pub proof fn lemma_keyed_same<T, K, V>(s: Seq<T>, t: Seq<T>, key: spec_fn(T) -> K, val: spec_fn(T) -> V)
    requires
        unique_keys(s, key),
        s.len() == t.len(),
        forall|i: int| 0 <= i < s.len() ==> key(#[trigger] t[i]) == key(s[i]) && val(t[i]) == val(s[i]),
    ensures
        unique_keys(t, key),
        keyed_map(t, key, val) == keyed_map(s, key, val),
{
    assert forall|i: int, j: int|
        0 <= i < t.len() && 0 <= j < t.len() && i != j implies key(t[i]) != key(t[j]) by {
        assert(key(t[i]) == key(s[i]));
        assert(key(t[j]) == key(s[j]));
    }
    let m1 = keyed_map(t, key, val);
    let m2 = keyed_map(s, key, val);
    assert forall|k: K| m1.contains_key(k) <==> m2.contains_key(k) by {
        if has_key(t, key, k) {
            let i = choose|i: int| 0 <= i < t.len() && key(t[i]) == k;
            assert(key(s[i]) == k);
        }
        if has_key(s, key, k) {
            let i = choose|i: int| 0 <= i < s.len() && key(s[i]) == k;
            assert(key(t[i]) == k);
        }
    }
    assert forall|k: K| m1.contains_key(k) implies m1[k] == m2[k] by {
        let i = choose|i: int| 0 <= i < t.len() && key(t[i]) == k;
        lemma_keyed_at(t, key, val, i);
        assert(key(s[i]) == k);
        lemma_keyed_at(s, key, val, i);
    }
    assert(m1 =~= m2);
}

} // verus!
