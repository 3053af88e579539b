use vstd::prelude::*;

verus! {

/// A list of `(key, value)` pairs with strictly increasing keys: the model
/// of a map kept sorted by key.
pub open spec fn keys_increasing<V>(s: Seq<(u32, V)>) -> bool {
    forall|i: int, j: int| 0 <= i < j < s.len() ==> (#[trigger] s[i]).0 < (#[trigger] s[j]).0
}

pub open spec fn has_key<V>(s: Seq<(u32, V)>, k: u32) -> bool {
    exists|i: int| 0 <= i < s.len() && (#[trigger] s[i]).0 == k
}

/// The value under key `k`, if any.
pub open spec fn lookup<V>(s: Seq<(u32, V)>, k: u32) -> Option<V> {
    if has_key(s, k) {
        Some(s[choose|i: int| 0 <= i < s.len() && (#[trigger] s[i]).0 == k].1)
    } else {
        None
    }
}

pub proof fn lemma_lookup_index<V>(s: Seq<(u32, V)>, i: int)
    requires
        keys_increasing(s),
        0 <= i < s.len(),
    ensures
        lookup(s, s[i].0) == Some(s[i].1),
{
    let k = s[i].0;
    assert(has_key(s, k));
    let j = choose|j: int| 0 <= j < s.len() && (#[trigger] s[j]).0 == k;
    if j < i {
        assert(s[j].0 < s[i].0);
    } else if j > i {
        assert(s[i].0 < s[j].0);
    }
}

/// Inserting a new key at its place keeps the keys increasing and adds the
/// key to the map.
pub proof fn lemma_insert<V>(s: Seq<(u32, V)>, p: int, k: u32, v: V)
    requires
        keys_increasing(s),
        0 <= p <= s.len(),
        forall|i: int| 0 <= i < p ==> (#[trigger] s[i]).0 < k,
        forall|i: int| p <= i < s.len() ==> (#[trigger] s[i]).0 > k,
    ensures
        keys_increasing(s.insert(p, (k, v))),
        forall|k2: u32| #[trigger]
            lookup(s.insert(p, (k, v)), k2) == if k2 == k {
                Some(v)
            } else {
                lookup(s, k2)
            },
{
    let t = s.insert(p, (k, v));
    assert forall|i: int, j: int| 0 <= i < j < t.len() implies (#[trigger] t[i]).0 < (#[trigger] t[j]).0 by {
        if j < p {
            assert(t[i] == s[i] && t[j] == s[j]);
        } else if j == p {
            assert(t[j] == (k, v));
            assert(t[i] == s[i]);
        } else if i < p {
            assert(t[i] == s[i] && t[j] == s[j - 1]);
        } else if i == p {
            assert(t[j] == s[j - 1]);
        } else {
            assert(t[i] == s[i - 1] && t[j] == s[j - 1]);
        }
    }
    assert forall|k2: u32| #[trigger]
        lookup(t, k2) == if k2 == k {
            Some(v)
        } else {
            lookup(s, k2)
        } by {
        if k2 == k {
            assert(t[p] == (k, v));
            lemma_lookup_index(t, p);
        } else {
            if has_key(s, k2) {
                let i = choose|i: int| 0 <= i < s.len() && (#[trigger] s[i]).0 == k2;
                lemma_lookup_index(s, i);
                let i2 = if i < p { i } else { i + 1 };
                assert(t[i2] == s[i]);
                lemma_lookup_index(t, i2);
            } else if has_key(t, k2) {
                let i = choose|i: int| 0 <= i < t.len() && (#[trigger] t[i]).0 == k2;
                if i < p {
                    assert(t[i] == s[i]);
                } else if i > p {
                    assert(t[i] == s[i - 1]);
                }
            }
        }
    }
}

/// Replacing the value at a position keeps the keys and changes that key's value.
pub proof fn lemma_update<V>(s: Seq<(u32, V)>, p: int, v: V)
    requires
        keys_increasing(s),
        0 <= p < s.len(),
    ensures
        keys_increasing(s.update(p, (s[p].0, v))),
        forall|k2: u32| #[trigger]
            lookup(s.update(p, (s[p].0, v)), k2) == if k2 == s[p].0 {
                Some(v)
            } else {
                lookup(s, k2)
            },
{
    let t = s.update(p, (s[p].0, v));
    assert forall|i: int, j: int| 0 <= i < j < t.len() implies (#[trigger] t[i]).0 < (#[trigger] t[j]).0 by {
        assert(s[i].0 < s[j].0);
    }
    assert forall|k2: u32| #[trigger]
        lookup(t, k2) == if k2 == s[p].0 {
            Some(v)
        } else {
            lookup(s, k2)
        } by {
        if k2 == s[p].0 {
            lemma_lookup_index(t, p);
        } else {
            if has_key(s, k2) {
                let i = choose|i: int| 0 <= i < s.len() && (#[trigger] s[i]).0 == k2;
                lemma_lookup_index(s, i);
                assert(t[i] == s[i]);
                lemma_lookup_index(t, i);
            } else if has_key(t, k2) {
                let i = choose|i: int| 0 <= i < t.len() && (#[trigger] t[i]).0 == k2;
                assert(i != p);
                assert(t[i] == s[i]);
            }
        }
    }
}

} // verus!
