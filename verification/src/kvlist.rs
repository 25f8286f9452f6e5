//! Association-list model shared by the storage tables.
//!
//! A table is a sequence of key/value pairs with pairwise-distinct keys.
//! `lookup` scans from the most recently added entry, `sum_values` adds up
//! every stored amount; the lemmas say how both behave under `push` and
//! `remove`, which is all the executable tables do.

use vstd::prelude::*;
use vstd::assert_seqs_equal;

verus! {

/// The value stored under key `k`, if any.
pub open spec fn lookup<K, V>(s: Seq<(K, V)>, k: K) -> Option<V>
    decreases s.len(),
{
    if s.len() == 0 {
        None
    } else if s.last().0 == k {
        Some(s.last().1)
    } else {
        lookup(s.drop_last(), k)
    }
}

/// The stored amount under key `k`, where an absent entry reads as zero.
pub open spec fn amount<K>(s: Seq<(K, u128)>, k: K) -> u128 {
    match lookup(s, k) {
        Some(v) => v,
        None => 0,
    }
}

pub open spec fn keys_unique<K, V>(s: Seq<(K, V)>) -> bool {
    forall|i: int, j: int| 0 <= i < j < s.len() ==> s[i].0 != s[j].0
}

/// Sum of every stored amount.
pub open spec fn sum_values<K>(s: Seq<(K, u128)>) -> int
    decreases s.len(),
{
    if s.len() == 0 {
        0
    } else {
        sum_values(s.drop_last()) + s.last().1
    }
}

pub proof fn lemma_sum_nonneg<K>(s: Seq<(K, u128)>)
    ensures
        sum_values(s) >= 0,
    decreases s.len(),
{
    if s.len() > 0 {
        lemma_sum_nonneg(s.drop_last());
    }
}

/// One stored amount never exceeds the sum of all of them.
pub proof fn lemma_amount_le_sum<K>(s: Seq<(K, u128)>, k: K)
    ensures
        amount(s, k) <= sum_values(s),
    decreases s.len(),
{
    if s.len() > 0 {
        if s.last().0 == k {
            lemma_sum_nonneg(s.drop_last());
        } else {
            lemma_amount_le_sum(s.drop_last(), k);
        }
    }
}

/// Two amounts stored under distinct keys never exceed the sum together.
pub proof fn lemma_amount_pair_le_sum<K>(s: Seq<(K, u128)>, a: K, b: K)
    requires
        a != b,
    ensures
        amount(s, a) + amount(s, b) <= sum_values(s),
    decreases s.len(),
{
    if s.len() > 0 {
        let t = s.drop_last();
        if s.last().0 == a {
            lemma_amount_le_sum(t, b);
        } else if s.last().0 == b {
            lemma_amount_le_sum(t, a);
        } else {
            lemma_amount_pair_le_sum(t, a, b);
        }
    }
}

/// Under distinct keys, the entry at index `i` is exactly what `lookup`
/// finds for its key.
pub proof fn lemma_lookup_at_index<K, V>(s: Seq<(K, V)>, i: int)
    requires
        keys_unique(s),
        0 <= i < s.len(),
    ensures
        lookup(s, s[i].0) == Some(s[i].1),
    decreases s.len(),
{
    if i < s.len() - 1 {
        let t = s.drop_last();
        assert(keys_unique(t));
        lemma_lookup_at_index(t, i);
    }
}

/// A key under which no entry is stored looks up to nothing.
pub proof fn lemma_lookup_absent<K, V>(s: Seq<(K, V)>, k: K)
    requires
        forall|i: int| 0 <= i < s.len() ==> s[i].0 != k,
    ensures
        lookup(s, k) == None::<V>,
    decreases s.len(),
{
    if s.len() > 0 {
        lemma_lookup_absent(s.drop_last(), k);
    }
}

/// The converse: a key that looks up to nothing is stored nowhere.
pub proof fn lemma_absent_of_lookup_none<K, V>(s: Seq<(K, V)>, k: K)
    requires
        lookup(s, k) == None::<V>,
    ensures
        forall|i: int| 0 <= i < s.len() ==> s[i].0 != k,
    decreases s.len(),
{
    if s.len() > 0 {
        lemma_absent_of_lookup_none(s.drop_last(), k);
        assert forall|i: int| 0 <= i < s.len() implies s[i].0 != k by {
            if i < s.len() - 1 {
                assert(s.drop_last()[i].0 != k);
            }
        }
    }
}

/// Pushing a fresh entry: every lookup but the new key's is unchanged.
pub proof fn lemma_push<K, V>(s: Seq<(K, V)>, k: K, v: V)
    ensures
        forall|x: K| #[trigger] lookup(s.push((k, v)), x) == (if x == k {
            Some(v)
        } else {
            lookup(s, x)
        }),
        keys_unique(s) && lookup(s, k) == None::<V> ==> keys_unique(s.push((k, v))),
{
    let p = s.push((k, v));
    assert_seqs_equal!(p.drop_last(), s);
    if keys_unique(s) && lookup(s, k) == None::<V> {
        lemma_absent_of_lookup_none(s, k);
        assert forall|i: int, j: int| 0 <= i < j < p.len() implies p[i].0 != p[j].0 by {
            if j < s.len() {
                assert(s[i].0 != s[j].0);
            } else {
                assert(s[i].0 != k);
            }
        }
    }
}

/// Pushing an entry grows the sum by its amount.
pub proof fn lemma_sum_push<K>(s: Seq<(K, u128)>, k: K, v: u128)
    ensures
        sum_values(s.push((k, v))) == sum_values(s) + v,
{
    let p = s.push((k, v));
    assert_seqs_equal!(p.drop_last(), s);
}

/// Removing the entry at index `i`: its key now reads as absent, every
/// other key is unchanged, and distinctness is kept.
pub proof fn lemma_remove<K, V>(s: Seq<(K, V)>, i: int)
    requires
        keys_unique(s),
        0 <= i < s.len(),
    ensures
        keys_unique(s.remove(i)),
        forall|x: K| #[trigger] lookup(s.remove(i), x) == (if x == s[i].0 {
            None::<V>
        } else {
            lookup(s, x)
        }),
    decreases s.len(),
{
    let r = s.remove(i);
    s.remove_ensures(i);
    assert forall|p: int, q: int| 0 <= p < q < r.len() implies r[p].0 != r[q].0 by {
        let p0: int = if p < i { p } else { p + 1 };
        let q0: int = if q < i { q } else { q + 1 };
        assert(s[p0].0 != s[q0].0);
    }
    if i == s.len() - 1 {
        assert_seqs_equal!(r, s.drop_last());
        assert forall|x: K| #[trigger] lookup(r, x) == (if x == s[i].0 {
            None::<V>
        } else {
            lookup(s, x)
        }) by {
            if x == s[i].0 {
                assert forall|j: int| 0 <= j < r.len() implies r[j].0 != x by {
                    assert(s[j].0 != s[i].0);
                }
                lemma_lookup_absent(r, x);
            }
        }
    } else {
        let t = s.drop_last();
        assert(keys_unique(t));
        lemma_remove(t, i);
        assert_seqs_equal!(r.drop_last(), t.remove(i));
        assert(r.last() == s.last());
        assert forall|x: K| #[trigger] lookup(r, x) == (if x == s[i].0 {
            None::<V>
        } else {
            lookup(s, x)
        }) by {
            assert(lookup(t.remove(i), x) == (if x == t[i].0 {
                None::<V>
            } else {
                lookup(t, x)
            }));
            if x == s.last().0 {
                assert(s[i].0 != s[s.len() - 1].0);
            }
        }
    }
}

/// Removing the entry at index `i` shrinks the sum by its amount.
pub proof fn lemma_sum_remove<K>(s: Seq<(K, u128)>, i: int)
    requires
        0 <= i < s.len(),
    ensures
        sum_values(s.remove(i)) == sum_values(s) - s[i].1,
    decreases s.len(),
{
    let r = s.remove(i);
    if i == s.len() - 1 {
        assert_seqs_equal!(r, s.drop_last());
    } else {
        let t = s.drop_last();
        lemma_sum_remove(t, i);
        assert_seqs_equal!(r.drop_last(), t.remove(i));
        assert(r.last() == s.last());
    }
}

} // verus!
