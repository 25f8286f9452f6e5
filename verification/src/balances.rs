//! The per-address balance table.

use vstd::prelude::*;
use crate::account::AccountId;
use crate::kvlist::{
    amount, keys_unique, lemma_absent_of_lookup_none, lemma_amount_le_sum,
    lemma_amount_pair_le_sum, lemma_lookup_absent, lemma_lookup_at_index, lemma_push,
    lemma_remove, lemma_sum_nonneg, lemma_sum_push, lemma_sum_remove, lookup, sum_values,
};

verus! {

/// Maps an address to the balance it holds. An address with no entry holds
/// zero, and an entry is removed — not stored — when its balance reaches
/// zero; absence and zero are indistinguishable to readers.
pub struct BalanceMap {
    entries: Vec<(AccountId, u128)>,
}

impl BalanceMap {
    /// Keys are pairwise distinct and no zero balance is ever stored.
    pub closed spec fn wf(self) -> bool {
        &&& keys_unique(self.entries@)
        &&& forall|i: int| 0 <= i < self.entries@.len() ==> self.entries@[i].1 != 0
    }

    /// The balance held by `a`.
    pub closed spec fn spec_get(self, a: AccountId) -> u128 {
        amount(self.entries@, a)
    }

    /// The sum of all held balances.
    pub closed spec fn total(self) -> int {
        sum_values(self.entries@)
    }

    pub fn new() -> (r: Self)
        ensures
            r.wf(),
            r.total() == 0,
            forall|a: AccountId| r.spec_get(a) == 0,
    {
        BalanceMap { entries: Vec::new() }
    }

    fn find(&self, a: AccountId) -> (r: Option<usize>)
        ensures
            match r {
                Some(i) => i < self.entries@.len() && self.entries@[i as int].0 == a,
                None => lookup(self.entries@, a) == None::<u128>,
            },
    {
        let n = self.entries.len();
        let mut i: usize = 0;
        while i < n
            invariant
                n == self.entries@.len(),
                i <= n,
                forall|j: int| 0 <= j < i ==> self.entries@[j].0 != a,
            decreases n - i,
        {
            if self.entries[i].0 == a {
                return Some(i);
            }
            i = i + 1;
        }
        proof {
            lemma_lookup_absent(self.entries@, a);
        }
        None
    }

    pub fn get(&self, a: AccountId) -> (r: u128)
        requires
            self.wf(),
        ensures
            r == self.spec_get(a),
    {
        match self.find(a) {
            Some(i) => {
                proof {
                    lemma_lookup_at_index(self.entries@, i as int);
                }
                self.entries[i].1
            }
            None => 0,
        }
    }

    /// Sets the balance of `a` to exactly `v`, removing the entry when `v`
    /// is zero.
    pub fn set(&mut self, a: AccountId, v: u128)
        requires
            old(self).wf(),
        ensures
            final(self).wf(),
            forall|x: AccountId| #[trigger] final(self).spec_get(x) == (if x == a {
                v
            } else {
                old(self).spec_get(x)
            }),
            final(self).total() == old(self).total() - old(self).spec_get(a) + v,
    {
        match self.find(a) {
            Some(i) => {
                proof {
                    lemma_lookup_at_index(self.entries@, i as int);
                    lemma_remove(self.entries@, i as int);
                    lemma_sum_remove(self.entries@, i as int);
                }
                self.entries.remove(i);
            }
            None => {}
        }
        if v != 0 {
            proof {
                lemma_push(self.entries@, a, v);
                lemma_sum_push(self.entries@, a, v);
                lemma_absent_of_lookup_none(self.entries@, a);
            }
            self.entries.push((a, v));
        }
    }
}

/// No balance exceeds the sum of all balances.
pub proof fn lemma_balance_le_total(m: BalanceMap, a: AccountId)
    ensures
        m.spec_get(a) <= m.total(),
        m.total() >= 0,
{
    lemma_amount_le_sum(m.entries@, a);
    lemma_sum_nonneg(m.entries@);
}

/// Two balances of distinct addresses fit in the sum together.
pub proof fn lemma_balance_pair_le_total(m: BalanceMap, a: AccountId, b: AccountId)
    requires
        a != b,
    ensures
        m.spec_get(a) + m.spec_get(b) <= m.total(),
{
    lemma_amount_pair_le_sum(m.entries@, a, b);
}

} // verus!
