//! The per-(owner, spender) allowance table.

use vstd::prelude::*;
use crate::account::AccountId;
use crate::kvlist::{
    amount, keys_unique, lemma_absent_of_lookup_none, lemma_lookup_absent,
    lemma_lookup_at_index, lemma_push, lemma_remove, lookup,
};

verus! {

/// Identifies one allowance: what `spender` may still move out of
/// `owner`'s balance by delegated transfer.
#[derive(Clone, Copy, PartialEq, Eq, Hash, Debug, Structural)]
pub struct AllowanceKey {
    pub owner: AccountId,
    pub spender: AccountId,
}

/// Maps an (owner, spender) pair to the remaining allowance. An absent
/// entry reads as zero, and an entry is removed — not stored — when it
/// reaches zero.
pub struct AllowanceMap {
    entries: Vec<(AllowanceKey, u128)>,
}

impl AllowanceMap {
    /// Keys are pairwise distinct and no zero allowance is ever stored.
    pub closed spec fn wf(self) -> bool {
        &&& keys_unique(self.entries@)
        &&& forall|i: int| 0 <= i < self.entries@.len() ==> self.entries@[i].1 != 0
    }

    /// The allowance `spender` holds on `owner`'s balance.
    pub closed spec fn spec_get(self, owner: AccountId, spender: AccountId) -> u128 {
        amount(self.entries@, (AllowanceKey { owner, spender }))
    }

    pub fn new() -> (r: Self)
        ensures
            r.wf(),
            forall|o: AccountId, s: AccountId| r.spec_get(o, s) == 0,
    {
        AllowanceMap { entries: Vec::new() }
    }

    fn find(&self, k: AllowanceKey) -> (r: Option<usize>)
        ensures
            match r {
                Some(i) => i < self.entries@.len() && self.entries@[i as int].0 == k,
                None => lookup(self.entries@, k) == None::<u128>,
            },
    {
        let n = self.entries.len();
        let mut i: usize = 0;
        while i < n
            invariant
                n == self.entries@.len(),
                i <= n,
                forall|j: int| 0 <= j < i ==> self.entries@[j].0 != k,
            decreases n - i,
        {
            let e = self.entries[i].0;
            if e.owner == k.owner && e.spender == k.spender {
                return Some(i);
            }
            i = i + 1;
        }
        proof {
            lemma_lookup_absent(self.entries@, k);
        }
        None
    }

    pub fn get(&self, owner: AccountId, spender: AccountId) -> (r: u128)
        requires
            self.wf(),
        ensures
            r == self.spec_get(owner, spender),
    {
        match self.find(AllowanceKey { owner, spender }) {
            Some(i) => {
                proof {
                    lemma_lookup_at_index(self.entries@, i as int);
                }
                self.entries[i].1
            }
            None => 0,
        }
    }

    /// Sets the allowance of (owner, spender) to exactly `v`, removing the
    /// entry when `v` is zero.
    pub fn set(&mut self, owner: AccountId, spender: AccountId, v: u128)
        requires
            old(self).wf(),
        ensures
            final(self).wf(),
            forall|o: AccountId, s: AccountId|
                #[trigger] final(self).spec_get(o, s) == (if o == owner && s == spender {
                    v
                } else {
                    old(self).spec_get(o, s)
                }),
    {
        let k = AllowanceKey { owner, spender };
        match self.find(k) {
            Some(i) => {
                proof {
                    lemma_lookup_at_index(self.entries@, i as int);
                    lemma_remove(self.entries@, i as int);
                }
                self.entries.remove(i);
            }
            None => {}
        }
        if v != 0 {
            proof {
                lemma_push(self.entries@, k, v);
                lemma_absent_of_lookup_none(self.entries@, k);
            }
            self.entries.push((k, v));
        }
    }
}

} // verus!
