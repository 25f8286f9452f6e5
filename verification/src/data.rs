//! The token ledger: total supply, per-address balances and per-(owner,
//! spender) allowances, with every value-moving operation.
//!
//! Value-moving operations never execute partially: they either complete
//! and report the events they produced, or fail and leave the ledger
//! unchanged. Zero-value and self-referential calls are successful no-ops
//! that produce no events.

use vstd::prelude::*;
use vstd::string::StringExecFns;
use crate::account::AccountId;
use crate::allowances::AllowanceMap;
use crate::balances::{lemma_balance_le_total, lemma_balance_pair_le_total, BalanceMap};
use crate::errors::PSP22Error;

verus! {

/// A notification produced by a ledger mutation, in the order the host
/// must relay them.
#[derive(Debug, PartialEq, Eq, Clone, Copy)]
pub enum PSP22Event {
    /// Value moved from `from` to `to`; a mint has no source and a burn no
    /// destination.
    Transfer { from: Option<AccountId>, to: Option<AccountId>, value: u128 },
    /// The allowance of `spender` on `owner`'s balance became `amount`.
    Approval { owner: AccountId, spender: AccountId, amount: u128 },
}

pub open spec fn transfer_event(
    from: Option<AccountId>,
    to: Option<AccountId>,
    value: u128,
) -> PSP22Event {
    PSP22Event::Transfer { from, to, value }
}

pub open spec fn approval_event(owner: AccountId, spender: AccountId, amount: u128) -> PSP22Event {
    PSP22Event::Approval { owner, spender, amount }
}

/// The ledger state.
pub struct PSP22Data {
    total_supply: u128,
    balances: BalanceMap,
    allowances: AllowanceMap,
}

impl PSP22Data {
    /// The tables are well formed and the stored balances always sum to
    /// the total supply.
    pub closed spec fn wf(self) -> bool {
        &&& self.balances.wf()
        &&& self.allowances.wf()
        &&& self.balances.total() == self.total_supply as int
    }

    pub closed spec fn spec_total_supply(self) -> u128 {
        self.total_supply
    }

    /// The balance of `a`; an address with no entry holds zero.
    pub closed spec fn spec_balance_of(self, a: AccountId) -> u128 {
        self.balances.spec_get(a)
    }

    /// The allowance of (owner, spender); absent reads as zero.
    pub closed spec fn spec_allowance(self, owner: AccountId, spender: AccountId) -> u128 {
        self.allowances.spec_get(owner, spender)
    }

    /// The sum of all balances.
    pub closed spec fn spec_balance_sum(self) -> int {
        self.balances.total()
    }

    /// A transfer of `value` from `caller` to `to` moves value if and only
    /// if this holds (and the call is not a trivial no-op).
    pub open spec fn can_transfer(self, caller: AccountId, value: u128) -> bool {
        self.spec_balance_of(caller) >= value
    }

    pub fn new() -> (r: Self)
        ensures
            r.wf(),
            r.spec_total_supply() == 0,
            forall|a: AccountId| r.spec_balance_of(a) == 0,
            forall|o: AccountId, s: AccountId| r.spec_allowance(o, s) == 0,
    {
        PSP22Data {
            total_supply: 0,
            balances: BalanceMap::new(),
            allowances: AllowanceMap::new(),
        }
    }

    pub fn total_supply(&self) -> (r: u128)
        ensures
            r == self.spec_total_supply(),
    {
        self.total_supply
    }

    pub fn balance_of(&self, owner: AccountId) -> (r: u128)
        requires
            self.wf(),
        ensures
            r == self.spec_balance_of(owner),
    {
        self.balances.get(owner)
    }

    pub fn allowance(&self, owner: AccountId, spender: AccountId) -> (r: u128)
        requires
            self.wf(),
        ensures
            r == self.spec_allowance(owner, spender),
    {
        self.allowances.get(owner, spender)
    }

    /// Moves `value` from `caller` to `to`.
    pub fn transfer(&mut self, caller: AccountId, to: AccountId, value: u128) -> (r: Result<
        Vec<PSP22Event>,
        PSP22Error,
    >)
        requires
            old(self).wf(),
        ensures
            final(self).wf(),
            caller == to || value == 0 ==> *final(self) == *old(self) && (r matches Ok(es)
                && es@ =~= Seq::<PSP22Event>::empty()),
            caller != to && value != 0 && !old(self).can_transfer(caller, value) ==> *final(self)
                == *old(self) && r == Err::<Vec<PSP22Event>, PSP22Error>(
                PSP22Error::InsufficientBalance,
            ),
            caller != to && value != 0 && old(self).can_transfer(caller, value) ==> {
                &&& final(self).spec_balance_of(caller) == old(self).spec_balance_of(caller)
                    - value
                &&& final(self).spec_balance_of(to) == old(self).spec_balance_of(to) + value
                &&& forall|x: AccountId|
                    x != caller && x != to ==> #[trigger] final(self).spec_balance_of(x) == old(
                        self,
                    ).spec_balance_of(x)
                &&& forall|o: AccountId, s: AccountId|
                    #[trigger] final(self).spec_allowance(o, s) == old(self).spec_allowance(o, s)
                &&& final(self).spec_total_supply() == old(self).spec_total_supply()
                &&& (r matches Ok(es) && es@ =~= seq![
                    transfer_event(Some(caller), Some(to), value),
                ])
            },
            final(self).spec_total_supply() == old(self).spec_total_supply(),
            final(self).spec_balance_sum() == old(self).spec_balance_sum(),
    {
        if caller == to || value == 0 {
            return Ok(Vec::new());
        }
        let from_balance = self.balances.get(caller);
        if from_balance < value {
            return Err(PSP22Error::InsufficientBalance);
        }
        proof {
            lemma_balance_pair_le_total(self.balances, caller, to);
        }
        self.balances.set(caller, from_balance - value);
        let to_balance = self.balances.get(to);
        self.balances.set(to, to_balance + value);
        let mut events: Vec<PSP22Event> = Vec::new();
        events.push(PSP22Event::Transfer { from: Some(caller), to: Some(to), value });
        Ok(events)
    }

    /// Moves `value` from `from` to `to` on behalf of `caller`, consuming
    /// `caller`'s allowance on `from` unless `caller` is `from` itself.
    pub fn transfer_from(
        &mut self,
        caller: AccountId,
        from: AccountId,
        to: AccountId,
        value: u128,
    ) -> (r: Result<Vec<PSP22Event>, PSP22Error>)
        requires
            old(self).wf(),
        ensures
            final(self).wf(),
            from == to || value == 0 ==> *final(self) == *old(self) && (r matches Ok(es) && es@
                =~= Seq::<PSP22Event>::empty()),
            from != to && value != 0 && caller == from && !old(self).can_transfer(from, value)
                ==> *final(self) == *old(self) && r == Err::<Vec<PSP22Event>, PSP22Error>(
                PSP22Error::InsufficientBalance,
            ),
            from != to && value != 0 && caller == from && old(self).can_transfer(from, value)
                ==> {
                &&& final(self).spec_balance_of(from) == old(self).spec_balance_of(from) - value
                &&& final(self).spec_balance_of(to) == old(self).spec_balance_of(to) + value
                &&& forall|x: AccountId|
                    x != from && x != to ==> #[trigger] final(self).spec_balance_of(x) == old(
                        self,
                    ).spec_balance_of(x)
                &&& forall|o: AccountId, s: AccountId|
                    #[trigger] final(self).spec_allowance(o, s) == old(self).spec_allowance(o, s)
                &&& (r matches Ok(es) && es@ =~= seq![
                    transfer_event(Some(from), Some(to), value),
                ])
            },
            from != to && value != 0 && caller != from && old(self).spec_allowance(from, caller)
                < value ==> *final(self) == *old(self) && r == Err::<Vec<PSP22Event>, PSP22Error>(
                PSP22Error::InsufficientAllowance,
            ),
            from != to && value != 0 && caller != from && old(self).spec_allowance(from, caller)
                >= value && !old(self).can_transfer(from, value) ==> *final(self) == *old(self)
                && r == Err::<Vec<PSP22Event>, PSP22Error>(PSP22Error::InsufficientBalance),
            from != to && value != 0 && caller != from && old(self).spec_allowance(from, caller)
                >= value && old(self).can_transfer(from, value) ==> {
                &&& final(self).spec_balance_of(from) == old(self).spec_balance_of(from) - value
                &&& final(self).spec_balance_of(to) == old(self).spec_balance_of(to) + value
                &&& forall|x: AccountId|
                    x != from && x != to ==> #[trigger] final(self).spec_balance_of(x) == old(
                        self,
                    ).spec_balance_of(x)
                &&& final(self).spec_allowance(from, caller) == old(self).spec_allowance(
                    from,
                    caller,
                ) - value
                &&& forall|o: AccountId, s: AccountId|
                    o != from || s != caller ==> #[trigger] final(self).spec_allowance(o, s)
                        == old(self).spec_allowance(o, s)
                &&& (r matches Ok(es) && es@ =~= seq![
                    approval_event(
                        from,
                        caller,
                        (old(self).spec_allowance(from, caller) - value) as u128,
                    ),
                    transfer_event(Some(from), Some(to), value),
                ])
            },
            final(self).spec_total_supply() == old(self).spec_total_supply(),
            final(self).spec_balance_sum() == old(self).spec_balance_sum(),
    {
        if from == to || value == 0 {
            return Ok(Vec::new());
        }
        if caller == from {
            return self.transfer(caller, to, value);
        }
        let allowance = self.allowances.get(from, caller);
        if allowance < value {
            return Err(PSP22Error::InsufficientAllowance);
        }
        let from_balance = self.balances.get(from);
        if from_balance < value {
            return Err(PSP22Error::InsufficientBalance);
        }
        self.allowances.set(from, caller, allowance - value);
        proof {
            lemma_balance_pair_le_total(self.balances, from, to);
        }
        self.balances.set(from, from_balance - value);
        let to_balance = self.balances.get(to);
        self.balances.set(to, to_balance + value);
        let mut events: Vec<PSP22Event> = Vec::new();
        events.push(
            PSP22Event::Approval { owner: from, spender: caller, amount: allowance - value },
        );
        events.push(PSP22Event::Transfer { from: Some(from), to: Some(to), value });
        Ok(events)
    }

    /// Sets the allowance of (owner, spender) to exactly `value` — a set,
    /// not an add.
    pub fn approve(&mut self, owner: AccountId, spender: AccountId, value: u128) -> (r: Result<
        Vec<PSP22Event>,
        PSP22Error,
    >)
        requires
            old(self).wf(),
        ensures
            final(self).wf(),
            owner == spender ==> *final(self) == *old(self) && (r matches Ok(es) && es@ =~= Seq::<
                PSP22Event,
            >::empty()),
            owner != spender ==> {
                &&& final(self).spec_allowance(owner, spender) == value
                &&& forall|o: AccountId, s: AccountId|
                    o != owner || s != spender ==> #[trigger] final(self).spec_allowance(o, s)
                        == old(self).spec_allowance(o, s)
                &&& forall|x: AccountId|
                    #[trigger] final(self).spec_balance_of(x) == old(self).spec_balance_of(x)
                &&& (r matches Ok(es) && es@ =~= seq![approval_event(owner, spender, value)])
            },
            final(self).spec_total_supply() == old(self).spec_total_supply(),
            final(self).spec_balance_sum() == old(self).spec_balance_sum(),
    {
        if owner == spender {
            return Ok(Vec::new());
        }
        self.allowances.set(owner, spender, value);
        let mut events: Vec<PSP22Event> = Vec::new();
        events.push(PSP22Event::Approval { owner, spender, amount: value });
        Ok(events)
    }

    /// Raises the allowance of (owner, spender) by `delta_value`,
    /// saturating at the largest representable amount.
    pub fn increase_allowance(
        &mut self,
        owner: AccountId,
        spender: AccountId,
        delta_value: u128,
    ) -> (r: Result<Vec<PSP22Event>, PSP22Error>)
        requires
            old(self).wf(),
        ensures
            final(self).wf(),
            owner == spender || delta_value == 0 ==> *final(self) == *old(self) && (r matches Ok(
                es,
            ) && es@ =~= Seq::<PSP22Event>::empty()),
            owner != spender && delta_value != 0 ==> {
                &&& final(self).spec_allowance(owner, spender) == sat_add(
                    old(self).spec_allowance(owner, spender),
                    delta_value,
                )
                &&& forall|o: AccountId, s: AccountId|
                    o != owner || s != spender ==> #[trigger] final(self).spec_allowance(o, s)
                        == old(self).spec_allowance(o, s)
                &&& forall|x: AccountId|
                    #[trigger] final(self).spec_balance_of(x) == old(self).spec_balance_of(x)
                &&& (r matches Ok(es) && es@ =~= seq![
                    approval_event(
                        owner,
                        spender,
                        sat_add(old(self).spec_allowance(owner, spender), delta_value),
                    ),
                ])
            },
            final(self).spec_total_supply() == old(self).spec_total_supply(),
            final(self).spec_balance_sum() == old(self).spec_balance_sum(),
    {
        if owner == spender || delta_value == 0 {
            return Ok(Vec::new());
        }
        let allowance = self.allowances.get(owner, spender);
        let amount = if delta_value > u128::MAX - allowance {
            u128::MAX
        } else {
            allowance + delta_value
        };
        self.allowances.set(owner, spender, amount);
        let mut events: Vec<PSP22Event> = Vec::new();
        events.push(PSP22Event::Approval { owner, spender, amount });
        Ok(events)
    }

    /// Lowers the allowance of (owner, spender) by `delta_value`.
    pub fn decrease_allowance(
        &mut self,
        owner: AccountId,
        spender: AccountId,
        delta_value: u128,
    ) -> (r: Result<Vec<PSP22Event>, PSP22Error>)
        requires
            old(self).wf(),
        ensures
            final(self).wf(),
            owner == spender || delta_value == 0 ==> *final(self) == *old(self) && (r matches Ok(
                es,
            ) && es@ =~= Seq::<PSP22Event>::empty()),
            owner != spender && delta_value != 0 && old(self).spec_allowance(owner, spender)
                < delta_value ==> *final(self) == *old(self) && r == Err::<
                Vec<PSP22Event>,
                PSP22Error,
            >(PSP22Error::InsufficientAllowance),
            owner != spender && delta_value != 0 && old(self).spec_allowance(owner, spender)
                >= delta_value ==> {
                &&& final(self).spec_allowance(owner, spender) == old(self).spec_allowance(
                    owner,
                    spender,
                ) - delta_value
                &&& forall|o: AccountId, s: AccountId|
                    o != owner || s != spender ==> #[trigger] final(self).spec_allowance(o, s)
                        == old(self).spec_allowance(o, s)
                &&& forall|x: AccountId|
                    #[trigger] final(self).spec_balance_of(x) == old(self).spec_balance_of(x)
                &&& (r matches Ok(es) && es@ =~= seq![
                    approval_event(
                        owner,
                        spender,
                        (old(self).spec_allowance(owner, spender) - delta_value) as u128,
                    ),
                ])
            },
            final(self).spec_total_supply() == old(self).spec_total_supply(),
            final(self).spec_balance_sum() == old(self).spec_balance_sum(),
    {
        if owner == spender || delta_value == 0 {
            return Ok(Vec::new());
        }
        let allowance = self.allowances.get(owner, spender);
        if allowance < delta_value {
            return Err(PSP22Error::InsufficientAllowance);
        }
        let amount = allowance - delta_value;
        self.allowances.set(owner, spender, amount);
        let mut events: Vec<PSP22Event> = Vec::new();
        events.push(PSP22Event::Approval { owner, spender, amount });
        Ok(events)
    }

    /// Creates `value` new tokens on `to`'s balance. Gating is the
    /// caller's responsibility; only the 128-bit range is enforced here,
    /// distinct from the cap, which the facade checks first.
    pub fn _mint_to(&mut self, to: AccountId, value: u128) -> (r: Result<
        Vec<PSP22Event>,
        PSP22Error,
    >)
        requires
            old(self).wf(),
        ensures
            final(self).wf(),
            value == 0 ==> *final(self) == *old(self) && (r matches Ok(es) && es@ =~= Seq::<
                PSP22Event,
            >::empty()),
            value != 0 && old(self).spec_total_supply() + value > u128::MAX ==> *final(self)
                == *old(self) && (r matches Err(e) && e matches PSP22Error::Custom(m) && m@
                == "Max PSP22 supply exceeded. Max supply limited to 2^128-1."@),
            value != 0 && old(self).spec_total_supply() + value <= u128::MAX ==> {
                &&& final(self).spec_total_supply() == old(self).spec_total_supply() + value
                &&& final(self).spec_balance_of(to) == old(self).spec_balance_of(to) + value
                &&& forall|x: AccountId|
                    x != to ==> #[trigger] final(self).spec_balance_of(x) == old(
                        self,
                    ).spec_balance_of(x)
                &&& forall|o: AccountId, s: AccountId|
                    #[trigger] final(self).spec_allowance(o, s) == old(self).spec_allowance(o, s)
                &&& (r matches Ok(es) && es@ =~= seq![transfer_event(None, Some(to), value)])
            },
    {
        if value == 0 {
            return Ok(Vec::new());
        }
        if value > u128::MAX - self.total_supply {
            return Err(
                PSP22Error::Custom(
                    String::from_str("Max PSP22 supply exceeded. Max supply limited to 2^128-1."),
                ),
            );
        }
        proof {
            lemma_balance_le_total(self.balances, to);
        }
        self.total_supply = self.total_supply + value;
        let new_balance = self.balances.get(to) + value;
        self.balances.set(to, new_balance);
        let mut events: Vec<PSP22Event> = Vec::new();
        events.push(PSP22Event::Transfer { from: None, to: Some(to), value });
        Ok(events)
    }

    /// Destroys `value` tokens from `from`'s balance. Gating is the
    /// caller's responsibility.
    pub fn _burn_from(&mut self, from: AccountId, value: u128) -> (r: Result<
        Vec<PSP22Event>,
        PSP22Error,
    >)
        requires
            old(self).wf(),
        ensures
            final(self).wf(),
            value == 0 ==> *final(self) == *old(self) && (r matches Ok(es) && es@ =~= Seq::<
                PSP22Event,
            >::empty()),
            value != 0 && old(self).spec_balance_of(from) < value ==> *final(self) == *old(self)
                && r == Err::<Vec<PSP22Event>, PSP22Error>(PSP22Error::InsufficientBalance),
            value != 0 && old(self).spec_balance_of(from) >= value ==> {
                &&& final(self).spec_total_supply() == old(self).spec_total_supply() - value
                &&& final(self).spec_balance_of(from) == old(self).spec_balance_of(from) - value
                &&& forall|x: AccountId|
                    x != from ==> #[trigger] final(self).spec_balance_of(x) == old(
                        self,
                    ).spec_balance_of(x)
                &&& forall|o: AccountId, s: AccountId|
                    #[trigger] final(self).spec_allowance(o, s) == old(self).spec_allowance(o, s)
                &&& (r matches Ok(es) && es@ =~= seq![transfer_event(Some(from), None, value)])
            },
    {
        if value == 0 {
            return Ok(Vec::new());
        }
        let balance = self.balances.get(from);
        if balance < value {
            return Err(PSP22Error::InsufficientBalance);
        }
        proof {
            lemma_balance_le_total(self.balances, from);
        }
        self.balances.set(from, balance - value);
        self.total_supply = self.total_supply - value;
        let mut events: Vec<PSP22Event> = Vec::new();
        events.push(PSP22Event::Transfer { from: Some(from), to: None, value });
        Ok(events)
    }
}

/// Saturating addition on amounts.
pub open spec fn sat_add(a: u128, b: u128) -> u128 {
    if a + b <= u128::MAX {
        (a + b) as u128
    } else {
        u128::MAX
    }
}

/// Conservation: in every well-formed ledger the stored balances sum
/// exactly to the total supply, so the value-moving operations — which
/// keep both — can never create or destroy value.
pub proof fn lemma_conservation(d: PSP22Data)
    requires
        d.wf(),
    ensures
        d.spec_balance_sum() == d.spec_total_supply() as int,
{
}

} // verus!
