//! A supply-capped fungible-token ledger with role-gated minting and
//! owner-gated burning.
//!
//! The crate keeps three pieces of durable state: the token ledger
//! (balances, allowances, total supply), a role registry, and an immutable
//! supply cap. Every mutating entry point takes the caller's identity as an
//! argument — the hosting execution context resolves it — and returns the
//! events the call produced, so the host can relay them to its notification
//! mechanism.

use vstd::prelude::*;

mod access_control;
mod account;
mod allowances;
mod balances;
mod capped;
mod data;
mod errors;
mod kvlist;
mod metadata;
mod owner;
mod traits;

pub use access_control::{AccessControlData, MemberKey, DEFAULT_ADMIN_ROLE};
pub use account::AccountId;
pub use allowances::{AllowanceKey, AllowanceMap};
pub use balances::BalanceMap;
pub use capped::Capped;
pub use data::{PSP22Data, PSP22Event};
pub use errors::{AccessControlError, Error, OwnableError, PSP22Error, UpgradeableError};
pub use metadata::Metadata;
pub use owner::OwnableData;
pub use traits::{PSP22Capped, RoleType};

verus! {

/// The identifier of the minting role: derived deterministically from the
/// literal name "MINTER" by the host's selector scheme.
pub const MINTER: RoleType = 4254773782;

/// An allowance notification as the host relays it.
#[derive(Clone, Copy, PartialEq, Eq, Debug)]
pub struct Approval {
    pub owner: AccountId,
    pub spender: AccountId,
    pub amount: u128,
}

/// A value-movement notification as the host relays it.
#[derive(Clone, Copy, PartialEq, Eq, Debug)]
pub struct Transfer {
    pub from: Option<AccountId>,
    pub to: Option<AccountId>,
    pub value: u128,
}

/// An ownership-change notification as the host relays it.
#[derive(Clone, Copy, PartialEq, Eq, Debug)]
pub struct OwnershipTransferred {
    pub old_owner: Option<AccountId>,
    pub new_owner: Option<AccountId>,
}

/// A ledger notification in the host's shape.
#[derive(Clone, Copy, PartialEq, Eq, Debug)]
pub enum ContractEvent {
    Transfer(Transfer),
    Approval(Approval),
}

pub open spec fn as_contract_event(e: PSP22Event) -> ContractEvent {
    match e {
        PSP22Event::Transfer { from, to, value } => ContractEvent::Transfer(
            (Transfer { from, to, value }),
        ),
        PSP22Event::Approval { owner, spender, amount } => ContractEvent::Approval(
            (Approval { owner, spender, amount }),
        ),
    }
}

/// The externally callable surface: every mutating call authorizes the
/// caller, then delegates to the ledger or the registry, and hands the
/// produced events back for the host to relay.
pub struct Psp22Standard {
    data: PSP22Data,
    metadata: Metadata,
    ownable: OwnableData,
    cap: Capped,
    admin: AccessControlData,
}

/// Neither the total supply, nor any balance, nor any allowance differs
/// between the two states.
pub open spec fn same_ledger(a: Psp22Standard, b: Psp22Standard) -> bool {
    &&& b.spec_total_supply() == a.spec_total_supply()
    &&& forall|x: AccountId| #[trigger] b.spec_balance_of(x) == a.spec_balance_of(x)
    &&& forall|o: AccountId, s: AccountId|
        #[trigger] b.spec_allowance(o, s) == a.spec_allowance(o, s)
}

/// No membership and no administering role differs between the two states.
pub open spec fn same_roles(a: Psp22Standard, b: Psp22Standard) -> bool {
    &&& forall|r: RoleType, m: Option<AccountId>|
        #[trigger] b.spec_has_role(r, m) == a.spec_has_role(r, m)
    &&& forall|r: RoleType| #[trigger] b.spec_role_admin(r) == a.spec_role_admin(r)
}

pub open spec fn same_owner(a: Psp22Standard, b: Psp22Standard) -> bool {
    b.spec_owner() == a.spec_owner()
}

/// The cap and the metadata — both fixed at initialization — agree.
pub open spec fn same_config(a: Psp22Standard, b: Psp22Standard) -> bool {
    &&& b.spec_cap() == a.spec_cap()
    &&& b.spec_token_name() == a.spec_token_name()
    &&& b.spec_token_symbol() == a.spec_token_symbol()
    &&& b.spec_token_decimals() == a.spec_token_decimals()
}

impl Default for Psp22Standard {
    /// The empty, not-yet-initialized state: no supply, no memberships,
    /// no owner, and a zero cap, so `new` must still run before the state
    /// is a usable contract.
    fn default() -> (r: Self)
        ensures
            r.spec_total_supply() == 0,
            r.spec_cap() == 0,
            forall|a: AccountId| r.spec_balance_of(a) == 0,
            forall|o: AccountId, s: AccountId| r.spec_allowance(o, s) == 0,
            forall|r2: RoleType, m: Option<AccountId>| !r.spec_has_role(r2, m),
            forall|r2: RoleType| r.spec_role_admin(r2) == DEFAULT_ADMIN_ROLE,
            r.spec_owner() == None::<AccountId>,
            r.spec_token_name() == None::<String>,
            r.spec_token_symbol() == None::<String>,
            r.spec_token_decimals() == 0,
    {
        Psp22Standard {
            data: PSP22Data::new(),
            metadata: Metadata::new(None, None, 0),
            ownable: OwnableData::new(),
            cap: Capped::new(),
            admin: AccessControlData::new(),
        }
    }
}

impl PSP22Capped for Psp22Standard {
    closed spec fn spec_cap(&self) -> u128 {
        self.cap.spec_cap()
    }

    fn cap(&self) -> (r: u128) {
        self.cap.cap()
    }
}

impl Psp22Standard {
    /// The ledger and registry are well formed, the cap is positive, and
    /// the total supply never exceeds the cap.
    pub closed spec fn wf(self) -> bool {
        &&& self.data.wf()
        &&& self.admin.wf()
        &&& self.cap.spec_cap() > 0
        &&& self.data.spec_total_supply() <= self.cap.spec_cap()
    }

    pub closed spec fn spec_total_supply(self) -> u128 {
        self.data.spec_total_supply()
    }

    /// The sum of all balances.
    pub closed spec fn spec_balance_sum(self) -> int {
        self.data.spec_balance_sum()
    }

    pub closed spec fn spec_balance_of(self, a: AccountId) -> u128 {
        self.data.spec_balance_of(a)
    }

    pub closed spec fn spec_allowance(self, owner: AccountId, spender: AccountId) -> u128 {
        self.data.spec_allowance(owner, spender)
    }

    pub closed spec fn spec_has_role(self, role: RoleType, account: Option<AccountId>) -> bool {
        self.admin.spec_has_role(role, account)
    }

    /// The administering role of `role`: the stored one, or the default
    /// admin role if none was ever set.
    pub closed spec fn spec_role_admin(self, role: RoleType) -> RoleType {
        match self.admin.spec_role_admin(role) {
            Some(r) => r,
            None => DEFAULT_ADMIN_ROLE,
        }
    }

    pub closed spec fn spec_owner(self) -> Option<AccountId> {
        self.ownable.spec_owner()
    }

    pub closed spec fn spec_token_name(self) -> Option<String> {
        self.metadata.name
    }

    pub closed spec fn spec_token_symbol(self) -> Option<String> {
        self.metadata.symbol
    }

    pub closed spec fn spec_token_decimals(self) -> u8 {
        self.metadata.decimals
    }

    /// Instantiates the contract state: seeds the cap, hands the deployer
    /// ownership and the default-admin role, and stores the metadata. A
    /// zero cap is rejected.
    pub fn new(
        caller: AccountId,
        cap: u128,
        name: Option<String>,
        symbol: Option<String>,
        decimals: u8,
    ) -> (r: Result<Psp22Standard, PSP22Error>)
        ensures
            cap == 0 ==> (r matches Err(e) && e matches PSP22Error::Custom(m) && m@
                == "Cap must be above 0"@),
            cap != 0 ==> (r matches Ok(c) && {
                &&& c.wf()
                &&& c.spec_cap() == cap
                &&& c.spec_total_supply() == 0
                &&& forall|a: AccountId| c.spec_balance_of(a) == 0
                &&& forall|o: AccountId, s: AccountId| c.spec_allowance(o, s) == 0
                &&& forall|r2: RoleType, m: Option<AccountId>|
                    c.spec_has_role(r2, m) == (r2 == DEFAULT_ADMIN_ROLE && m == Some(caller))
                &&& forall|r2: RoleType| c.spec_role_admin(r2) == DEFAULT_ADMIN_ROLE
                &&& c.spec_owner() == Some(caller)
                &&& c.spec_token_name() == name
                &&& c.spec_token_symbol() == symbol
                &&& c.spec_token_decimals() == decimals
            }),
    {
        let mut cap_store = Capped::new();
        match cap_store._init_cap(cap) {
            Ok(()) => {}
            Err(e) => {
                return Err(e);
            }
        }
        let mut admin = AccessControlData::new();
        admin._init_with_admin(Some(caller));
        let mut ownable = OwnableData::new();
        ownable._init_with_owner(caller);
        let metadata = Metadata::new(name, symbol, decimals);
        let data = PSP22Data::new();
        Ok(Psp22Standard { data, metadata, ownable, cap: cap_store, admin })
    }

    /// Converts produced ledger events into the host's notification shape,
    /// keeping their order.
    pub fn emit_events(&self, events: Vec<PSP22Event>) -> (r: Vec<ContractEvent>)
        ensures
            r@.len() == events@.len(),
            forall|i: int| 0 <= i < events@.len() ==> r@[i] == as_contract_event(events@[i]),
    {
        let mut out: Vec<ContractEvent> = Vec::new();
        let mut i: usize = 0;
        while i < events.len()
            invariant
                i <= events@.len(),
                out@.len() == i,
                forall|j: int| 0 <= j < i ==> out@[j] == as_contract_event(events@[j]),
            decreases events@.len() - i,
        {
            let ev = events[i];
            match ev {
                PSP22Event::Transfer { from, to, value } => {
                    out.push(ContractEvent::Transfer(Transfer { from, to, value }));
                }
                PSP22Event::Approval { owner, spender, amount } => {
                    out.push(ContractEvent::Approval(Approval { owner, spender, amount }));
                }
            }
            i = i + 1;
        }
        out
    }

    pub fn total_supply(&self) -> (r: u128)
        ensures
            r == self.spec_total_supply(),
    {
        self.data.total_supply()
    }

    pub fn balance_of(&self, owner: AccountId) -> (r: u128)
        requires
            self.wf(),
        ensures
            r == self.spec_balance_of(owner),
    {
        self.data.balance_of(owner)
    }

    pub fn allowance(&self, owner: AccountId, spender: AccountId) -> (r: u128)
        requires
            self.wf(),
        ensures
            r == self.spec_allowance(owner, spender),
    {
        self.data.allowance(owner, spender)
    }

    /// Moves `value` from the caller to `to`.
    pub fn transfer(&mut self, caller: AccountId, to: AccountId, value: u128) -> (r: Result<
        Vec<PSP22Event>,
        PSP22Error,
    >)
        requires
            old(self).wf(),
        ensures
            final(self).wf(),
            same_roles(*old(self), *final(self)),
            same_owner(*old(self), *final(self)),
            same_config(*old(self), *final(self)),
            final(self).spec_total_supply() == old(self).spec_total_supply(),
            caller == to || value == 0 ==> *final(self) == *old(self) && (r matches Ok(es) && es@
                =~= Seq::<PSP22Event>::empty()),
            caller != to && value != 0 && old(self).spec_balance_of(caller) < value ==> *final(self) == *old(self) && r == Err::<Vec<PSP22Event>, PSP22Error>(
                PSP22Error::InsufficientBalance,
            ),
            caller != to && value != 0 && old(self).spec_balance_of(caller) >= value ==> {
                &&& final(self).spec_balance_of(caller) == old(self).spec_balance_of(caller)
                    - value
                &&& final(self).spec_balance_of(to) == old(self).spec_balance_of(to) + value
                &&& forall|x: AccountId|
                    x != caller && x != to ==> #[trigger] final(self).spec_balance_of(x) == old(
                        self,
                    ).spec_balance_of(x)
                &&& forall|o: AccountId, s: AccountId|
                    #[trigger] final(self).spec_allowance(o, s) == old(self).spec_allowance(o, s)
                &&& (r matches Ok(es) && es@ =~= seq![
                    data::transfer_event(Some(caller), Some(to), value),
                ])
            },
    {
        self.data.transfer(caller, to, value)
    }

    /// Moves `value` from `from` to `to` on behalf of the caller.
    pub fn transfer_from(
        &mut self,
        caller: AccountId,
        from: AccountId,
        to: AccountId,
        value: u128,
    ) -> (r: Result<Vec<PSP22Event>, PSP22Error>)
        requires
            old(self).wf(),
        ensures
            final(self).wf(),
            same_roles(*old(self), *final(self)),
            same_owner(*old(self), *final(self)),
            same_config(*old(self), *final(self)),
            final(self).spec_total_supply() == old(self).spec_total_supply(),
            from == to || value == 0 ==> *final(self) == *old(self) && (r matches Ok(es) && es@
                =~= Seq::<PSP22Event>::empty()),
            from != to && value != 0 && caller == from && old(self).spec_balance_of(from) < value
                ==> *final(self) == *old(self) && r == Err::<Vec<PSP22Event>, PSP22Error>(
                PSP22Error::InsufficientBalance,
            ),
            from != to && value != 0 && caller == from && old(self).spec_balance_of(from) >= value
                ==> {
                &&& final(self).spec_balance_of(from) == old(self).spec_balance_of(from) - value
                &&& final(self).spec_balance_of(to) == old(self).spec_balance_of(to) + value
                &&& forall|x: AccountId|
                    x != from && x != to ==> #[trigger] final(self).spec_balance_of(x) == old(
                        self,
                    ).spec_balance_of(x)
                &&& forall|o: AccountId, s: AccountId|
                    #[trigger] final(self).spec_allowance(o, s) == old(self).spec_allowance(o, s)
                &&& (r matches Ok(es) && es@ =~= seq![
                    data::transfer_event(Some(from), Some(to), value),
                ])
            },
            from != to && value != 0 && caller != from && old(self).spec_allowance(from, caller)
                < value ==> *final(self) == *old(self) && r == Err::<Vec<PSP22Event>, PSP22Error>(
                PSP22Error::InsufficientAllowance,
            ),
            from != to && value != 0 && caller != from && old(self).spec_allowance(from, caller)
                >= value && old(self).spec_balance_of(from) < value ==> *final(self) == *old(self)
                && r == Err::<Vec<PSP22Event>, PSP22Error>(PSP22Error::InsufficientBalance),
            from != to && value != 0 && caller != from && old(self).spec_allowance(from, caller)
                >= value && old(self).spec_balance_of(from) >= value ==> {
                &&& final(self).spec_balance_of(from) == old(self).spec_balance_of(from) - value
                &&& final(self).spec_balance_of(to) == old(self).spec_balance_of(to) + value
                &&& forall|x: AccountId|
                    x != from && x != to ==> #[trigger] final(self).spec_balance_of(x) == old(
                        self,
                    ).spec_balance_of(x)
                &&& final(self).spec_allowance(from, caller) == old(self).spec_allowance(
                    from,
                    caller,
                ) - value
                &&& forall|o: AccountId, s: AccountId|
                    o != from || s != caller ==> #[trigger] final(self).spec_allowance(o, s)
                        == old(self).spec_allowance(o, s)
                &&& (r matches Ok(es) && es@ =~= seq![
                    data::approval_event(
                        from,
                        caller,
                        (old(self).spec_allowance(from, caller) - value) as u128,
                    ),
                    data::transfer_event(Some(from), Some(to), value),
                ])
            },
    {
        self.data.transfer_from(caller, from, to, value)
    }

    /// Sets the caller's approval for `spender` to exactly `value`.
    pub fn approve(&mut self, caller: AccountId, spender: AccountId, value: u128) -> (r: Result<
        Vec<PSP22Event>,
        PSP22Error,
    >)
        requires
            old(self).wf(),
        ensures
            final(self).wf(),
            same_roles(*old(self), *final(self)),
            same_owner(*old(self), *final(self)),
            same_config(*old(self), *final(self)),
            final(self).spec_total_supply() == old(self).spec_total_supply(),
            caller == spender ==> *final(self) == *old(self) && (r matches Ok(es) && es@ =~= Seq::<
                PSP22Event,
            >::empty()),
            caller != spender ==> {
                &&& final(self).spec_allowance(caller, spender) == value
                &&& forall|o: AccountId, s: AccountId|
                    o != caller || s != spender ==> #[trigger] final(self).spec_allowance(o, s)
                        == old(self).spec_allowance(o, s)
                &&& forall|x: AccountId|
                    #[trigger] final(self).spec_balance_of(x) == old(self).spec_balance_of(x)
                &&& (r matches Ok(es) && es@ =~= seq![
                    data::approval_event(caller, spender, value),
                ])
            },
    {
        self.data.approve(caller, spender, value)
    }

    /// Raises the caller's approval for `spender` by `delta_value`,
    /// saturating at the largest representable amount.
    pub fn increase_allowance(
        &mut self,
        caller: AccountId,
        spender: AccountId,
        delta_value: u128,
    ) -> (r: Result<Vec<PSP22Event>, PSP22Error>)
        requires
            old(self).wf(),
        ensures
            final(self).wf(),
            same_roles(*old(self), *final(self)),
            same_owner(*old(self), *final(self)),
            same_config(*old(self), *final(self)),
            final(self).spec_total_supply() == old(self).spec_total_supply(),
            caller == spender || delta_value == 0 ==> *final(self) == *old(self) && (r matches Ok(
                es,
            ) && es@ =~= Seq::<PSP22Event>::empty()),
            caller != spender && delta_value != 0 ==> {
                &&& final(self).spec_allowance(caller, spender) == data::sat_add(
                    old(self).spec_allowance(caller, spender),
                    delta_value,
                )
                &&& forall|o: AccountId, s: AccountId|
                    o != caller || s != spender ==> #[trigger] final(self).spec_allowance(o, s)
                        == old(self).spec_allowance(o, s)
                &&& forall|x: AccountId|
                    #[trigger] final(self).spec_balance_of(x) == old(self).spec_balance_of(x)
                &&& (r matches Ok(es) && es@ =~= seq![
                    data::approval_event(
                        caller,
                        spender,
                        data::sat_add(old(self).spec_allowance(caller, spender), delta_value),
                    ),
                ])
            },
    {
        self.data.increase_allowance(caller, spender, delta_value)
    }

    /// Lowers the caller's approval for `spender` by `delta_value`.
    pub fn decrease_allowance(
        &mut self,
        caller: AccountId,
        spender: AccountId,
        delta_value: u128,
    ) -> (r: Result<Vec<PSP22Event>, PSP22Error>)
        requires
            old(self).wf(),
        ensures
            final(self).wf(),
            same_roles(*old(self), *final(self)),
            same_owner(*old(self), *final(self)),
            same_config(*old(self), *final(self)),
            final(self).spec_total_supply() == old(self).spec_total_supply(),
            caller == spender || delta_value == 0 ==> *final(self) == *old(self) && (r matches Ok(
                es,
            ) && es@ =~= Seq::<PSP22Event>::empty()),
            caller != spender && delta_value != 0 && old(self).spec_allowance(caller, spender)
                < delta_value ==> *final(self) == *old(self) && r == Err::<
                Vec<PSP22Event>,
                PSP22Error,
            >(PSP22Error::InsufficientAllowance),
            caller != spender && delta_value != 0 && old(self).spec_allowance(caller, spender)
                >= delta_value ==> {
                &&& final(self).spec_allowance(caller, spender) == old(self).spec_allowance(
                    caller,
                    spender,
                ) - delta_value
                &&& forall|o: AccountId, s: AccountId|
                    o != caller || s != spender ==> #[trigger] final(self).spec_allowance(o, s)
                        == old(self).spec_allowance(o, s)
                &&& forall|x: AccountId|
                    #[trigger] final(self).spec_balance_of(x) == old(self).spec_balance_of(x)
                &&& (r matches Ok(es) && es@ =~= seq![
                    data::approval_event(
                        caller,
                        spender,
                        (old(self).spec_allowance(caller, spender) - delta_value) as u128,
                    ),
                ])
            },
    {
        self.data.decrease_allowance(caller, spender, delta_value)
    }

    /// Mints `value` to `to`. The caller must hold the minting role, and
    /// the new supply must stay within the cap — checked in that order,
    /// before the ledger is touched.
    pub fn mint(&mut self, caller: AccountId, to: AccountId, value: u128) -> (r: Result<
        Vec<PSP22Event>,
        PSP22Error,
    >)
        requires
            old(self).wf(),
        ensures
            final(self).wf(),
            same_roles(*old(self), *final(self)),
            same_owner(*old(self), *final(self)),
            same_config(*old(self), *final(self)),
            !old(self).spec_has_role(MINTER, Some(caller)) ==> *final(self) == *old(self) && r
                == Err::<Vec<PSP22Event>, PSP22Error>(
                PSP22Error::AccessControlError(AccessControlError::MissingRole),
            ),
            old(self).spec_has_role(MINTER, Some(caller)) && old(self).spec_total_supply() + value
                > old(self).spec_cap() ==> *final(self) == *old(self) && r == Err::<
                Vec<PSP22Event>,
                PSP22Error,
            >(PSP22Error::CapExceeded),
            old(self).spec_has_role(MINTER, Some(caller)) && old(self).spec_total_supply() + value
                <= old(self).spec_cap() && value == 0 ==> *final(self) == *old(self) && (r
                matches Ok(es) && es@ =~= Seq::<PSP22Event>::empty()),
            old(self).spec_has_role(MINTER, Some(caller)) && old(self).spec_total_supply() + value
                <= old(self).spec_cap() && value != 0 ==> {
                &&& final(self).spec_total_supply() == old(self).spec_total_supply() + value
                &&& final(self).spec_balance_of(to) == old(self).spec_balance_of(to) + value
                &&& forall|x: AccountId|
                    x != to ==> #[trigger] final(self).spec_balance_of(x) == old(
                        self,
                    ).spec_balance_of(x)
                &&& forall|o: AccountId, s: AccountId|
                    #[trigger] final(self).spec_allowance(o, s) == old(self).spec_allowance(o, s)
                &&& (r matches Ok(es) && es@ =~= seq![
                    data::transfer_event(None, Some(to), value),
                ])
            },
    {
        match self.admin._check_role(MINTER, Some(caller)) {
            Ok(()) => {}
            Err(e) => {
                return Err(PSP22Error::AccessControlError(e));
            }
        }
        let supply = self.data.total_supply();
        let cap_value = self.cap.cap();
        if value > cap_value - supply {
            return Err(PSP22Error::CapExceeded);
        }
        self.data._mint_to(to, value)
    }

    /// Burns `value` from `from`. Only the recorded owner may burn.
    pub fn burn(&mut self, caller: AccountId, from: AccountId, value: u128) -> (r: Result<
        Vec<PSP22Event>,
        PSP22Error,
    >)
        requires
            old(self).wf(),
        ensures
            final(self).wf(),
            same_roles(*old(self), *final(self)),
            same_owner(*old(self), *final(self)),
            same_config(*old(self), *final(self)),
            old(self).spec_owner() != Some(caller) ==> *final(self) == *old(self) && r == Err::<
                Vec<PSP22Event>,
                PSP22Error,
            >(PSP22Error::OwnableError(OwnableError::CallerIsNotOwner)),
            old(self).spec_owner() == Some(caller) && value == 0 ==> *final(self) == *old(self)
                && (r matches Ok(es) && es@ =~= Seq::<PSP22Event>::empty()),
            old(self).spec_owner() == Some(caller) && value != 0 && old(self).spec_balance_of(from)
                < value ==> *final(self) == *old(self) && r == Err::<Vec<PSP22Event>, PSP22Error>(
                PSP22Error::InsufficientBalance,
            ),
            old(self).spec_owner() == Some(caller) && value != 0 && old(self).spec_balance_of(from)
                >= value ==> {
                &&& final(self).spec_total_supply() == old(self).spec_total_supply() - value
                &&& final(self).spec_balance_of(from) == old(self).spec_balance_of(from) - value
                &&& forall|x: AccountId|
                    x != from ==> #[trigger] final(self).spec_balance_of(x) == old(
                        self,
                    ).spec_balance_of(x)
                &&& forall|o: AccountId, s: AccountId|
                    #[trigger] final(self).spec_allowance(o, s) == old(self).spec_allowance(o, s)
                &&& (r matches Ok(es) && es@ =~= seq![
                    data::transfer_event(Some(from), None, value),
                ])
            },
    {
        match self.ownable._check_owner(Some(caller)) {
            Ok(()) => {}
            Err(e) => {
                return Err(PSP22Error::OwnableError(e));
            }
        }
        self.data._burn_from(from, value)
    }

    pub fn owner(&self) -> (r: Option<AccountId>)
        ensures
            r == self.spec_owner(),
    {
        self.ownable.owner()
    }

    /// Gives up ownership. Only the recorded owner may renounce it.
    pub fn renounce_ownership(&mut self, caller: AccountId) -> (r: Result<
        OwnershipTransferred,
        OwnableError,
    >)
        requires
            old(self).wf(),
        ensures
            final(self).wf(),
            same_ledger(*old(self), *final(self)),
            same_roles(*old(self), *final(self)),
            same_config(*old(self), *final(self)),
            old(self).spec_owner() != Some(caller) ==> *final(self) == *old(self) && r == Err::<
                OwnershipTransferred,
                OwnableError,
            >(OwnableError::CallerIsNotOwner),
            old(self).spec_owner() == Some(caller) ==> final(self).spec_owner() == None::<
                AccountId,
            > && r == Ok::<OwnershipTransferred, OwnableError>(
                (OwnershipTransferred { old_owner: Some(caller), new_owner: None }),
            ),
    {
        match self.ownable._check_owner(Some(caller)) {
            Ok(()) => {}
            Err(e) => {
                return Err(e);
            }
        }
        match self.ownable.renounce_ownership() {
            Ok(()) => {}
            Err(e) => {
                return Err(e);
            }
        }
        Ok(OwnershipTransferred { old_owner: Some(caller), new_owner: None })
    }

    /// Hands ownership to `new_owner`. Only the recorded owner may
    /// transfer it, and handing it to no one is rejected. The relayed
    /// notification reads the owner after the update, so both of its
    /// fields carry the new owner.
    pub fn transfer_ownership(&mut self, caller: AccountId, new_owner: Option<AccountId>) -> (r:
        Result<OwnershipTransferred, OwnableError>)
        requires
            old(self).wf(),
        ensures
            final(self).wf(),
            same_ledger(*old(self), *final(self)),
            same_roles(*old(self), *final(self)),
            same_config(*old(self), *final(self)),
            old(self).spec_owner() != Some(caller) ==> *final(self) == *old(self) && r == Err::<
                OwnershipTransferred,
                OwnableError,
            >(OwnableError::CallerIsNotOwner),
            old(self).spec_owner() == Some(caller) && new_owner == None::<AccountId> ==> *final(self) == *old(self) && r == Err::<OwnershipTransferred, OwnableError>(
                OwnableError::NewOwnerIsNotSet,
            ),
            old(self).spec_owner() == Some(caller) && new_owner is Some ==> final(self).spec_owner() == new_owner && r == Ok::<OwnershipTransferred, OwnableError>(
                (OwnershipTransferred { old_owner: new_owner, new_owner }),
            ),
    {
        match self.ownable._check_owner(Some(caller)) {
            Ok(()) => {}
            Err(e) => {
                return Err(e);
            }
        }
        match self.ownable.transfer_ownership(new_owner) {
            Ok(()) => {}
            Err(e) => {
                return Err(e);
            }
        }
        let recorded = self.ownable.owner();
        Ok(OwnershipTransferred { old_owner: recorded, new_owner })
    }

    pub fn has_role(&self, role: RoleType, address: Option<AccountId>) -> (r: bool)
        requires
            self.wf(),
        ensures
            r == self.spec_has_role(role, address),
    {
        self.admin._has_role(role, &address)
    }

    pub fn get_role_admin(&self, role: RoleType) -> (r: RoleType)
        requires
            self.wf(),
        ensures
            r == self.spec_role_admin(role),
    {
        match self.admin._get_role_admin(role) {
            Some(admin_role) => admin_role,
            None => AccessControlData::_default_admin(),
        }
    }

    /// Grants `role` to `account`. The caller must hold the administering
    /// role of `role`; granting an already-held role is rejected so caller
    /// mistakes surface.
    pub fn grant_role(&mut self, caller: AccountId, role: RoleType, account: Option<AccountId>)
        -> (r: Result<(), AccessControlError>)
        requires
            old(self).wf(),
        ensures
            final(self).wf(),
            same_ledger(*old(self), *final(self)),
            same_owner(*old(self), *final(self)),
            same_config(*old(self), *final(self)),
            forall|r2: RoleType|
                #[trigger] final(self).spec_role_admin(r2) == old(self).spec_role_admin(r2),
            !old(self).spec_has_role(old(self).spec_role_admin(role), Some(caller)) ==> *final(self) == *old(self) && r == Err::<(), AccessControlError>(AccessControlError::MissingRole),
            old(self).spec_has_role(old(self).spec_role_admin(role), Some(caller)) && old(
                self,
            ).spec_has_role(role, account) ==> *final(self) == *old(self) && r == Err::<
                (),
                AccessControlError,
            >(AccessControlError::RoleRedundant),
            old(self).spec_has_role(old(self).spec_role_admin(role), Some(caller)) && !old(
                self,
            ).spec_has_role(role, account) ==> r == Ok::<(), AccessControlError>(()) && forall|
                r2: RoleType,
                m2: Option<AccountId>,
            |
                #[trigger] final(self).spec_has_role(r2, m2) == (old(self).spec_has_role(r2, m2)
                    || (r2 == role && m2 == account)),
    {
        let admin_role = self.get_role_admin(role);
        match self.admin._check_role(admin_role, Some(caller)) {
            Ok(()) => {}
            Err(e) => {
                return Err(e);
            }
        }
        if self.admin._has_role(role, &account) {
            return Err(AccessControlError::RoleRedundant);
        }
        self.admin._add(role, &account);
        Ok(())
    }

    /// Revokes `role` from `account` unconditionally — revoking an absent
    /// membership is a harmless no-op. The caller must hold the
    /// administering role of `role`.
    pub fn revoke_role(&mut self, caller: AccountId, role: RoleType, account: Option<AccountId>)
        -> (r: Result<(), AccessControlError>)
        requires
            old(self).wf(),
        ensures
            final(self).wf(),
            same_ledger(*old(self), *final(self)),
            same_owner(*old(self), *final(self)),
            same_config(*old(self), *final(self)),
            forall|r2: RoleType|
                #[trigger] final(self).spec_role_admin(r2) == old(self).spec_role_admin(r2),
            !old(self).spec_has_role(old(self).spec_role_admin(role), Some(caller)) ==> *final(self) == *old(self) && r == Err::<(), AccessControlError>(AccessControlError::MissingRole),
            old(self).spec_has_role(old(self).spec_role_admin(role), Some(caller)) ==> r == Ok::<
                (),
                AccessControlError,
            >(()) && forall|r2: RoleType, m2: Option<AccountId>|
                #[trigger] final(self).spec_has_role(r2, m2) == (old(self).spec_has_role(r2, m2)
                    && !(r2 == role && m2 == account)),
    {
        let admin_role = self.get_role_admin(role);
        match self.admin._check_role(admin_role, Some(caller)) {
            Ok(()) => {}
            Err(e) => {
                return Err(e);
            }
        }
        self.admin._do_revoke_role(role, account);
        Ok(())
    }

    /// Renounces `role`: self-service removal, not admin-driven. The
    /// caller must be exactly the account being removed.
    pub fn renounce_role(&mut self, caller: AccountId, role: RoleType, account: Option<AccountId>)
        -> (r: Result<(), AccessControlError>)
        requires
            old(self).wf(),
        ensures
            final(self).wf(),
            same_ledger(*old(self), *final(self)),
            same_owner(*old(self), *final(self)),
            same_config(*old(self), *final(self)),
            forall|r2: RoleType|
                #[trigger] final(self).spec_role_admin(r2) == old(self).spec_role_admin(r2),
            account != Some(caller) ==> *final(self) == *old(self) && r == Err::<
                (),
                AccessControlError,
            >(AccessControlError::InvalidCaller),
            account == Some(caller) ==> r == Ok::<(), AccessControlError>(()) && forall|
                r2: RoleType,
                m2: Option<AccountId>,
            |
                #[trigger] final(self).spec_has_role(r2, m2) == (old(self).spec_has_role(r2, m2)
                    && !(r2 == role && m2 == account)),
    {
        let caller_opt = Some(caller);
        if !crate::account::account_opt_eq(&account, &caller_opt) {
            return Err(AccessControlError::InvalidCaller);
        }
        self.admin._do_revoke_role(role, account);
        Ok(())
    }

    pub fn token_name(&self) -> (r: Option<String>)
        ensures
            r == self.spec_token_name(),
    {
        self.metadata.token_name()
    }

    pub fn token_symbol(&self) -> (r: Option<String>)
        ensures
            r == self.spec_token_symbol(),
    {
        self.metadata.token_symbol()
    }

    pub fn token_decimals(&self) -> (r: u8)
        ensures
            r == self.spec_token_decimals(),
    {
        self.metadata.token_decimals()
    }
}

/// Conservation: in every well-formed contract state the balances sum
/// exactly to the total supply. Transfers and delegated transfers keep
/// both the sum and the supply, so no sequence of them can create or
/// destroy value.
pub proof fn lemma_facade_conservation(c: Psp22Standard)
    requires
        c.wf(),
    ensures
        c.spec_balance_sum() == c.spec_total_supply() as int,
{
    data::lemma_conservation(c.data);
}

/// Cap invariant: in every well-formed contract state — and every entry
/// point both requires and preserves well-formedness — the total supply
/// stays within the cap.
pub proof fn lemma_cap_invariant(c: Psp22Standard)
    requires
        c.wf(),
    ensures
        c.spec_total_supply() <= c.spec_cap(),
{
}

} // verus!
