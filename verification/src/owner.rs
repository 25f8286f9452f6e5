//! The single-slot ownership record gating burn and ownership transfer.

use vstd::prelude::*;
use crate::account::{account_opt_eq, AccountId};
use crate::errors::OwnableError;

verus! {

/// Records the current owner, if any.
pub struct OwnableData {
    owner: Option<AccountId>,
}

impl OwnableData {
    pub closed spec fn spec_owner(self) -> Option<AccountId> {
        self.owner
    }

    pub fn new() -> (r: Self)
        ensures
            r.spec_owner() == None::<AccountId>,
    {
        OwnableData { owner: None }
    }

    pub fn _init_with_owner(&mut self, account: AccountId)
        ensures
            final(self).spec_owner() == Some(account),
    {
        self.owner = Some(account);
    }

    pub fn owner(&self) -> (r: Option<AccountId>)
        ensures
            r == self.spec_owner(),
    {
        self.owner
    }

    /// Gives up ownership: afterwards there is no owner.
    pub fn renounce_ownership(&mut self) -> (r: Result<(), OwnableError>)
        ensures
            final(self).spec_owner() == None::<AccountId>,
            r == Ok::<(), OwnableError>(()),
    {
        self.owner = None;
        Ok(())
    }

    /// Hands ownership to `new_owner`; handing it to no one is rejected.
    pub fn transfer_ownership(&mut self, new_owner: Option<AccountId>) -> (r: Result<
        (),
        OwnableError,
    >)
        ensures
            new_owner == None::<AccountId> ==> *final(self) == *old(self) && r == Err::<
                (),
                OwnableError,
            >(OwnableError::NewOwnerIsNotSet),
            new_owner is Some ==> final(self).spec_owner() == new_owner && r == Ok::<
                (),
                OwnableError,
            >(()),
    {
        if new_owner.is_none() {
            return Err(OwnableError::NewOwnerIsNotSet);
        }
        self.owner = new_owner;
        Ok(())
    }

    /// The authorization primitive of every owner-gated entry point.
    pub fn _check_owner(&self, account: Option<AccountId>) -> (r: Result<(), OwnableError>)
        ensures
            self.spec_owner() == account ==> r == Ok::<(), OwnableError>(()),
            self.spec_owner() != account ==> r == Err::<(), OwnableError>(
                OwnableError::CallerIsNotOwner,
            ),
    {
        if !account_opt_eq(&self.owner, &account) {
            return Err(OwnableError::CallerIsNotOwner);
        }
        Ok(())
    }
}

} // verus!
