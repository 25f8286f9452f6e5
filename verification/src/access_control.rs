//! The role registry: which account holds which role, and which role
//! administers which. Authorization for granting and revoking is the
//! facade's responsibility; this layer only keeps the two tables.

use vstd::prelude::*;
use crate::account::{account_opt_eq, AccountId};
use crate::errors::AccessControlError;
use crate::kvlist::{
    keys_unique, lemma_absent_of_lookup_none, lemma_lookup_absent, lemma_lookup_at_index,
    lemma_push, lemma_remove, lookup,
};
use crate::traits::RoleType;

verus! {

/// The fixed identifier of the role that administers a role when none was
/// ever set for it.
pub const DEFAULT_ADMIN_ROLE: RoleType = 0;

/// A membership key: a role held either by a concrete account or by the
/// "no account" sentinel used during initialization bookkeeping.
#[derive(Clone, Copy, PartialEq, Eq, Debug)]
pub struct MemberKey {
    pub role: RoleType,
    pub account: Option<AccountId>,
}

/// The registry state: the administering role of each role, and the set
/// of memberships.
pub struct AccessControlData {
    admin_roles: Vec<(RoleType, RoleType)>,
    members: Vec<(MemberKey, ())>,
}

impl AccessControlData {
    pub closed spec fn wf(self) -> bool {
        &&& keys_unique(self.admin_roles@)
        &&& keys_unique(self.members@)
    }

    /// Whether `account` holds `role`.
    pub closed spec fn spec_has_role(self, role: RoleType, account: Option<AccountId>) -> bool {
        lookup(self.members@, (MemberKey { role, account })) is Some
    }

    /// The administering role stored for `role`, if any was ever set.
    pub closed spec fn spec_role_admin(self, role: RoleType) -> Option<RoleType> {
        lookup(self.admin_roles@, role)
    }

    pub fn new() -> (r: Self)
        ensures
            r.wf(),
            forall|role: RoleType, a: Option<AccountId>| !r.spec_has_role(role, a),
            forall|role: RoleType| r.spec_role_admin(role) == None::<RoleType>,
    {
        AccessControlData { admin_roles: Vec::new(), members: Vec::new() }
    }

    fn find_member(&self, k: MemberKey) -> (r: Option<usize>)
        ensures
            match r {
                Some(i) => i < self.members@.len() && self.members@[i as int].0 == k,
                None => lookup(self.members@, k) == None::<()>,
            },
    {
        let n = self.members.len();
        let mut i: usize = 0;
        while i < n
            invariant
                n == self.members@.len(),
                i <= n,
                forall|j: int| 0 <= j < i ==> self.members@[j].0 != k,
            decreases n - i,
        {
            let e = self.members[i].0;
            if e.role == k.role && account_opt_eq(&e.account, &k.account) {
                return Some(i);
            }
            i = i + 1;
        }
        proof {
            lemma_lookup_absent(self.members@, k);
        }
        None
    }

    fn find_admin(&self, role: RoleType) -> (r: Option<usize>)
        ensures
            match r {
                Some(i) => i < self.admin_roles@.len() && self.admin_roles@[i as int].0 == role,
                None => lookup(self.admin_roles@, role) == None::<RoleType>,
            },
    {
        let n = self.admin_roles.len();
        let mut i: usize = 0;
        while i < n
            invariant
                n == self.admin_roles@.len(),
                i <= n,
                forall|j: int| 0 <= j < i ==> self.admin_roles@[j].0 != role,
            decreases n - i,
        {
            if self.admin_roles[i].0 == role {
                return Some(i);
            }
            i = i + 1;
        }
        proof {
            lemma_lookup_absent(self.admin_roles@, role);
        }
        None
    }

    pub fn _has_role(&self, role: RoleType, address: &Option<AccountId>) -> (r: bool)
        requires
            self.wf(),
        ensures
            r == self.spec_has_role(role, *address),
    {
        match self.find_member(MemberKey { role, account: *address }) {
            Some(i) => {
                proof {
                    lemma_lookup_at_index(self.members@, i as int);
                }
                true
            }
            None => false,
        }
    }

    /// Records the membership; already-present memberships stay as they
    /// are.
    pub fn _add(&mut self, role: RoleType, member: &Option<AccountId>)
        requires
            old(self).wf(),
        ensures
            final(self).wf(),
            forall|r2: RoleType, a2: Option<AccountId>|
                #[trigger] final(self).spec_has_role(r2, a2) == (old(self).spec_has_role(r2, a2)
                    || (r2 == role && a2 == *member)),
            forall|r2: RoleType|
                #[trigger] final(self).spec_role_admin(r2) == old(self).spec_role_admin(r2),
    {
        let k = MemberKey { role, account: *member };
        match self.find_member(k) {
            Some(i) => {
                proof {
                    lemma_lookup_at_index(self.members@, i as int);
                }
            }
            None => {
                proof {
                    lemma_push(self.members@, k, ());
                    lemma_absent_of_lookup_none(self.members@, k);
                }
                self.members.push((k, ()));
            }
        }
    }

    /// Removes the membership; an absent membership is a harmless no-op.
    pub fn _remove(&mut self, role: RoleType, member: &Option<AccountId>)
        requires
            old(self).wf(),
        ensures
            final(self).wf(),
            forall|r2: RoleType, a2: Option<AccountId>|
                #[trigger] final(self).spec_has_role(r2, a2) == (old(self).spec_has_role(r2, a2)
                    && !(r2 == role && a2 == *member)),
            forall|r2: RoleType|
                #[trigger] final(self).spec_role_admin(r2) == old(self).spec_role_admin(r2),
    {
        let k = MemberKey { role, account: *member };
        match self.find_member(k) {
            Some(i) => {
                proof {
                    lemma_remove(self.members@, i as int);
                }
                self.members.remove(i);
            }
            None => {}
        }
    }

    pub fn _get_role_admin(&self, role: RoleType) -> (r: Option<RoleType>)
        requires
            self.wf(),
        ensures
            r == self.spec_role_admin(role),
    {
        match self.find_admin(role) {
            Some(i) => {
                proof {
                    lemma_lookup_at_index(self.admin_roles@, i as int);
                }
                Some(self.admin_roles[i].1)
            }
            None => None,
        }
    }

    /// Stores `new_admin` as the administering role of `role`.
    pub fn _set_role_admin(&mut self, role: RoleType, new_admin: RoleType)
        requires
            old(self).wf(),
        ensures
            final(self).wf(),
            forall|r2: RoleType|
                #[trigger] final(self).spec_role_admin(r2) == (if r2 == role {
                    Some(new_admin)
                } else {
                    old(self).spec_role_admin(r2)
                }),
            forall|r2: RoleType, a2: Option<AccountId>|
                #[trigger] final(self).spec_has_role(r2, a2) == old(self).spec_has_role(r2, a2),
    {
        match self.find_admin(role) {
            Some(i) => {
                proof {
                    lemma_remove(self.admin_roles@, i as int);
                }
                self.admin_roles.remove(i);
            }
            None => {}
        }
        proof {
            lemma_push(self.admin_roles@, role, new_admin);
            lemma_absent_of_lookup_none(self.admin_roles@, role);
        }
        self.admin_roles.push((role, new_admin));
    }

    pub fn _default_admin() -> (r: RoleType)
        ensures
            r == DEFAULT_ADMIN_ROLE,
    {
        DEFAULT_ADMIN_ROLE
    }

    /// Seeds the default-admin role to `admin` at initialization.
    pub fn _init_with_admin(&mut self, admin: Option<AccountId>)
        requires
            old(self).wf(),
        ensures
            final(self).wf(),
            forall|r2: RoleType, a2: Option<AccountId>|
                #[trigger] final(self).spec_has_role(r2, a2) == (old(self).spec_has_role(r2, a2)
                    || (r2 == DEFAULT_ADMIN_ROLE && a2 == admin)),
            forall|r2: RoleType|
                #[trigger] final(self).spec_role_admin(r2) == old(self).spec_role_admin(r2),
    {
        let role = Self::_default_admin();
        self._setup_role(role, admin);
    }

    /// Records the membership without any authorization check.
    pub fn _setup_role(&mut self, role: RoleType, member: Option<AccountId>)
        requires
            old(self).wf(),
        ensures
            final(self).wf(),
            forall|r2: RoleType, a2: Option<AccountId>|
                #[trigger] final(self).spec_has_role(r2, a2) == (old(self).spec_has_role(r2, a2)
                    || (r2 == role && a2 == member)),
            forall|r2: RoleType|
                #[trigger] final(self).spec_role_admin(r2) == old(self).spec_role_admin(r2),
    {
        if !self._has_role(role, &member) {
            self._add(role, &member);
        }
    }

    /// Removes the membership without any authorization check.
    pub fn _do_revoke_role(&mut self, role: RoleType, account: Option<AccountId>)
        requires
            old(self).wf(),
        ensures
            final(self).wf(),
            forall|r2: RoleType, a2: Option<AccountId>|
                #[trigger] final(self).spec_has_role(r2, a2) == (old(self).spec_has_role(r2, a2)
                    && !(r2 == role && a2 == account)),
            forall|r2: RoleType|
                #[trigger] final(self).spec_role_admin(r2) == old(self).spec_role_admin(r2),
    {
        self._remove(role, &account);
    }

    /// The authorization primitive of every privileged entry point: a pure
    /// check, not a mutation.
    pub fn _check_role(&self, role: RoleType, account: Option<AccountId>) -> (r: Result<
        (),
        AccessControlError,
    >)
        requires
            self.wf(),
        ensures
            self.spec_has_role(role, account) ==> r == Ok::<(), AccessControlError>(()),
            !self.spec_has_role(role, account) ==> r == Err::<(), AccessControlError>(
                AccessControlError::MissingRole,
            ),
    {
        if !self._has_role(role, &account) {
            return Err(AccessControlError::MissingRole);
        }
        Ok(())
    }
}

} // verus!
