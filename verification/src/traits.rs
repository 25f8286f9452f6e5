//! Shared identifiers and the capped-supply interface.

use vstd::prelude::*;

verus! {

/// A role is named by a fixed 32-bit identifier.
pub type RoleType = u32;

/// A token whose total supply never exceeds a fixed cap.
pub trait PSP22Capped {
    /// The configured maximum total supply.
    spec fn spec_cap(&self) -> u128;

    fn cap(&self) -> (r: u128)
        ensures
            r == self.spec_cap(),
    ;
}

} // verus!
