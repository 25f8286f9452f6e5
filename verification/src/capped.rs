//! The supply cap: set exactly once at initialization, immutable after.

use vstd::prelude::*;
use vstd::string::StringExecFns;
use crate::errors::PSP22Error;

verus! {

/// Holds the maximum total supply. No update operation exists after
/// initialization: the cap is a deployment-time constant.
pub struct Capped {
    cap: u128,
}

impl Capped {
    /// The configured maximum total supply.
    pub closed spec fn spec_cap(self) -> u128 {
        self.cap
    }

    pub fn new() -> (r: Self)
        ensures
            r.spec_cap() == 0,
    {
        Capped { cap: 0 }
    }

    /// One-time initialization; a zero cap is rejected.
    pub fn _init_cap(&mut self, cap: u128) -> (r: Result<(), PSP22Error>)
        ensures
            cap == 0 ==> *final(self) == *old(self) && (r matches Err(e) && e
                matches PSP22Error::Custom(m) && m@ == "Cap must be above 0"@),
            cap != 0 ==> final(self).spec_cap() == cap && r == Ok::<(), PSP22Error>(()),
    {
        if cap == 0 {
            return Err(PSP22Error::Custom(String::from_str("Cap must be above 0")));
        }
        self.cap = cap;
        Ok(())
    }

    pub fn cap(&self) -> (r: u128)
        ensures
            r == self.spec_cap(),
    {
        self.cap
    }
}

} // verus!
