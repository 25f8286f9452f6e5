use vstd::prelude::*;

verus! {

/// An externally unique identity, as the hosting execution context assigns
/// it. The ledger never inspects an identity; it only compares identities
/// for equality, so a single machine word models one.
#[derive(Clone, Copy, PartialEq, Eq, Hash, Debug, Structural)]
pub struct AccountId {
    pub id: u128,
}

/// Equality on optional identities, for the sentinel "no account" form.
pub(crate) fn account_opt_eq(a: &Option<AccountId>, b: &Option<AccountId>) -> (r: bool)
    ensures
        r == (a == b),
{
    match (a, b) {
        (None, None) => true,
        (Some(x), Some(y)) => x.id == y.id,
        _ => false,
    }
}

} // verus!
