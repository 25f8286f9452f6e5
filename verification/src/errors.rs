//! Error taxonomy. Every failure is reported synchronously to the caller
//! and leaves all state unchanged; composite operations report the
//! first-failing check's specific kind.

use vstd::prelude::*;

verus! {

/// Failures of the role registry and of role-gated entry points.
#[derive(Debug, PartialEq, Eq)]
pub enum AccessControlError {
    /// The caller was not authorized for the attempted operation.
    InvalidCaller,
    /// The required role is not held.
    MissingRole,
    /// The role was granted already.
    RoleRedundant,
}

/// Failures of the ownership record and of owner-gated entry points.
#[derive(Debug, PartialEq, Eq)]
pub enum OwnableError {
    Custom(String),
    /// The caller is not the recorded owner.
    CallerIsNotOwner,
    /// Ownership cannot be transferred to no one.
    NewOwnerIsNotSet,
}

/// Failures of the token ledger and of its gated entry points.
#[derive(Debug, PartialEq, Eq)]
pub enum PSP22Error {
    Custom(String),
    /// The debited balance is below the requested value.
    InsufficientBalance,
    /// The debited allowance is below the requested value.
    InsufficientAllowance,
    ZeroRecipientAddress,
    ZeroSenderAddress,
    /// The supply cap was initialized with zero.
    InvalidCap,
    /// The mint would push the total supply above the cap.
    CapExceeded,
    OwnableError(OwnableError),
    SafeTransferCheckFailed(String),
    AccessControlError(AccessControlError),
}

/// Failures of the contract-upgrade mechanism.
#[derive(Debug, PartialEq, Eq)]
pub enum UpgradeableError {
    Custom(String),
    /// The host refused to switch the executing code.
    SetCodeHashFailed,
    OwnableError(OwnableError),
}

/// The union of every failure a call can surface.
#[derive(Debug, PartialEq, Eq)]
pub enum Error {
    Custom(String),
    NotEnoughBalance,
    WithdrawFeeError,
    OwnableError(OwnableError),
    AccessControlError(AccessControlError),
    PSP22Error(PSP22Error),
    UpgradeableError(UpgradeableError),
}

impl From<AccessControlError> for Error {
    fn from(error: AccessControlError) -> Self {
        Error::AccessControlError(error)
    }
}

impl vstd::std_specs::convert::FromSpecImpl<AccessControlError> for Error {
    open spec fn obeys_from_spec() -> bool {
        true
    }

    open spec fn from_spec(error: AccessControlError) -> Self {
        Error::AccessControlError(error)
    }
}

impl From<OwnableError> for Error {
    fn from(error: OwnableError) -> Self {
        Error::OwnableError(error)
    }
}

impl vstd::std_specs::convert::FromSpecImpl<OwnableError> for Error {
    open spec fn obeys_from_spec() -> bool {
        true
    }

    open spec fn from_spec(error: OwnableError) -> Self {
        Error::OwnableError(error)
    }
}

impl From<UpgradeableError> for Error {
    fn from(error: UpgradeableError) -> Self {
        Error::UpgradeableError(error)
    }
}

impl vstd::std_specs::convert::FromSpecImpl<UpgradeableError> for Error {
    open spec fn obeys_from_spec() -> bool {
        true
    }

    open spec fn from_spec(error: UpgradeableError) -> Self {
        Error::UpgradeableError(error)
    }
}

impl From<PSP22Error> for Error {
    fn from(error: PSP22Error) -> Self {
        Error::PSP22Error(error)
    }
}

impl vstd::std_specs::convert::FromSpecImpl<PSP22Error> for Error {
    open spec fn obeys_from_spec() -> bool {
        true
    }

    open spec fn from_spec(error: PSP22Error) -> Self {
        Error::PSP22Error(error)
    }
}

impl From<AccessControlError> for PSP22Error {
    fn from(error: AccessControlError) -> Self {
        PSP22Error::AccessControlError(error)
    }
}

impl vstd::std_specs::convert::FromSpecImpl<AccessControlError> for PSP22Error {
    open spec fn obeys_from_spec() -> bool {
        true
    }

    open spec fn from_spec(error: AccessControlError) -> Self {
        PSP22Error::AccessControlError(error)
    }
}

impl From<OwnableError> for PSP22Error {
    fn from(error: OwnableError) -> Self {
        PSP22Error::OwnableError(error)
    }
}

impl vstd::std_specs::convert::FromSpecImpl<OwnableError> for PSP22Error {
    open spec fn obeys_from_spec() -> bool {
        true
    }

    open spec fn from_spec(error: OwnableError) -> Self {
        PSP22Error::OwnableError(error)
    }
}

impl From<OwnableError> for UpgradeableError {
    fn from(error: OwnableError) -> Self {
        UpgradeableError::OwnableError(error)
    }
}

impl vstd::std_specs::convert::FromSpecImpl<OwnableError> for UpgradeableError {
    open spec fn obeys_from_spec() -> bool {
        true
    }

    open spec fn from_spec(error: OwnableError) -> Self {
        UpgradeableError::OwnableError(error)
    }
}

} // verus!
