use psp22_ledger::AccessControlError;
use psp22_ledger::Error;
use psp22_ledger::OwnableError;
use psp22_ledger::PSP22Error;
use psp22_ledger::UpgradeableError;

#[test]
fn every_failure_kind_lifts_into_the_union() {
    assert_eq!(
        Error::from(AccessControlError::MissingRole),
        Error::AccessControlError(AccessControlError::MissingRole)
    );
    assert_eq!(
        Error::from(OwnableError::CallerIsNotOwner),
        Error::OwnableError(OwnableError::CallerIsNotOwner)
    );
    assert_eq!(
        Error::from(UpgradeableError::SetCodeHashFailed),
        Error::UpgradeableError(UpgradeableError::SetCodeHashFailed)
    );
    assert_eq!(
        Error::from(PSP22Error::CapExceeded),
        Error::PSP22Error(PSP22Error::CapExceeded)
    );
}

#[test]
fn gating_failures_lift_into_the_ledger_error() {
    assert_eq!(
        PSP22Error::from(AccessControlError::RoleRedundant),
        PSP22Error::AccessControlError(AccessControlError::RoleRedundant)
    );
    assert_eq!(
        PSP22Error::from(OwnableError::NewOwnerIsNotSet),
        PSP22Error::OwnableError(OwnableError::NewOwnerIsNotSet)
    );
    assert_eq!(
        UpgradeableError::from(OwnableError::CallerIsNotOwner),
        UpgradeableError::OwnableError(OwnableError::CallerIsNotOwner)
    );
}
