use psp22_ledger::AccessControlData;
use psp22_ledger::AccessControlError;
use psp22_ledger::AccountId;
use psp22_ledger::Psp22Standard;
use psp22_ledger::DEFAULT_ADMIN_ROLE;
use psp22_ledger::MINTER;

fn acct(id: u128) -> AccountId {
    AccountId { id }
}

fn deployed() -> (Psp22Standard, AccountId) {
    let deployer = acct(1);
    let c = Psp22Standard::new(deployer, 1000, None, None, 0).unwrap();
    (c, deployer)
}

#[test]
fn grant_then_revoke_round_trip() {
    let (mut c, deployer) = deployed();
    let a = acct(2);
    assert!(!c.has_role(MINTER, Some(a)));
    c.grant_role(deployer, MINTER, Some(a)).unwrap();
    assert!(c.has_role(MINTER, Some(a)));
    c.revoke_role(deployer, MINTER, Some(a)).unwrap();
    assert!(!c.has_role(MINTER, Some(a)));
}

#[test]
fn granting_twice_is_redundant() {
    let (mut c, deployer) = deployed();
    let a = acct(2);
    c.grant_role(deployer, MINTER, Some(a)).unwrap();
    let r = c.grant_role(deployer, MINTER, Some(a));
    assert_eq!(r, Err(AccessControlError::RoleRedundant));
    assert!(c.has_role(MINTER, Some(a)));
}

#[test]
fn granting_needs_the_admin_role() {
    let (mut c, _) = deployed();
    let outsider = acct(5);
    let r = c.grant_role(outsider, MINTER, Some(outsider));
    assert_eq!(r, Err(AccessControlError::MissingRole));
    assert!(!c.has_role(MINTER, Some(outsider)));
}

#[test]
fn revoking_needs_the_admin_role() {
    let (mut c, deployer) = deployed();
    let a = acct(2);
    c.grant_role(deployer, MINTER, Some(a)).unwrap();
    let r = c.revoke_role(a, MINTER, Some(a));
    assert_eq!(r, Err(AccessControlError::MissingRole));
    assert!(c.has_role(MINTER, Some(a)));
}

#[test]
fn revoking_an_absent_membership_is_a_no_op() {
    let (mut c, deployer) = deployed();
    let r = c.revoke_role(deployer, MINTER, Some(acct(2)));
    assert_eq!(r, Ok(()));
    assert!(!c.has_role(MINTER, Some(acct(2))));
}

#[test]
fn renouncing_is_self_service_only() {
    let (mut c, deployer) = deployed();
    let a = acct(2);
    c.grant_role(deployer, MINTER, Some(a)).unwrap();
    let r = c.renounce_role(deployer, MINTER, Some(a));
    assert_eq!(r, Err(AccessControlError::InvalidCaller));
    assert!(c.has_role(MINTER, Some(a)));
    c.renounce_role(a, MINTER, Some(a)).unwrap();
    assert!(!c.has_role(MINTER, Some(a)));
}

#[test]
fn role_admin_defaults_to_the_default_admin_role() {
    let (c, _) = deployed();
    assert_eq!(c.get_role_admin(MINTER), DEFAULT_ADMIN_ROLE);
    assert_eq!(c.get_role_admin(DEFAULT_ADMIN_ROLE), DEFAULT_ADMIN_ROLE);
}

#[test]
fn registry_add_remove_and_check() {
    let mut reg = AccessControlData::new();
    let a = Some(acct(1));
    assert!(!reg._has_role(7, &a));
    assert_eq!(reg._check_role(7, a), Err(AccessControlError::MissingRole));
    reg._setup_role(7, a);
    assert!(reg._has_role(7, &a));
    assert_eq!(reg._check_role(7, a), Ok(()));
    // adding again keeps the membership as it is
    reg._add(7, &a);
    assert!(reg._has_role(7, &a));
    reg._do_revoke_role(7, a);
    assert!(!reg._has_role(7, &a));
}

#[test]
fn registry_tracks_the_sentinel_member_separately() {
    let mut reg = AccessControlData::new();
    reg._setup_role(7, None);
    assert!(reg._has_role(7, &None));
    assert!(!reg._has_role(7, &Some(acct(1))));
}

#[test]
fn registry_stores_admin_roles() {
    let mut reg = AccessControlData::new();
    assert_eq!(reg._get_role_admin(7), None);
    reg._set_role_admin(7, 9);
    assert_eq!(reg._get_role_admin(7), Some(9));
    reg._set_role_admin(7, 11);
    assert_eq!(reg._get_role_admin(7), Some(11));
    assert_eq!(AccessControlData::_default_admin(), DEFAULT_ADMIN_ROLE);
}

#[test]
fn a_changed_admin_role_gates_granting() {
    let (mut c, deployer) = deployed();
    let officer = acct(2);
    let a = acct(3);
    // the deployer administers MINTER by default and delegates it
    c.grant_role(deployer, MINTER, Some(officer)).unwrap();
    // officer holds MINTER but not the admin role, so cannot grant it
    let r = c.grant_role(officer, MINTER, Some(a));
    assert_eq!(r, Err(AccessControlError::MissingRole));
}
