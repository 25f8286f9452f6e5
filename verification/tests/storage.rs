use psp22_ledger::AccountId;
use psp22_ledger::AllowanceMap;
use psp22_ledger::BalanceMap;
use psp22_ledger::Capped;
use psp22_ledger::Metadata;
use psp22_ledger::OwnableData;
use psp22_ledger::OwnableError;
use psp22_ledger::PSP22Error;

fn acct(id: u128) -> AccountId {
    AccountId { id }
}

#[test]
fn balance_map_sets_and_reads() {
    let mut m = BalanceMap::new();
    assert_eq!(m.get(acct(1)), 0);
    m.set(acct(1), 10);
    m.set(acct(2), 20);
    assert_eq!(m.get(acct(1)), 10);
    assert_eq!(m.get(acct(2)), 20);
    m.set(acct(1), 0);
    assert_eq!(m.get(acct(1)), 0);
    assert_eq!(m.get(acct(2)), 20);
}

#[test]
fn allowance_map_keys_are_ordered_pairs() {
    let mut m = AllowanceMap::new();
    m.set(acct(1), acct(2), 5);
    assert_eq!(m.get(acct(1), acct(2)), 5);
    assert_eq!(m.get(acct(2), acct(1)), 0);
    m.set(acct(1), acct(2), 0);
    assert_eq!(m.get(acct(1), acct(2)), 0);
}

#[test]
fn cap_initializes_once_and_rejects_zero() {
    let mut c = Capped::new();
    assert_eq!(
        c._init_cap(0),
        Err(PSP22Error::Custom(String::from("Cap must be above 0")))
    );
    assert_eq!(c._init_cap(42), Ok(()));
    assert_eq!(c.cap(), 42);
}

#[test]
fn ownable_record_checks_and_moves() {
    let mut o = OwnableData::new();
    assert_eq!(o.owner(), None);
    o._init_with_owner(acct(1));
    assert_eq!(o.owner(), Some(acct(1)));
    assert_eq!(o._check_owner(Some(acct(1))), Ok(()));
    assert_eq!(o._check_owner(Some(acct(2))), Err(OwnableError::CallerIsNotOwner));
    assert_eq!(o.transfer_ownership(None), Err(OwnableError::NewOwnerIsNotSet));
    assert_eq!(o.transfer_ownership(Some(acct(2))), Ok(()));
    assert_eq!(o.owner(), Some(acct(2)));
    assert_eq!(o.renounce_ownership(), Ok(()));
    assert_eq!(o.owner(), None);
}

#[test]
fn metadata_holds_what_it_was_given() {
    let m = Metadata::new(Some(String::from("Token")), None, 12);
    assert_eq!(m.token_name(), Some(String::from("Token")));
    assert_eq!(m.token_symbol(), None);
    assert_eq!(m.token_decimals(), 12);
}
