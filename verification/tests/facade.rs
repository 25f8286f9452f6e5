use psp22_ledger::AccessControlError;
use psp22_ledger::AccountId;
use psp22_ledger::ContractEvent;
use psp22_ledger::OwnableError;
use psp22_ledger::OwnershipTransferred;
use psp22_ledger::PSP22Capped;
use psp22_ledger::PSP22Error;
use psp22_ledger::PSP22Event;
use psp22_ledger::Psp22Standard;
use psp22_ledger::MINTER;

fn acct(id: u128) -> AccountId {
    AccountId { id }
}

fn deployed(cap: u128) -> (Psp22Standard, AccountId) {
    let deployer = acct(1);
    let c = Psp22Standard::new(
        deployer,
        cap,
        Some(String::from("Token")),
        Some(String::from("TOK")),
        9,
    )
    .unwrap();
    (c, deployer)
}

#[test]
fn the_default_state_is_empty_and_uninitialized() {
    let c = Psp22Standard::default();
    assert_eq!(c.total_supply(), 0);
    assert_eq!(c.cap(), 0);
    assert_eq!(c.owner(), None);
    assert_eq!(c.token_name(), None);
    assert_eq!(c.token_decimals(), 0);
    assert!(!c.has_role(psp22_ledger::DEFAULT_ADMIN_ROLE, None));
}

#[test]
fn zero_cap_is_rejected_at_initialization() {
    let r = Psp22Standard::new(acct(1), 0, None, None, 0);
    match r {
        Ok(_) => panic!("a zero cap must be rejected"),
        Err(e) => assert_eq!(e, PSP22Error::Custom(String::from("Cap must be above 0"))),
    }
}

#[test]
fn initialization_seeds_deployer_and_cap() {
    let (c, deployer) = deployed(1000);
    assert_eq!(c.cap(), 1000);
    assert_eq!(c.total_supply(), 0);
    assert_eq!(c.owner(), Some(deployer));
    assert!(c.has_role(psp22_ledger::DEFAULT_ADMIN_ROLE, Some(deployer)));
    assert!(!c.has_role(MINTER, Some(deployer)));
    assert_eq!(c.token_name(), Some(String::from("Token")));
    assert_eq!(c.token_symbol(), Some(String::from("TOK")));
    assert_eq!(c.token_decimals(), 9);
}

#[test]
fn capped_mint_scenario() {
    let (mut c, deployer) = deployed(1000);
    let a = acct(2);
    let b = acct(3);
    c.grant_role(deployer, MINTER, Some(deployer)).unwrap();
    c.mint(deployer, a, 600).unwrap();
    assert_eq!(c.total_supply(), 600);
    let r = c.mint(deployer, a, 500);
    assert_eq!(r, Err(PSP22Error::CapExceeded));
    assert_eq!(c.total_supply(), 600);
    assert_eq!(c.balance_of(a), 600);
    c.transfer(a, b, 600).unwrap();
    assert_eq!(c.balance_of(a), 0);
    assert_eq!(c.balance_of(b), 600);
    c.burn(deployer, b, 600).unwrap();
    assert_eq!(c.total_supply(), 0);
    assert_eq!(c.balance_of(b), 0);
}

#[test]
fn mint_without_the_role_is_rejected_first() {
    let (mut c, deployer) = deployed(1000);
    // even a cap-breaking value reports the missing role, not the cap
    let r = c.mint(deployer, acct(2), 5000);
    assert_eq!(r, Err(PSP22Error::AccessControlError(AccessControlError::MissingRole)));
    assert_eq!(c.total_supply(), 0);
}

#[test]
fn mint_exactly_to_the_cap_succeeds() {
    let (mut c, deployer) = deployed(1000);
    c.grant_role(deployer, MINTER, Some(deployer)).unwrap();
    let events = c.mint(deployer, acct(2), 1000).unwrap();
    assert_eq!(
        events,
        vec![PSP22Event::Transfer { from: None, to: Some(acct(2)), value: 1000 }]
    );
    assert_eq!(c.total_supply(), 1000);
    let r = c.mint(deployer, acct(2), 1);
    assert_eq!(r, Err(PSP22Error::CapExceeded));
}

#[test]
fn delegated_transfer_scenario() {
    let (mut c, deployer) = deployed(1000);
    let o = acct(2);
    let s = acct(3);
    let t = acct(4);
    c.grant_role(deployer, MINTER, Some(deployer)).unwrap();
    c.mint(deployer, o, 200).unwrap();
    c.approve(o, s, 100).unwrap();
    c.transfer_from(s, o, t, 60).unwrap();
    assert_eq!(c.allowance(o, s), 40);
    assert_eq!(c.balance_of(t), 60);
    let r = c.transfer_from(s, o, t, 41);
    assert_eq!(r, Err(PSP22Error::InsufficientAllowance));
    assert_eq!(c.allowance(o, s), 40);
    assert_eq!(c.balance_of(o), 140);
    assert_eq!(c.balance_of(t), 60);
}

#[test]
fn burn_by_anyone_but_the_owner_is_rejected() {
    let (mut c, deployer) = deployed(1000);
    c.grant_role(deployer, MINTER, Some(deployer)).unwrap();
    c.mint(deployer, acct(2), 100).unwrap();
    let r = c.burn(acct(2), acct(2), 50);
    assert_eq!(r, Err(PSP22Error::OwnableError(OwnableError::CallerIsNotOwner)));
    assert_eq!(c.total_supply(), 100);
}

#[test]
fn renounce_ownership_leaves_no_owner() {
    let (mut c, deployer) = deployed(1000);
    let r = c.renounce_ownership(acct(9));
    assert_eq!(r, Err(OwnableError::CallerIsNotOwner));
    let ev = c.renounce_ownership(deployer).unwrap();
    assert_eq!(
        ev,
        OwnershipTransferred { old_owner: Some(deployer), new_owner: None }
    );
    assert_eq!(c.owner(), None);
    // with no owner, burning is impossible
    let r2 = c.burn(deployer, acct(2), 0);
    assert_eq!(r2, Err(PSP22Error::OwnableError(OwnableError::CallerIsNotOwner)));
}

#[test]
fn transfer_ownership_to_no_one_is_rejected() {
    let (mut c, deployer) = deployed(1000);
    let r = c.transfer_ownership(deployer, None);
    assert_eq!(r, Err(OwnableError::NewOwnerIsNotSet));
    assert_eq!(c.owner(), Some(deployer));
}

#[test]
fn transfer_ownership_hands_the_record_over() {
    let (mut c, deployer) = deployed(1000);
    let next = acct(7);
    let ev = c.transfer_ownership(deployer, Some(next)).unwrap();
    // the relayed notification reads the owner after the update
    assert_eq!(
        ev,
        OwnershipTransferred { old_owner: Some(next), new_owner: Some(next) }
    );
    assert_eq!(c.owner(), Some(next));
    let r = c.transfer_ownership(deployer, Some(deployer));
    assert_eq!(r, Err(OwnableError::CallerIsNotOwner));
}

#[test]
fn no_op_calls_emit_no_events_on_the_facade() {
    let (mut c, deployer) = deployed(1000);
    let a = acct(2);
    c.grant_role(deployer, MINTER, Some(deployer)).unwrap();
    c.mint(deployer, a, 100).unwrap();
    assert!(c.transfer(a, a, 5).unwrap().is_empty());
    assert!(c.transfer(a, acct(3), 0).unwrap().is_empty());
    assert!(c.transfer_from(acct(3), a, a, 5).unwrap().is_empty());
    assert!(c.approve(a, a, 5).unwrap().is_empty());
    assert!(c.increase_allowance(a, acct(3), 0).unwrap().is_empty());
    assert!(c.decrease_allowance(a, acct(3), 0).unwrap().is_empty());
    assert!(c.mint(deployer, a, 0).unwrap().is_empty());
    assert!(c.burn(deployer, a, 0).unwrap().is_empty());
    assert_eq!(c.total_supply(), 100);
    assert_eq!(c.balance_of(a), 100);
}

#[test]
fn emit_events_keeps_shape_and_order() {
    let (c, _) = deployed(1000);
    let a = acct(2);
    let b = acct(3);
    let produced = vec![
        PSP22Event::Approval { owner: a, spender: b, amount: 40 },
        PSP22Event::Transfer { from: Some(a), to: Some(b), value: 60 },
    ];
    let relayed = c.emit_events(produced);
    assert_eq!(relayed.len(), 2);
    match &relayed[0] {
        ContractEvent::Approval(ev) => {
            assert_eq!(ev.owner, a);
            assert_eq!(ev.spender, b);
            assert_eq!(ev.amount, 40);
        }
        _ => panic!("expected an approval first"),
    }
    match &relayed[1] {
        ContractEvent::Transfer(ev) => {
            assert_eq!(ev.from, Some(a));
            assert_eq!(ev.to, Some(b));
            assert_eq!(ev.value, 60);
        }
        _ => panic!("expected a transfer second"),
    }
}
