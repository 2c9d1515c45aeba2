use permissioned_ledger::account::AccountId;
use permissioned_ledger::token::{Error, IshowspeedToken, Transfer};

fn acct(n: u64) -> AccountId {
    AccountId::from_words(n, 0, 0, 0)
}

#[test]
fn new_contract_works() {
    let alice = acct(1);
    let contract = IshowspeedToken::new(alice, 0);
    assert_eq!(contract.total_supply(), 0);
    assert_eq!(contract.balance_of(alice), 0);
    assert_eq!(contract.get_admin(), alice);
}

#[test]
fn new_contract_credits_initial_supply() {
    let alice = acct(1);
    let bob = acct(2);
    let contract = IshowspeedToken::new(alice, 500);
    assert_eq!(contract.total_supply(), 500);
    assert_eq!(contract.balance_of(alice), 500);
    assert_eq!(contract.balance_of(bob), 0);
    assert!(contract.is_developer(alice));
    assert!(contract.is_admin(alice));
    assert!(!contract.is_admin(bob));
}

#[test]
fn minting_works() {
    let alice = acct(1);
    let bob = acct(2);
    let mut contract = IshowspeedToken::new(alice, 0);
    let event = contract.mint(alice, bob, 100).unwrap();
    assert_eq!(event, Transfer { from: None, to: Some(bob), value: 100 });
    assert_eq!(contract.total_supply(), 100);
    assert_eq!(contract.balance_of(bob), 100);
}

#[test]
fn only_admin_can_mint() {
    let alice = acct(1);
    let bob = acct(2);
    let mut contract = IshowspeedToken::new(alice, 0);
    assert_eq!(contract.mint(bob, bob, 100), Err(Error::NotAuthorized));
    assert_eq!(contract.total_supply(), 0);
    assert_eq!(contract.balance_of(bob), 0);
}

#[test]
fn transfer_works() {
    let alice = acct(1);
    let bob = acct(2);
    let mut contract = IshowspeedToken::new(alice, 0);
    assert!(contract.mint(alice, alice, 100).is_ok());
    let event = contract.transfer(alice, bob, 10).unwrap();
    assert_eq!(event, Transfer { from: Some(alice), to: Some(bob), value: 10 });
    assert_eq!(contract.balance_of(alice), 90);
    assert_eq!(contract.balance_of(bob), 10);
    assert_eq!(contract.total_supply(), 100);
}

#[test]
fn transfer_fails_insufficient_balance() {
    let alice = acct(1);
    let bob = acct(2);
    let mut contract = IshowspeedToken::new(alice, 0);
    assert!(contract.mint(alice, alice, 100).is_ok());
    assert_eq!(contract.transfer(alice, bob, 200), Err(Error::InsufficientBalance));
    assert_eq!(contract.balance_of(alice), 100);
}

#[test]
fn transfer_by_plain_account_not_allowed() {
    let alice = acct(1);
    let bob = acct(2);
    let carol = acct(3);
    let mut contract = IshowspeedToken::new(alice, 0);
    assert!(contract.mint(alice, bob, 100).is_ok());
    assert_eq!(contract.transfer(bob, carol, 10), Err(Error::TransferNotAllowed));
    assert_eq!(contract.balance_of(bob), 100);
    assert_eq!(contract.balance_of(carol), 0);
}

#[test]
fn transfer_by_granted_admin_works() {
    let alice = acct(1);
    let bob = acct(2);
    let carol = acct(3);
    let mut contract = IshowspeedToken::new(alice, 0);
    assert!(contract.mint(alice, bob, 100).is_ok());
    assert_eq!(contract.add_admin(alice, bob), Ok(()));
    assert!(contract.transfer(bob, carol, 25).is_ok());
    assert_eq!(contract.balance_of(bob), 75);
    assert_eq!(contract.balance_of(carol), 25);
    assert_eq!(contract.total_supply(), 100);
}

#[test]
fn burn_by_transfer_to_zero_account() {
    let alice = acct(1);
    let bob = acct(2);
    let mut contract = IshowspeedToken::new(alice, 0);
    assert!(contract.mint(alice, bob, 100).is_ok());
    // Any caller may burn its own tokens, even without a role.
    let event = contract.transfer(bob, AccountId::zero(), 40).unwrap();
    assert_eq!(event, Transfer { from: Some(bob), to: None, value: 40 });
    assert_eq!(contract.balance_of(bob), 60);
    assert_eq!(contract.balance_of(alice), 0);
    assert_eq!(contract.total_supply(), 60);
}

#[test]
fn burn_matches_transfer_to_zero() {
    let alice = acct(1);
    let mut contract = IshowspeedToken::new(alice, 100);
    let event = contract.burn(alice, 30).unwrap();
    assert_eq!(event, Transfer { from: Some(alice), to: None, value: 30 });
    assert_eq!(contract.balance_of(alice), 70);
    assert_eq!(contract.total_supply(), 70);
    assert_eq!(contract.burn(alice, 100), Err(Error::InsufficientBalance));
}

#[test]
fn burn_from_is_privileged() {
    let alice = acct(1);
    let bob = acct(2);
    let mut contract = IshowspeedToken::new(alice, 0);
    assert!(contract.mint(alice, bob, 100).is_ok());
    assert_eq!(contract.burn_from(bob, bob, 10), Err(Error::NotAuthorized));
    let event = contract.burn_from(alice, bob, 10).unwrap();
    assert_eq!(event, Transfer { from: Some(bob), to: None, value: 10 });
    assert_eq!(contract.balance_of(bob), 90);
    assert_eq!(contract.total_supply(), 90);
}

#[test]
fn mint_overflow_is_detected() {
    let alice = acct(1);
    let bob = acct(2);
    let mut contract = IshowspeedToken::new(alice, u128::MAX);
    assert_eq!(contract.mint(alice, bob, 1), Err(Error::ArithmeticError));
    assert_eq!(contract.total_supply(), u128::MAX);
    assert_eq!(contract.balance_of(bob), 0);
}

#[test]
fn admin_management_is_idempotent() {
    let alice = acct(1);
    let bob = acct(2);
    let carol = acct(3);
    let mut contract = IshowspeedToken::new(alice, 0);
    assert_eq!(contract.add_admin(alice, bob), Ok(()));
    assert_eq!(contract.add_admin(alice, bob), Ok(()));
    assert!(contract.is_admin(bob));
    // Removing an account that holds no admin rights is a no-op success.
    assert_eq!(contract.remove_admin(alice, carol), Ok(()));
    assert!(!contract.is_admin(carol));
    assert_eq!(contract.remove_admin(alice, bob), Ok(()));
    assert!(!contract.is_admin(bob));
    assert_eq!(contract.add_admin(bob, carol), Err(Error::NotAuthorized));
}

#[test]
fn supply_equals_sum_of_balances() {
    let alice = acct(1);
    let bob = acct(2);
    let carol = acct(3);
    let mut contract = IshowspeedToken::new(alice, 1000);
    assert!(contract.mint(alice, bob, 200).is_ok());
    assert!(contract.transfer(alice, carol, 150).is_ok());
    assert!(contract.burn(bob, 50).is_ok());
    let sum = contract.balance_of(alice) + contract.balance_of(bob) + contract.balance_of(carol);
    assert_eq!(contract.total_supply(), sum);
    assert_eq!(contract.total_supply(), 1150);
}
