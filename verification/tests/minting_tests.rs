use permissioned_ledger::account::AccountId;
use permissioned_ledger::minting::{Error, MintBackend, Minting};
use permissioned_ledger::token::IshowspeedToken;

fn acct(n: u64) -> AccountId {
    AccountId::from_words(n, 0, 0, 0)
}

/// A backend that accepts every request.
struct AcceptingBackend;

impl MintBackend for AcceptingBackend {
    fn mint_to(&mut self, _to: AccountId, _amount: u128) -> bool {
        true
    }
}

/// A fault-injecting backend that refuses every request.
struct RefusingBackend;

impl MintBackend for RefusingBackend {
    fn mint_to(&mut self, _to: AccountId, _amount: u128) -> bool {
        false
    }
}

/// The token ledger as a backend, minting under a fixed caller identity, as
/// the deployed controller would call the ledger from its own account.
struct LedgerBackend {
    minter: AccountId,
    token: IshowspeedToken,
}

impl MintBackend for LedgerBackend {
    fn mint_to(&mut self, to: AccountId, amount: u128) -> bool {
        self.token.mint(self.minter, to, amount).is_ok()
    }
}

#[test]
fn lib_minting_works() {
    let alice = acct(1);
    let bob = acct(2);
    let mut minting = Minting::new(alice);
    let mut backend = AcceptingBackend;
    let event = minting.mint(alice, &mut backend, bob, 100).unwrap();
    assert_eq!(event.to, bob);
    assert_eq!(event.by, alice);
    assert_eq!(event.amount, 100);
    assert_eq!(minting.total_minted(), 100);
}

#[test]
fn admin_management_works() {
    let alice = acct(1);
    let bob = acct(2);
    let charlie = acct(3);
    let mut minting = Minting::new(alice);
    let mut backend = AcceptingBackend;
    assert_eq!(minting.add_admin(alice, bob), Ok(()));
    assert!(minting.is_admin(bob));
    assert!(minting.mint(bob, &mut backend, charlie, 50).is_ok());
    assert_eq!(minting.remove_admin(alice, bob), Ok(()));
    assert!(!minting.is_admin(bob));
    assert_eq!(minting.mint(bob, &mut backend, charlie, 50), Err(Error::NotAuthorized));
}

#[test]
fn minting_limits_work() {
    let alice = acct(1);
    let bob = acct(2);
    let charlie = acct(3);
    let mut minting = Minting::new(alice);
    let mut backend = AcceptingBackend;
    assert_eq!(minting.add_admin(alice, bob), Ok(()));
    assert!(minting.set_minting_limit(alice, bob, 100).is_ok());
    assert!(minting.mint(bob, &mut backend, charlie, 100).is_ok());
    assert_eq!(minting.mint(bob, &mut backend, charlie, 1), Err(Error::MintingLimitExceeded));
    assert_eq!(minting.total_minted(), 100);
}

#[test]
fn limit_defaults_differ_between_read_and_check() {
    let alice = acct(1);
    let bob = acct(2);
    let mut minting = Minting::new(alice);
    let mut backend = AcceptingBackend;
    // The read accessor reports a missing cap as zero ...
    assert_eq!(minting.get_minting_limit(alice), 0);
    // ... while the mint check treats the same account as unlimited.
    assert!(minting.mint(alice, &mut backend, bob, 1_000_000).is_ok());
    assert_eq!(minting.total_minted(), 1_000_000);
    assert!(minting.set_minting_limit(alice, alice, 42).is_ok());
    assert_eq!(minting.get_minting_limit(alice), 42);
}

#[test]
fn refused_delegation_changes_nothing() {
    let alice = acct(1);
    let bob = acct(2);
    let mut minting = Minting::new(alice);
    let mut backend = RefusingBackend;
    assert_eq!(minting.mint(alice, &mut backend, bob, 10), Err(Error::MintingFailed));
    assert_eq!(minting.total_minted(), 0);
}

#[test]
fn set_minting_limit_requires_a_role() {
    let alice = acct(1);
    let mallory = acct(66);
    let mut minting = Minting::new(alice);
    assert_eq!(minting.set_minting_limit(mallory, mallory, u128::MAX), Err(Error::NotAuthorized));
    assert_eq!(minting.get_minting_limit(mallory), 0);
    let event = minting.set_minting_limit(alice, mallory, 7).unwrap();
    assert_eq!(event.for_account, mallory);
    assert_eq!(event.by, alice);
    assert_eq!(event.limit, 7);
}

#[test]
fn cumulative_total_gates_each_caller_limit() {
    // The controller checks its one cumulative counter against the calling
    // admin's own cap: what one admin mints uses up another's headroom.
    let alice = acct(1);
    let bob = acct(2);
    let charlie = acct(3);
    let mut minting = Minting::new(alice);
    let mut backend = AcceptingBackend;
    assert_eq!(minting.add_admin(alice, bob), Ok(()));
    assert!(minting.set_minting_limit(alice, bob, 60).is_ok());
    assert!(minting.mint(alice, &mut backend, charlie, 50).is_ok());
    assert_eq!(minting.mint(bob, &mut backend, charlie, 20), Err(Error::MintingLimitExceeded));
    assert!(minting.mint(bob, &mut backend, charlie, 10).is_ok());
    assert_eq!(minting.total_minted(), 60);
}

#[test]
fn ledger_backed_minting_moves_the_supply() {
    let alice = acct(1);
    let bob = acct(2);
    let mut minting = Minting::new(alice);
    let token = IshowspeedToken::new(alice, 0);
    let mut backend = LedgerBackend { minter: alice, token };
    assert!(minting.mint(alice, &mut backend, bob, 250).is_ok());
    assert_eq!(minting.total_minted(), 250);
    assert_eq!(backend.token.total_supply(), 250);
    assert_eq!(backend.token.balance_of(bob), 250);
}

#[test]
fn ledger_backed_minting_fails_without_token_role() {
    let alice = acct(1);
    let eve = acct(5);
    let bob = acct(2);
    let mut minting = Minting::new(eve);
    // The controller authorizes eve, but the token ledger does not: the
    // delegated call is refused and neither side changes.
    let token = IshowspeedToken::new(alice, 0);
    let mut backend = LedgerBackend { minter: eve, token };
    assert_eq!(minting.mint(eve, &mut backend, bob, 10), Err(Error::MintingFailed));
    assert_eq!(minting.total_minted(), 0);
    assert_eq!(backend.token.total_supply(), 0);
}
