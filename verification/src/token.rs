use vstd::prelude::*;

use crate::account::AccountId;
use crate::account_map::AccountMap;
use crate::roles::{granted, revoked, RoleAuthority};

verus! {

/// Errors of the token ledger.
#[derive(Clone, Copy, Debug, PartialEq, Eq, Structural)]
pub enum Error {
    /// The debited account's balance does not cover the value.
    InsufficientBalance,
    /// The caller lacks the role the operation demands.
    NotAuthorized,
    /// The transfer is neither a burn nor made by the developer or an admin.
    TransferNotAllowed,
    /// The operation would overflow the supply.
    ArithmeticError,
}

/// The event a balance-affecting operation returns: `from` is `None` for a
/// mint, `to` is `None` for a burn.
#[derive(Debug, PartialEq, Eq)]
pub struct Transfer {
    pub from: Option<AccountId>,
    pub to: Option<AccountId>,
    pub value: u128,
}

/// The event that a successful movement of `value` from `from` towards `to`
/// returns. A movement towards the burn sentinel credits no account.
pub open spec fn transfer_event(from: AccountId, to: AccountId, value: u128) -> Transfer {
    Transfer {
        from: Some(from),
        to: if to == AccountId::zero_spec() {
            None
        } else {
            Some(to)
        },
        value,
    }
}

/// A fungible token ledger with role-gated transfer, mint and burn.
///
/// The ledger upholds conservation of supply: in every reachable state the
/// total supply equals the sum of all balances (see [`IshowspeedToken::wf`],
/// which every operation requires and preserves).
pub struct IshowspeedToken {
    /// The developer that constructed the ledger, and its admins.
    pub roles: RoleAuthority,
    /// The number of tokens in circulation.
    pub total_supply: u128,
    /// Per-account balances; an absent account holds zero.
    pub balances: AccountMap,
}

impl IshowspeedToken {
    /// Conservation of supply: the total supply equals the sum of all
    /// balances.
    pub open spec fn wf(self) -> bool {
        &&& self.roles.wf()
        &&& self.balances.wf()
        &&& self.total_supply as int == self.balances.total()
    }

    /// The balance of `account`; zero when it never received tokens.
    pub open spec fn balance(self, account: AccountId) -> u128 {
        self.balances.amount(account)
    }

    /// A movement of tokens is allowed when it burns them (the recipient is
    /// the zero sentinel) or when the caller is the developer or an admin.
    pub open spec fn can_send(self, caller: AccountId, to: AccountId) -> bool {
        to == AccountId::zero_spec() || self.roles.is_authorized_spec(caller)
    }

    /// How a successful movement of `value` from `from` towards `to` changes
    /// the ledger: `from` is debited; the burn sentinel retires the value
    /// from the supply, any other recipient is credited.
    pub open spec fn transfer_applied(
        pre: IshowspeedToken,
        post: IshowspeedToken,
        from: AccountId,
        to: AccountId,
        value: u128,
    ) -> bool {
        if to == AccountId::zero_spec() {
            &&& post.total_supply == pre.total_supply - value
            &&& forall|b: AccountId|
                post.balance(b) as int == pre.balance(b) - (if b == from {
                    value as int
                } else {
                    0
                })
        } else {
            &&& post.total_supply == pre.total_supply
            &&& forall|b: AccountId|
                post.balance(b) as int == pre.balance(b) + (if b == to {
                    value as int
                } else {
                    0
                }) - (if b == from {
                    value as int
                } else {
                    0
                })
        }
    }

    /// Creates a ledger. The caller becomes the developer and the sole
    /// initial admin, and is credited the whole initial supply.
    pub fn new(caller: AccountId, initial_supply: u128) -> (r: IshowspeedToken)
        ensures
            r.wf(),
            r.roles.developer == caller,
            r.roles.admin_set() == Set::empty().insert(caller),
            r.total_supply == initial_supply,
            forall|b: AccountId| r.balance(b) == (if b == caller {
                initial_supply
            } else {
                0u128
            }),
    {
        let roles = RoleAuthority::new(caller);
        let mut balances = AccountMap::new();
        balances.set(caller, initial_supply);
        IshowspeedToken { roles, total_supply: initial_supply, balances }
    }

    /// Returns the number of tokens in circulation.
    pub fn total_supply(&self) -> (r: u128)
        ensures
            r == self.total_supply,
    {
        self.total_supply
    }

    /// Returns the balance of `owner`; zero when it never received tokens.
    pub fn balance_of(&self, owner: AccountId) -> (r: u128)
        requires
            self.wf(),
        ensures
            r == self.balance(owner),
    {
        self.balances.get_or_zero(owner)
    }

    /// Returns the developer, the identity with maximal privilege.
    pub fn get_admin(&self) -> (r: AccountId)
        ensures
            r == self.roles.developer,
    {
        self.roles.developer
    }

    /// Whether `account` is the developer.
    pub fn is_developer(&self, account: AccountId) -> (r: bool)
        ensures
            r == (account == self.roles.developer),
    {
        self.roles.is_developer(account)
    }

    /// Whether `account` currently holds admin rights.
    pub fn is_admin(&self, account: AccountId) -> (r: bool)
        ensures
            r == self.roles.admin_set().contains(account),
    {
        self.roles.is_admin(account)
    }

    /// Grants admin rights to `account`. Only the developer may call this;
    /// granting rights an account already holds is a no-op success.
    pub fn add_admin(&mut self, caller: AccountId, account: AccountId) -> (r: Result<(), Error>)
        requires
            old(self).wf(),
        ensures
            final(self).wf(),
            final(self).total_supply == old(self).total_supply,
            final(self).balances == old(self).balances,
            final(self).roles.developer == old(self).roles.developer,
            caller != old(self).roles.developer ==> r == Err::<(), Error>(Error::NotAuthorized)
                && *final(self) == *old(self),
            caller == old(self).roles.developer ==> r == Ok::<(), Error>(())
                && final(self).roles.admin_set() == granted(
                old(self).roles.admin_set(),
                account,
            ),
    {
        if !self.roles.is_developer(caller) {
            return Err(Error::NotAuthorized);
        }
        self.roles.grant(account);
        Ok(())
    }

    /// Revokes admin rights from `account`. Only the developer may call
    /// this; revoking rights from a non-admin is a no-op success.
    pub fn remove_admin(&mut self, caller: AccountId, account: AccountId) -> (r: Result<(), Error>)
        requires
            old(self).wf(),
        ensures
            final(self).wf(),
            final(self).total_supply == old(self).total_supply,
            final(self).balances == old(self).balances,
            final(self).roles.developer == old(self).roles.developer,
            caller != old(self).roles.developer ==> r == Err::<(), Error>(Error::NotAuthorized)
                && *final(self) == *old(self),
            caller == old(self).roles.developer ==> r == Ok::<(), Error>(())
                && final(self).roles.admin_set() == revoked(
                old(self).roles.admin_set(),
                account,
            ),
    {
        if !self.roles.is_developer(caller) {
            return Err(Error::NotAuthorized);
        }
        self.roles.revoke(account);
        Ok(())
    }

    /// Moves `value` from the caller towards `to`. A transfer succeeds only
    /// when it burns (the recipient is the zero sentinel) or when the caller
    /// is the developer or an admin, and only when the caller's balance
    /// covers the value. A non-burn transfer leaves the total supply
    /// unchanged; a burn retires the value from it. No other account's
    /// balance moves.
    pub fn transfer(&mut self, caller: AccountId, to: AccountId, value: u128) -> (r: Result<
        Transfer,
        Error,
    >)
        requires
            old(self).wf(),
        ensures
            final(self).wf(),
            final(self).roles == old(self).roles,
            r is Ok <==> old(self).can_send(caller, to) && old(self).balance(caller) >= value,
            !old(self).can_send(caller, to) ==> r == Err::<Transfer, Error>(
                Error::TransferNotAllowed,
            ) && *final(self) == *old(self),
            old(self).can_send(caller, to) && old(self).balance(caller) < value ==> r == Err::<
                Transfer,
                Error,
            >(Error::InsufficientBalance) && *final(self) == *old(self),
            r is Ok ==> r == Ok::<Transfer, Error>(transfer_event(caller, to, value))
                && IshowspeedToken::transfer_applied(*old(self), *final(self), caller, to, value),
    {
        let burn = to == AccountId::zero();
        if !burn && !self.roles.is_authorized(caller) {
            return Err(Error::TransferNotAllowed);
        }
        self.transfer_from_to(caller, to, value)
    }

    /// Burns `value` from the caller's balance: the same as a transfer to
    /// the zero sentinel, which any caller may make.
    pub fn burn(&mut self, caller: AccountId, value: u128) -> (r: Result<Transfer, Error>)
        requires
            old(self).wf(),
        ensures
            final(self).wf(),
            final(self).roles == old(self).roles,
            r is Ok <==> old(self).balance(caller) >= value,
            old(self).balance(caller) < value ==> r == Err::<Transfer, Error>(
                Error::InsufficientBalance,
            ) && *final(self) == *old(self),
            r is Ok ==> r == Ok::<Transfer, Error>(
                transfer_event(caller, AccountId::zero_spec(), value),
            ) && IshowspeedToken::transfer_applied(
                *old(self),
                *final(self),
                caller,
                AccountId::zero_spec(),
                value,
            ),
    {
        let zero = AccountId::zero();
        self.transfer(caller, zero, value)
    }

    /// Burns `value` from `from`'s balance. The operation itself is
    /// privileged: the caller must be the developer or an admin.
    pub fn burn_from(&mut self, caller: AccountId, from: AccountId, value: u128) -> (r: Result<
        Transfer,
        Error,
    >)
        requires
            old(self).wf(),
        ensures
            final(self).wf(),
            final(self).roles == old(self).roles,
            r is Ok <==> old(self).roles.is_authorized_spec(caller) && old(self).balance(from)
                >= value,
            !old(self).roles.is_authorized_spec(caller) ==> r == Err::<Transfer, Error>(
                Error::NotAuthorized,
            ) && *final(self) == *old(self),
            old(self).roles.is_authorized_spec(caller) && old(self).balance(from) < value ==> r
                == Err::<Transfer, Error>(Error::InsufficientBalance)
                && *final(self) == *old(self),
            r is Ok ==> r == Ok::<Transfer, Error>(
                transfer_event(from, AccountId::zero_spec(), value),
            ) && IshowspeedToken::transfer_applied(
                *old(self),
                *final(self),
                from,
                AccountId::zero_spec(),
                value,
            ),
    {
        if !self.roles.is_authorized(caller) {
            return Err(Error::NotAuthorized);
        }
        let zero = AccountId::zero();
        self.transfer_from_to(from, zero, value)
    }

    /// Creates `value` new tokens for `to`. The caller must be the developer
    /// or an admin; an unauthorized mint fails and moves nothing. The supply
    /// and the recipient's balance grow together, with overflow detected
    /// before any state changes.
    pub fn mint(&mut self, caller: AccountId, to: AccountId, value: u128) -> (r: Result<
        Transfer,
        Error,
    >)
        requires
            old(self).wf(),
        ensures
            final(self).wf(),
            final(self).roles == old(self).roles,
            r is Ok <==> old(self).roles.is_authorized_spec(caller) && old(self).total_supply
                + value <= u128::MAX,
            !old(self).roles.is_authorized_spec(caller) ==> r == Err::<Transfer, Error>(
                Error::NotAuthorized,
            ) && *final(self) == *old(self),
            old(self).roles.is_authorized_spec(caller) && old(self).total_supply + value
                > u128::MAX ==> r == Err::<Transfer, Error>(Error::ArithmeticError)
                && *final(self) == *old(self),
            r is Ok ==> r == Ok::<Transfer, Error>(
                (Transfer { from: None, to: Some(to), value }),
            ) && final(self).total_supply == old(self).total_supply + value && (forall|
                b: AccountId,
            |
                final(self).balance(b) as int == old(self).balance(b) + (if b == to {
                    value as int
                } else {
                    0
                })),
    {
        if !self.roles.is_authorized(caller) {
            return Err(Error::NotAuthorized);
        }
        if value > u128::MAX - self.total_supply {
            return Err(Error::ArithmeticError);
        }
        proof {
            self.balances.lemma_amount_le_total(to);
        }
        let to_balance = self.balances.get_or_zero(to);
        self.balances.set(to, to_balance + value);
        self.total_supply = self.total_supply + value;
        Ok(Transfer { from: None, to: Some(to), value })
    }

    /// Moves `value` from `from` towards `to` with no authorization check:
    /// the callers gate access. Debits `from`; a movement towards the zero
    /// sentinel shrinks the supply, any other one credits `to`.
    fn transfer_from_to(&mut self, from: AccountId, to: AccountId, value: u128) -> (r: Result<
        Transfer,
        Error,
    >)
        requires
            old(self).wf(),
        ensures
            final(self).wf(),
            final(self).roles == old(self).roles,
            r is Ok <==> old(self).balance(from) >= value,
            old(self).balance(from) < value ==> r == Err::<Transfer, Error>(
                Error::InsufficientBalance,
            ) && *final(self) == *old(self),
            r is Ok ==> r == Ok::<Transfer, Error>(transfer_event(from, to, value))
                && IshowspeedToken::transfer_applied(*old(self), *final(self), from, to, value),
    {
        let from_balance = self.balances.get_or_zero(from);
        if from_balance < value {
            return Err(Error::InsufficientBalance);
        }
        proof {
            self.balances.lemma_amount_le_total(from);
        }
        if to == AccountId::zero() {
            self.balances.set(from, from_balance - value);
            self.total_supply = self.total_supply - value;
            Ok(Transfer { from: Some(from), to: None, value })
        } else {
            proof {
                if to != from {
                    self.balances.lemma_pair_le_total(from, to);
                }
            }
            self.balances.set(from, from_balance - value);
            let to_balance = self.balances.get_or_zero(to);
            self.balances.set(to, to_balance + value);
            Ok(Transfer { from: Some(from), to: Some(to), value })
        }
    }
}

} // verus!
