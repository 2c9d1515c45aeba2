use vstd::prelude::*;

use crate::account::AccountId;
use crate::account_map::AccountMap;
use crate::roles::{granted, revoked, RoleAuthority};

verus! {

/// Errors of the minting controller.
#[derive(Clone, Copy, Debug, PartialEq, Eq, Structural)]
pub enum Error {
    /// The caller lacks the role the operation demands.
    NotAuthorized,
    /// The delegated mint was refused; nothing changed.
    MintingFailed,
    /// The mint would push the cumulative minted amount over the caller's
    /// limit.
    MintingLimitExceeded,
}

/// The event a successful mint returns.
#[derive(Debug, PartialEq, Eq)]
pub struct TokensMinted {
    pub to: AccountId,
    pub by: AccountId,
    pub amount: u128,
}

/// The event a successful limit update returns.
#[derive(Debug, PartialEq, Eq)]
pub struct MintingLimitSet {
    pub for_account: AccountId,
    pub by: AccountId,
    pub limit: u128,
}

/// The mint capability the controller delegates to, injected by the host:
/// in deployment the token ledger reached over a cross-contract call, under
/// test any substitute, including one that refuses every request.
///
/// Nothing is assumed of a backend: the controller states what holds of its
/// own state whatever the backend answers, and commits its bookkeeping only
/// after the backend accepted.
pub trait MintBackend {
    /// Requests `amount` new tokens for `to`; answers whether the backend
    /// performed the mint.
    fn mint_to(&mut self, to: AccountId, amount: u128) -> bool;
}

/// A quota layer in front of a mint capability: tracks the cumulative amount
/// minted through it and per-account issuance caps, and refuses requests
/// that would push the cumulative amount over the calling admin's cap.
pub struct Minting {
    /// The developer that constructed the controller, and its admins.
    pub roles: RoleAuthority,
    /// The cumulative amount minted through this controller.
    pub total_minted: u128,
    /// Per-account issuance caps. An absent cap leaves an account unlimited
    /// when it mints, although the read accessor reports it as zero.
    pub minting_limits: AccountMap,
}

impl Minting {
    pub open spec fn wf(self) -> bool {
        &&& self.roles.wf()
        &&& self.minting_limits.wf()
    }

    /// The cap that gates `caller`'s minting: an account without a
    /// configured cap is unlimited.
    pub open spec fn effective_limit(self, caller: AccountId) -> int {
        match self.minting_limits.lookup(caller) {
            Some(l) => l as int,
            None => u128::MAX as int,
        }
    }

    /// Whether minting `amount` more keeps the cumulative total within
    /// `caller`'s cap.
    pub open spec fn within_limit(self, caller: AccountId, amount: u128) -> bool {
        self.total_minted + amount <= self.effective_limit(caller)
    }

    /// Creates a controller. The caller becomes the developer and the sole
    /// initial admin; nothing has been minted and no caps are set.
    pub fn new(caller: AccountId) -> (r: Minting)
        ensures
            r.wf(),
            r.roles.developer == caller,
            r.roles.admin_set() == Set::empty().insert(caller),
            r.total_minted == 0,
            forall|b: AccountId| r.minting_limits.lookup(b) == None::<u128>,
    {
        Minting { roles: RoleAuthority::new(caller), total_minted: 0, minting_limits: AccountMap::new() }
    }

    /// Grants admin rights to `account`. Only the developer may call this;
    /// granting rights an account already holds is a no-op success.
    pub fn add_admin(&mut self, caller: AccountId, account: AccountId) -> (r: Result<(), Error>)
        requires
            old(self).wf(),
        ensures
            final(self).wf(),
            final(self).total_minted == old(self).total_minted,
            final(self).minting_limits == old(self).minting_limits,
            final(self).roles.developer == old(self).roles.developer,
            caller != old(self).roles.developer ==> r == Err::<(), Error>(Error::NotAuthorized)
                && *final(self) == *old(self),
            caller == old(self).roles.developer ==> r == Ok::<(), Error>(())
                && final(self).roles.admin_set() == granted(
                old(self).roles.admin_set(),
                account,
            ),
    {
        if !self.roles.is_developer(caller) {
            return Err(Error::NotAuthorized);
        }
        self.roles.grant(account);
        Ok(())
    }

    /// Revokes admin rights from `account`. Only the developer may call
    /// this; revoking rights from a non-admin is a no-op success.
    pub fn remove_admin(&mut self, caller: AccountId, account: AccountId) -> (r: Result<(), Error>)
        requires
            old(self).wf(),
        ensures
            final(self).wf(),
            final(self).total_minted == old(self).total_minted,
            final(self).minting_limits == old(self).minting_limits,
            final(self).roles.developer == old(self).roles.developer,
            caller != old(self).roles.developer ==> r == Err::<(), Error>(Error::NotAuthorized)
                && *final(self) == *old(self),
            caller == old(self).roles.developer ==> r == Ok::<(), Error>(())
                && final(self).roles.admin_set() == revoked(
                old(self).roles.admin_set(),
                account,
            ),
    {
        if !self.roles.is_developer(caller) {
            return Err(Error::NotAuthorized);
        }
        self.roles.revoke(account);
        Ok(())
    }

    /// Sets `account`'s issuance cap to `limit`. The caller must be the
    /// developer or an admin.
    pub fn set_minting_limit(&mut self, caller: AccountId, account: AccountId, limit: u128) -> (r:
        Result<MintingLimitSet, Error>)
        requires
            old(self).wf(),
        ensures
            final(self).wf(),
            final(self).roles == old(self).roles,
            final(self).total_minted == old(self).total_minted,
            !old(self).roles.is_authorized_spec(caller) ==> r == Err::<MintingLimitSet, Error>(
                Error::NotAuthorized,
            ) && *final(self) == *old(self),
            old(self).roles.is_authorized_spec(caller) ==> r == Ok::<MintingLimitSet, Error>(
                (MintingLimitSet { for_account: account, by: caller, limit }),
            ) && (forall|b: AccountId|
                final(self).minting_limits.lookup(b) == (if b == account {
                    Some(limit)
                } else {
                    old(self).minting_limits.lookup(b)
                })),
    {
        if !self.roles.is_authorized(caller) {
            return Err(Error::NotAuthorized);
        }
        self.minting_limits.set(account, limit);
        Ok(MintingLimitSet { for_account: account, by: caller, limit })
    }

    /// Returns `account`'s configured issuance cap, zero when none is set.
    ///
    /// The two defaults differ deliberately, as in the contract this models:
    /// this read accessor reports a missing cap as zero, while the check in
    /// [`Minting::mint`] treats the same account as unlimited.
    pub fn get_minting_limit(&self, account: AccountId) -> (r: u128)
        requires
            self.wf(),
        ensures
            r == self.minting_limits.amount(account),
    {
        self.minting_limits.get_or_zero(account)
    }

    /// Mints `amount` new tokens for `to` through `backend`. The caller must
    /// be the developer or an admin; the cumulative minted total plus
    /// `amount` must stay within the caller's cap, detected before any
    /// arithmetic can overflow. Only when the backend accepts is the
    /// cumulative total raised; every failure leaves the controller exactly
    /// as it was. The controller stays exclusively borrowed across the
    /// delegated call, so no re-entry can observe a partial state.
    pub fn mint<B: MintBackend>(
        &mut self,
        caller: AccountId,
        backend: &mut B,
        to: AccountId,
        amount: u128,
    ) -> (r: Result<TokensMinted, Error>)
        requires
            old(self).wf(),
        ensures
            final(self).wf(),
            final(self).roles == old(self).roles,
            final(self).minting_limits == old(self).minting_limits,
            !old(self).roles.is_authorized_spec(caller) ==> r == Err::<TokensMinted, Error>(
                Error::NotAuthorized,
            ) && *final(self) == *old(self),
            old(self).roles.is_authorized_spec(caller) && !old(self).within_limit(caller, amount)
                ==> r == Err::<TokensMinted, Error>(Error::MintingLimitExceeded)
                && *final(self) == *old(self),
            old(self).roles.is_authorized_spec(caller) && old(self).within_limit(caller, amount)
                ==> r == Ok::<TokensMinted, Error>((TokensMinted { to, by: caller, amount }))
                && final(self).total_minted == old(self).total_minted + amount || r == Err::<
                TokensMinted,
                Error,
            >(Error::MintingFailed) && *final(self) == *old(self),
            r is Ok ==> old(self).roles.is_authorized_spec(caller) && old(self).within_limit(
                caller,
                amount,
            ) && final(self).total_minted == old(self).total_minted + amount,
    {
        if !self.roles.is_authorized(caller) {
            return Err(Error::NotAuthorized);
        }
        let limit = match self.minting_limits.get(caller) {
            Some(l) => l,
            None => u128::MAX,
        };
        if self.total_minted > limit || amount > limit - self.total_minted {
            return Err(Error::MintingLimitExceeded);
        }
        if !backend.mint_to(to, amount) {
            return Err(Error::MintingFailed);
        }
        self.total_minted = self.total_minted + amount;
        Ok(TokensMinted { to, by: caller, amount })
    }

    /// Returns the cumulative amount minted through this controller.
    pub fn total_minted(&self) -> (r: u128)
        ensures
            r == self.total_minted,
    {
        self.total_minted
    }

    /// Whether `account` is the developer.
    pub fn is_developer(&self, account: AccountId) -> (r: bool)
        ensures
            r == (account == self.roles.developer),
    {
        self.roles.is_developer(account)
    }

    /// Whether `account` currently holds admin rights.
    pub fn is_admin(&self, account: AccountId) -> (r: bool)
        ensures
            r == self.roles.admin_set().contains(account),
    {
        self.roles.is_admin(account)
    }
}

} // verus!
