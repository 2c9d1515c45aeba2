use vstd::prelude::*;

use crate::account::AccountId;

verus! {

/// The effect of granting admin rights on the admin set.
pub open spec fn granted(admins: Set<AccountId>, account: AccountId) -> Set<AccountId> {
    admins.insert(account)
}

/// The effect of revoking admin rights on the admin set.
pub open spec fn revoked(admins: Set<AccountId>, account: AccountId) -> Set<AccountId> {
    admins.remove(account)
}

/// Granting admin rights twice has the same effect on the admin set as
/// granting them once.
pub proof fn lemma_grant_idempotent(admins: Set<AccountId>, account: AccountId)
    ensures
        granted(granted(admins, account), account) == granted(admins, account),
{
    assert(granted(granted(admins, account), account) =~= granted(admins, account));
}

/// Revoking an account that holds no admin rights leaves the admin set
/// unchanged.
pub proof fn lemma_revoke_absent(admins: Set<AccountId>, account: AccountId)
    requires
        !admins.contains(account),
    ensures
        revoked(admins, account) == admins,
{
    assert(revoked(admins, account) =~= admins);
}

/// Role state: a fixed developer identity and a mutable set of admins.
///
/// Every component owns a private copy of this state; no role state is shared
/// between components.
pub struct RoleAuthority {
    /// The identity that created the component, fixed for its lifetime.
    pub developer: AccountId,
    /// The accounts currently holding admin rights.
    pub admins: Vec<AccountId>,
}

impl RoleAuthority {
    /// The admin set. The order in which rights were granted does not matter.
    pub open spec fn admin_set(self) -> Set<AccountId> {
        Set::new(|a: AccountId| self.admins@.contains(a))
    }

    pub open spec fn wf(self) -> bool {
        self.admins@.no_duplicates()
    }

    /// An account is authorized when it is the developer or holds admin
    /// rights.
    pub open spec fn is_authorized_spec(self, account: AccountId) -> bool {
        account == self.developer || self.admin_set().contains(account)
    }

    /// Creates the role state of a freshly constructed component: `developer`
    /// is fixed and starts as the sole admin.
    pub fn new(developer: AccountId) -> (r: RoleAuthority)
        ensures
            r.wf(),
            r.developer == developer,
            r.admin_set() == Set::empty().insert(developer),
    {
        let mut admins: Vec<AccountId> = Vec::new();
        admins.push(developer);
        let r = RoleAuthority { developer, admins };
        proof {
            assert(r.admins@ =~= seq![developer]);
            assert(r.admin_set() =~= Set::empty().insert(developer)) by {
                assert(forall|a: AccountId|
                    r.admins@.contains(a) <==> a == developer) by {
                    assert(r.admins@[0] == developer);
                }
            }
        }
        r
    }

    /// Whether `account` is the developer.
    pub fn is_developer(&self, account: AccountId) -> (r: bool)
        ensures
            r == (account == self.developer),
    {
        account == self.developer
    }

    /// Whether `account` currently holds admin rights.
    pub fn is_admin(&self, account: AccountId) -> (r: bool)
        ensures
            r == self.admin_set().contains(account),
    {
        let mut i: usize = 0;
        while i < self.admins.len()
            invariant
                i <= self.admins.len(),
                forall|j: int| 0 <= j < i ==> self.admins@[j] != account,
            decreases self.admins.len() - i,
        {
            if self.admins[i] == account {
                assert(self.admins@.contains(account));
                return true;
            }
            i += 1;
        }
        assert(!self.admins@.contains(account));
        false
    }

    /// Whether `account` is the developer or an admin.
    pub fn is_authorized(&self, account: AccountId) -> (r: bool)
        ensures
            r == self.is_authorized_spec(account),
    {
        self.is_developer(account) || self.is_admin(account)
    }

    /// Grants admin rights to `account`. Granting rights an account already
    /// holds changes nothing.
    pub fn grant(&mut self, account: AccountId)
        requires
            old(self).wf(),
        ensures
            final(self).wf(),
            final(self).developer == old(self).developer,
            final(self).admin_set() == granted(old(self).admin_set(), account),
    {
        if !self.is_admin(account) {
            self.admins.push(account);
            proof {
                assert(self.admins@.drop_last() =~= old(self).admins@);
                assert(self.admins@.last() == account);
                assert(self.admins@.no_duplicates()) by {
                    assert(forall|j: int|
                        0 <= j < old(self).admins@.len() ==> self.admins@[j]
                            == old(self).admins@[j]);
                }
                assert(self.admin_set() =~= granted(old(self).admin_set(), account)) by {
                    assert(forall|a: AccountId|
                        self.admins@.contains(a) <==> (old(self).admins@.contains(a) || a
                            == account)) by {
                        assert(forall|a: AccountId|
                            old(self).admins@.contains(a) ==> self.admins@.contains(a)) by {
                            assert(forall|j: int|
                                0 <= j < old(self).admins@.len() ==> self.admins@[j]
                                    == old(self).admins@[j]);
                        }
                        assert(self.admins@[self.admins@.len() - 1] == account);
                        assert(forall|a: AccountId|
                            self.admins@.contains(a) && a != account
                                ==> old(self).admins@.contains(a)) by {
                            assert(forall|j: int|
                                0 <= j < self.admins@.len() && self.admins@[j] != account
                                    ==> 0 <= j < old(self).admins@.len()
                                        && old(self).admins@[j] == self.admins@[j]);
                        }
                    }
                }
            }
        } else {
            proof {
                assert(self.admin_set() =~= granted(self.admin_set(), account));
            }
        }
    }

    /// Revokes admin rights from `account`. Revoking rights an account does
    /// not hold changes nothing.
    pub fn revoke(&mut self, account: AccountId)
        requires
            old(self).wf(),
        ensures
            final(self).wf(),
            final(self).developer == old(self).developer,
            final(self).admin_set() == revoked(old(self).admin_set(), account),
    {
        let mut i: usize = 0;
        while i < self.admins.len()
            invariant
                *self == *old(self),
                old(self).wf(),
                i <= self.admins.len(),
                forall|j: int| 0 <= j < i ==> self.admins@[j] != account,
            decreases self.admins.len() - i,
        {
            if self.admins[i] == account {
                self.admins.remove(i);
                proof {
                    lemma_seq_remove_effect(old(self).admins@, i as int, account);
                    assert(self.admin_set() =~= revoked(old(self).admin_set(), account));
                }
                return;
            }
            i += 1;
        }
        proof {
            assert(!self.admins@.contains(account));
            assert(self.admin_set() =~= revoked(old(self).admin_set(), account));
        }
    }
}

/// Removing the one occurrence of `account` at index `i` from a
/// duplicate-free sequence removes exactly that account from the sequence's
/// members.
proof fn lemma_seq_remove_effect(s: Seq<AccountId>, i: int, account: AccountId)
    requires
        s.no_duplicates(),
        0 <= i < s.len(),
        s[i] == account,
        forall|j: int| 0 <= j < i ==> s[j] != account,
    ensures
        s.remove(i).no_duplicates(),
        forall|a: AccountId| #[trigger] s.remove(i).contains(a) <==> (s.contains(a) && a != account),
{
    let t = s.remove(i);
    assert(forall|j: int| 0 <= j < i ==> t[j] == s[j]);
    assert(forall|j: int| i <= j < t.len() ==> t[j] == s[j + 1]);
    assert(t.no_duplicates());
    assert forall|a: AccountId| #[trigger] t.contains(a) implies (s.contains(a) && a != account) by {
        let j = choose|j: int| 0 <= j < t.len() && t[j] == a;
        if j < i {
            assert(s[j] == a);
        } else {
            assert(s[j + 1] == a);
            assert(j + 1 != i);
            assert(a != account) by {
                if a == account {
                    assert(s[j + 1] == s[i]);
                }
            }
        }
    }
    assert forall|a: AccountId| s.contains(a) && a != account implies #[trigger] t.contains(a) by {
        let j = choose|j: int| 0 <= j < s.len() && s[j] == a;
        if j < i {
            assert(t[j] == a);
        } else {
            assert(j != i);
            assert(t[j - 1] == a);
        }
    }
}

} // verus!
