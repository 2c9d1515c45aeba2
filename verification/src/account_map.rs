use vstd::prelude::*;

use crate::account::AccountId;

verus! {

/// The amount stored for `account`, reading the entries from the last one
/// added towards the first: `None` when no entry exists.
pub open spec fn seq_lookup(s: Seq<(AccountId, u128)>, account: AccountId) -> Option<u128>
    decreases s.len(),
{
    if s.len() == 0 {
        None
    } else if s.last().0 == account {
        Some(s.last().1)
    } else {
        seq_lookup(s.drop_last(), account)
    }
}

/// The sum of all stored amounts, as an unbounded integer.
pub open spec fn seq_total(s: Seq<(AccountId, u128)>) -> int
    decreases s.len(),
{
    if s.len() == 0 {
        0
    } else {
        seq_total(s.drop_last()) + s.last().1
    }
}

/// No two entries carry the same account.
pub open spec fn keys_distinct(s: Seq<(AccountId, u128)>) -> bool {
    forall|i: int, j: int| 0 <= i < j < s.len() ==> s[i].0 != s[j].0
}

proof fn lemma_seq_total_nonneg(s: Seq<(AccountId, u128)>)
    ensures
        seq_total(s) >= 0,
    decreases s.len(),
{
    if s.len() > 0 {
        lemma_seq_total_nonneg(s.drop_last());
    }
}

/// An entry's amount never exceeds the total.
proof fn lemma_seq_lookup_le_total(s: Seq<(AccountId, u128)>, account: AccountId)
    ensures
        seq_lookup(s, account) matches Some(v) ==> v <= seq_total(s),
    decreases s.len(),
{
    if s.len() > 0 {
        lemma_seq_total_nonneg(s.drop_last());
        lemma_seq_lookup_le_total(s.drop_last(), account);
    }
}

/// Under distinct keys, the lookup of the account held at index `i` finds
/// exactly that entry.
proof fn lemma_seq_lookup_at_index(s: Seq<(AccountId, u128)>, i: int)
    requires
        keys_distinct(s),
        0 <= i < s.len(),
    ensures
        seq_lookup(s, s[i].0) == Some(s[i].1),
    decreases s.len(),
{
    if i < s.len() - 1 {
        assert(s.last().0 != s[i].0);
        assert(s.drop_last()[i] == s[i]);
        lemma_seq_lookup_at_index(s.drop_last(), i);
    }
}

/// An account held by no entry looks up to `None`.
proof fn lemma_seq_lookup_absent(s: Seq<(AccountId, u128)>, account: AccountId)
    requires
        forall|j: int| 0 <= j < s.len() ==> s[j].0 != account,
    ensures
        seq_lookup(s, account) == None::<u128>,
    decreases s.len(),
{
    if s.len() > 0 {
        lemma_seq_lookup_absent(s.drop_last(), account);
    }
}

/// Overwriting the amount at index `i` changes the lookup of that entry's
/// account alone.
proof fn lemma_seq_lookup_update(s: Seq<(AccountId, u128)>, i: int, v: u128, b: AccountId)
    requires
        keys_distinct(s),
        0 <= i < s.len(),
    ensures
        seq_lookup(s.update(i, (s[i].0, v)), b) == (if b == s[i].0 {
            Some(v)
        } else {
            seq_lookup(s, b)
        }),
    decreases s.len(),
{
    let u = s.update(i, (s[i].0, v));
    if i == s.len() - 1 {
        assert(u.last() == (s[i].0, v));
        assert(u.drop_last() =~= s.drop_last());
    } else {
        assert(u.last() == s.last());
        assert(s.last().0 != s[i].0);
        assert(u.drop_last() =~= s.drop_last().update(i, (s[i].0, v)));
        assert(s.drop_last()[i] == s[i]);
        lemma_seq_lookup_update(s.drop_last(), i, v, b);
    }
}

/// Overwriting the amount at index `i` moves the total by the difference.
proof fn lemma_seq_total_update(s: Seq<(AccountId, u128)>, i: int, v: u128)
    requires
        0 <= i < s.len(),
    ensures
        seq_total(s.update(i, (s[i].0, v))) == seq_total(s) - s[i].1 + v,
    decreases s.len(),
{
    let u = s.update(i, (s[i].0, v));
    if i == s.len() - 1 {
        assert(u.drop_last() =~= s.drop_last());
    } else {
        assert(u.last() == s.last());
        assert(u.drop_last() =~= s.drop_last().update(i, (s[i].0, v)));
        assert(s.drop_last()[i] == s[i]);
        lemma_seq_total_update(s.drop_last(), i, v);
    }
}

/// A finite map from accounts to amounts, stored as a vector of entries with
/// distinct keys. Absence of an entry is observable, so a missing account can
/// carry whichever default its reader chooses.
pub struct AccountMap {
    pub entries: Vec<(AccountId, u128)>,
}

impl AccountMap {
    /// The amount stored for `account`, `None` when no entry exists.
    pub open spec fn lookup(self, account: AccountId) -> Option<u128> {
        seq_lookup(self.entries@, account)
    }

    /// The amount stored for `account`, zero when no entry exists.
    pub open spec fn amount(self, account: AccountId) -> u128 {
        match self.lookup(account) {
            Some(v) => v,
            None => 0,
        }
    }

    /// The sum of all stored amounts.
    pub open spec fn total(self) -> int {
        seq_total(self.entries@)
    }

    pub open spec fn wf(self) -> bool {
        keys_distinct(self.entries@)
    }

    /// Creates an empty map.
    pub fn new() -> (r: AccountMap)
        ensures
            r.wf(),
            forall|b: AccountId| r.lookup(b) == None::<u128>,
            r.total() == 0,
    {
        let r = AccountMap { entries: Vec::new() };
        proof {
            assert(forall|b: AccountId| r.lookup(b) == None::<u128>);
        }
        r
    }

    /// The index of the entry holding `account`, if one exists.
    fn index_of(&self, account: AccountId) -> (r: Option<usize>)
        ensures
            match r {
                Some(i) => i < self.entries@.len() && self.entries@[i as int].0 == account,
                None => forall|j: int| 0 <= j < self.entries@.len() ==> self.entries@[j].0 != account,
            },
    {
        let mut i: usize = 0;
        while i < self.entries.len()
            invariant
                i <= self.entries.len(),
                forall|j: int| 0 <= j < i ==> self.entries@[j].0 != account,
            decreases self.entries.len() - i,
        {
            if self.entries[i].0 == account {
                return Some(i);
            }
            i += 1;
        }
        None
    }

    /// Returns the amount stored for `account`, `None` when no entry exists.
    pub fn get(&self, account: AccountId) -> (r: Option<u128>)
        requires
            self.wf(),
        ensures
            r == self.lookup(account),
    {
        match self.index_of(account) {
            Some(i) => {
                proof {
                    lemma_seq_lookup_at_index(self.entries@, i as int);
                }
                Some(self.entries[i].1)
            },
            None => {
                proof {
                    lemma_seq_lookup_absent(self.entries@, account);
                }
                None
            },
        }
    }

    /// Returns the amount stored for `account`, zero when no entry exists.
    pub fn get_or_zero(&self, account: AccountId) -> (r: u128)
        requires
            self.wf(),
        ensures
            r == self.amount(account),
    {
        match self.get(account) {
            Some(v) => v,
            None => 0,
        }
    }

    /// Stores `value` for `account`, replacing any earlier amount.
    pub fn set(&mut self, account: AccountId, value: u128)
        requires
            old(self).wf(),
        ensures
            final(self).wf(),
            forall|b: AccountId| final(self).lookup(b) == (if b == account {
                Some(value)
            } else {
                old(self).lookup(b)
            }),
            final(self).total() == old(self).total() - old(self).amount(account) + value,
    {
        match self.index_of(account) {
            Some(i) => {
                proof {
                    lemma_seq_lookup_at_index(self.entries@, i as int);
                }
                self.entries[i] = (account, value);
                proof {
                    assert(old(self).entries@[i as int].0 == account);
                    assert(self.entries@ == old(self).entries@.update(
                        i as int,
                        (account, value),
                    ));
                    assert(self.wf());
                    assert(forall|b: AccountId|
                        final(self).lookup(b) == (if b == account {
                            Some(value)
                        } else {
                            old(self).lookup(b)
                        })) by {
                        assert forall|b: AccountId| true implies self.lookup(b) == (if b
                            == account {
                            Some(value)
                        } else {
                            old(self).lookup(b)
                        }) by {
                            lemma_seq_lookup_update(old(self).entries@, i as int, value, b);
                        }
                    }
                    lemma_seq_total_update(old(self).entries@, i as int, value);
                }
            },
            None => {
                self.entries.push((account, value));
                proof {
                    lemma_seq_lookup_absent(old(self).entries@, account);
                    assert(self.entries@.drop_last() =~= old(self).entries@);
                    assert(self.entries@.last() == (account, value));
                    assert(self.wf()) by {
                        assert(forall|j: int|
                            0 <= j < old(self).entries@.len() ==> self.entries@[j]
                                == old(self).entries@[j]);
                    }
                    assert(forall|b: AccountId|
                        b != account ==> self.lookup(b) == old(self).lookup(b));
                    assert(self.lookup(account) == Some(value));
                }
            },
        }
    }

    /// An account's amount never exceeds the total.
    pub proof fn lemma_amount_le_total(self, account: AccountId)
        ensures
            self.amount(account) <= self.total(),
            self.total() >= 0,
    {
        lemma_seq_lookup_le_total(self.entries@, account);
        lemma_seq_total_nonneg(self.entries@);
    }

    /// Two different accounts together never hold more than the total.
    pub proof fn lemma_pair_le_total(self, a: AccountId, b: AccountId)
        requires
            self.wf(),
            a != b,
        ensures
            self.amount(a) + self.amount(b) <= self.total(),
    {
        lemma_seq_pair_le_total(self.entries@, a, b);
    }
}

/// Under distinct keys, two different accounts together never hold more than
/// the total.
proof fn lemma_seq_pair_le_total(s: Seq<(AccountId, u128)>, a: AccountId, b: AccountId)
    requires
        keys_distinct(s),
        a != b,
    ensures
        seq_amount(s, a) + seq_amount(s, b) <= seq_total(s),
    decreases s.len(),
{
    if s.len() == 0 {
    } else {
        let t = s.drop_last();
        assert(keys_distinct(t)) by {
            assert(forall|i: int, j: int| 0 <= i < j < t.len() ==> t[i] == s[i] && t[j] == s[j]);
        }
        if s.last().0 == a {
            lemma_seq_lookup_le_total(t, b);
            lemma_seq_total_nonneg(t);
        } else if s.last().0 == b {
            lemma_seq_lookup_le_total(t, a);
            lemma_seq_total_nonneg(t);
        } else {
            lemma_seq_pair_le_total(t, a, b);
        }
    }
}

/// The amount an entry sequence stores for `account`, zero when absent.
pub open spec fn seq_amount(s: Seq<(AccountId, u128)>, account: AccountId) -> u128 {
    match seq_lookup(s, account) {
        Some(v) => v,
        None => 0,
    }
}

} // verus!
