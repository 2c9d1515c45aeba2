use vstd::prelude::*;

use crate::account::AccountId;
use crate::roles::{granted, revoked, RoleAuthority};

verus! {

/// Errors of the poll registry.
#[derive(Clone, Copy, Debug, PartialEq, Eq, Structural)]
pub enum Error {
    /// The caller lacks the role the operation demands.
    NotAuthorized,
    /// No poll carries the given id.
    PollNotFound,
    /// The poll has been closed, or its end time has passed.
    PollNotActive,
    /// The option index lies outside the poll's option list.
    InvalidOptionIndex,
    /// The caller already voted on this poll.
    AlreadyVoted,
    /// A poll needs between one and ten options.
    InvalidPollOptions,
}

/// The event a successful poll creation returns.
#[derive(Debug, PartialEq, Eq)]
pub struct PollCreated {
    pub poll_id: u32,
    pub creator: AccountId,
    pub description: String,
}

/// The event a successful vote returns.
#[derive(Debug, PartialEq, Eq, Structural)]
pub struct VoteCast {
    pub poll_id: u32,
    pub voter: AccountId,
    pub option_index: u32,
}

/// The event closing a poll returns, carrying the final tally.
#[derive(Debug, PartialEq, Eq)]
pub struct PollEnded {
    pub poll_id: u32,
    pub results: Vec<u32>,
}

/// A multiple-choice poll with a running tally, optionally time-bounded.
#[derive(Debug)]
pub struct Poll {
    /// The account that created the poll.
    pub creator: AccountId,
    /// The question put to the vote.
    pub description: String,
    /// The options that can be voted on; between one and ten.
    pub options: Vec<String>,
    /// One counter per option.
    pub votes: Vec<u32>,
    /// Whether the poll still accepts votes.
    pub active: bool,
    /// The block time at which the poll was created.
    pub created_at: u64,
    /// The block time after which the poll no longer accepts votes, if any.
    pub end_time: Option<u64>,
}

impl Poll {
    /// One counter per option, and between one and ten options.
    pub open spec fn wf(self) -> bool {
        &&& self.votes@.len() == self.options@.len()
        &&& 1 <= self.options@.len() <= 10
    }

    /// Whether the poll's end time, if one is set, lies before `now`.
    pub open spec fn expired(self, now: u64) -> bool {
        match self.end_time {
            Some(e) => now > e,
            None => false,
        }
    }

    /// `post` is `pre` closed: the same poll, no longer accepting votes.
    pub open spec fn deactivated(pre: Poll, post: Poll) -> bool {
        &&& post.creator == pre.creator
        &&& post.description == pre.description
        &&& post.options == pre.options
        &&& post.votes == pre.votes
        &&& post.active == false
        &&& post.created_at == pre.created_at
        &&& post.end_time == pre.end_time
    }

    /// `post` is `pre` with one more vote counted for option `i`.
    pub open spec fn vote_counted(pre: Poll, post: Poll, i: int) -> bool {
        &&& post.creator == pre.creator
        &&& post.description == pre.description
        &&& post.options == pre.options
        &&& post.votes@ == pre.votes@.update(i, (pre.votes@[i] + 1) as u32)
        &&& post.active == pre.active
        &&& post.created_at == pre.created_at
        &&& post.end_time == pre.end_time
    }
}

/// A registry of polls gated by the role system: the developer and admins
/// create polls, anyone votes at most once per poll, and a poll stops
/// accepting votes when closed or past its end time.
pub struct Governance {
    /// The developer that constructed the registry, and its admins.
    pub roles: RoleAuthority,
    /// All polls ever created; the poll with id `i` sits at index `i - 1`.
    /// Polls are never deleted, only closed.
    pub polls: Vec<Poll>,
    /// The id the next poll will get. Starts at one and never reuses an id.
    pub next_poll_id: u32,
    /// The (voter, poll id) pairs that have already voted.
    pub voted: Vec<(AccountId, u32)>,
}

impl Governance {
    pub open spec fn wf(self) -> bool {
        &&& self.roles.wf()
        &&& self.next_poll_id as int == self.polls@.len() + 1
        &&& forall|i: int| 0 <= i < self.polls@.len() ==> (#[trigger] self.polls@[i]).wf()
    }

    /// Whether a poll carries the id `poll_id`.
    pub open spec fn has_poll(self, poll_id: u32) -> bool {
        1 <= poll_id && poll_id as int <= self.polls@.len()
    }

    /// The poll with id `poll_id`.
    pub open spec fn poll_spec(self, poll_id: u32) -> Poll {
        self.polls@[poll_id - 1]
    }

    /// Whether `voter` already voted on poll `poll_id`.
    pub open spec fn has_voted_spec(self, voter: AccountId, poll_id: u32) -> bool {
        self.voted@.contains((voter, poll_id))
    }

    /// Whether poll `poll_id` exists, is open, and is not past its end time
    /// at `now`: the state in which a vote can be counted.
    pub open spec fn live(self, poll_id: u32, now: u64) -> bool {
        &&& self.has_poll(poll_id)
        &&& self.poll_spec(poll_id).active
        &&& !self.poll_spec(poll_id).expired(now)
    }

    /// The counter a vote would raise is not yet saturated. A machine limit:
    /// a tally is a 32-bit counter.
    pub open spec fn tally_has_room(self, poll_id: u32, option_index: u32) -> bool {
        self.has_poll(poll_id) && (option_index as int) < self.poll_spec(poll_id).votes@.len()
            ==> self.poll_spec(poll_id).votes@[option_index as int] < u32::MAX
    }

    /// Creates a registry with no polls. The caller becomes the developer
    /// and the sole initial admin.
    pub fn new(caller: AccountId) -> (r: Governance)
        ensures
            r.wf(),
            r.roles.developer == caller,
            r.roles.admin_set() == Set::empty().insert(caller),
            r.polls@.len() == 0,
            r.next_poll_id == 1,
            r.voted@.len() == 0,
    {
        Governance {
            roles: RoleAuthority::new(caller),
            polls: Vec::new(),
            next_poll_id: 1,
            voted: Vec::new(),
        }
    }

    /// Grants admin rights to `account`. Only the developer may call this;
    /// granting rights an account already holds is a no-op success.
    pub fn add_admin(&mut self, caller: AccountId, account: AccountId) -> (r: Result<(), Error>)
        requires
            old(self).wf(),
        ensures
            final(self).wf(),
            final(self).polls == old(self).polls,
            final(self).next_poll_id == old(self).next_poll_id,
            final(self).voted == old(self).voted,
            final(self).roles.developer == old(self).roles.developer,
            caller != old(self).roles.developer ==> r == Err::<(), Error>(Error::NotAuthorized)
                && *final(self) == *old(self),
            caller == old(self).roles.developer ==> r == Ok::<(), Error>(())
                && final(self).roles.admin_set() == granted(
                old(self).roles.admin_set(),
                account,
            ),
    {
        if !self.roles.is_developer(caller) {
            return Err(Error::NotAuthorized);
        }
        self.roles.grant(account);
        Ok(())
    }

    /// Revokes admin rights from `account`. Only the developer may call
    /// this; revoking rights from a non-admin is a no-op success.
    pub fn remove_admin(&mut self, caller: AccountId, account: AccountId) -> (r: Result<(), Error>)
        requires
            old(self).wf(),
        ensures
            final(self).wf(),
            final(self).polls == old(self).polls,
            final(self).next_poll_id == old(self).next_poll_id,
            final(self).voted == old(self).voted,
            final(self).roles.developer == old(self).roles.developer,
            caller != old(self).roles.developer ==> r == Err::<(), Error>(Error::NotAuthorized)
                && *final(self) == *old(self),
            caller == old(self).roles.developer ==> r == Ok::<(), Error>(())
                && final(self).roles.admin_set() == revoked(
                old(self).roles.admin_set(),
                account,
            ),
    {
        if !self.roles.is_developer(caller) {
            return Err(Error::NotAuthorized);
        }
        self.roles.revoke(account);
        Ok(())
    }

    /// Creates a poll with the given question, options and optional end
    /// time. The caller must be the developer or an admin, and the option
    /// list must hold between one and ten entries; a rejected request does
    /// not advance the poll id counter.
    pub fn create_poll(
        &mut self,
        caller: AccountId,
        now: u64,
        description: String,
        options: Vec<String>,
        end_time: Option<u64>,
    ) -> (r: Result<PollCreated, Error>)
        requires
            old(self).wf(),
            old(self).polls@.len() + 1 < u32::MAX,
        ensures
            final(self).wf(),
            final(self).roles == old(self).roles,
            final(self).voted == old(self).voted,
            !old(self).roles.is_authorized_spec(caller) ==> r == Err::<PollCreated, Error>(
                Error::NotAuthorized,
            ) && *final(self) == *old(self),
            old(self).roles.is_authorized_spec(caller) && !(1 <= options@.len() <= 10) ==> r
                == Err::<PollCreated, Error>(Error::InvalidPollOptions)
                && *final(self) == *old(self),
            old(self).roles.is_authorized_spec(caller) && 1 <= options@.len() <= 10 ==> {
                &&& r == Ok::<PollCreated, Error>(
                    (PollCreated { poll_id: old(self).next_poll_id, creator: caller, description }),
                )
                &&& final(self).next_poll_id == old(self).next_poll_id + 1
                &&& final(self).polls@.len() == old(self).polls@.len() + 1
                &&& forall|i: int|
                    0 <= i < old(self).polls@.len() ==> final(self).polls@[i] == old(
                        self,
                    ).polls@[i]
                &&& final(self).polls@.last().creator == caller
                &&& final(self).polls@.last().description == description
                &&& final(self).polls@.last().options == options
                &&& final(self).polls@.last().votes@ == Seq::new(
                    options@.len(),
                    |i: int| 0u32,
                )
                &&& final(self).polls@.last().active == true
                &&& final(self).polls@.last().created_at == now
                &&& final(self).polls@.last().end_time == end_time
            },
    {
        if !self.roles.is_authorized(caller) {
            return Err(Error::NotAuthorized);
        }
        if options.len() == 0 || options.len() > 10 {
            return Err(Error::InvalidPollOptions);
        }
        let poll_id = self.next_poll_id;
        let mut votes: Vec<u32> = Vec::new();
        while votes.len() < options.len()
            invariant
                votes@.len() <= options@.len(),
                forall|i: int| 0 <= i < votes@.len() ==> votes@[i] == 0u32,
            decreases options@.len() - votes@.len(),
        {
            votes.push(0);
        }
        proof {
            assert(votes@ =~= Seq::new(options@.len(), |i: int| 0u32));
        }
        let event = PollCreated { poll_id, creator: caller, description: description.clone() };
        let poll = Poll {
            creator: caller,
            description,
            options,
            votes,
            active: true,
            created_at: now,
            end_time,
        };
        self.polls.push(poll);
        self.next_poll_id = self.next_poll_id + 1;
        Ok(event)
    }

    /// Returns the poll with id `poll_id`, if one exists.
    pub fn get_poll(&self, poll_id: u32) -> (r: Option<&Poll>)
        ensures
            match r {
                Some(p) => self.has_poll(poll_id) && *p == self.poll_spec(poll_id),
                None => !self.has_poll(poll_id),
            },
    {
        if 1 <= poll_id && (poll_id as usize) <= self.polls.len() {
            Some(&self.polls[(poll_id - 1) as usize])
        } else {
            None
        }
    }

    /// Whether `voter` already voted on poll `poll_id`.
    pub fn has_voted(&self, voter: AccountId, poll_id: u32) -> (r: bool)
        ensures
            r == self.has_voted_spec(voter, poll_id),
    {
        let mut i: usize = 0;
        while i < self.voted.len()
            invariant
                i <= self.voted.len(),
                forall|j: int| 0 <= j < i ==> self.voted@[j] != (voter, poll_id),
            decreases self.voted.len() - i,
        {
            let (a, p) = self.voted[i];
            if a == voter && p == poll_id {
                assert(self.voted@[i as int] == (voter, poll_id));
                assert(self.voted@.contains((voter, poll_id)));
                return true;
            }
            i += 1;
        }
        assert(!self.voted@.contains((voter, poll_id)));
        false
    }

    /// Casts the caller's vote for option `option_index` of poll `poll_id`.
    /// The poll must exist and be live at `now`, the option index must be in
    /// range, and each account votes at most once per poll. A poll whose end
    /// time has passed is closed as a side effect of the attempt, which
    /// still fails.
    pub fn vote(&mut self, caller: AccountId, now: u64, poll_id: u32, option_index: u32) -> (r:
        Result<VoteCast, Error>)
        requires
            old(self).wf(),
            old(self).tally_has_room(poll_id, option_index),
        ensures
            final(self).wf(),
            final(self).roles == old(self).roles,
            final(self).next_poll_id == old(self).next_poll_id,
            final(self).polls@.len() == old(self).polls@.len(),
            !old(self).has_poll(poll_id) ==> r == Err::<VoteCast, Error>(Error::PollNotFound)
                && *final(self) == *old(self),
            old(self).has_poll(poll_id) && !old(self).poll_spec(poll_id).active ==> r == Err::<
                VoteCast,
                Error,
            >(Error::PollNotActive) && *final(self) == *old(self),
            old(self).has_poll(poll_id) && old(self).poll_spec(poll_id).active && old(
                self,
            ).poll_spec(poll_id).expired(now) ==> {
                &&& r == Err::<VoteCast, Error>(Error::PollNotActive)
                &&& final(self).voted == old(self).voted
                &&& Poll::deactivated(old(self).poll_spec(poll_id), final(self).poll_spec(poll_id))
                &&& forall|i: int|
                    0 <= i < old(self).polls@.len() && i != poll_id - 1 ==> final(self).polls@[i]
                        == old(self).polls@[i]
            },
            old(self).live(poll_id, now) && (option_index as int) >= old(self).poll_spec(
                poll_id,
            ).options@.len() ==> r == Err::<VoteCast, Error>(Error::InvalidOptionIndex)
                && *final(self) == *old(self),
            old(self).live(poll_id, now) && (option_index as int) < old(self).poll_spec(
                poll_id,
            ).options@.len() && old(self).has_voted_spec(caller, poll_id) ==> r == Err::<
                VoteCast,
                Error,
            >(Error::AlreadyVoted) && *final(self) == *old(self),
            old(self).live(poll_id, now) && (option_index as int) < old(self).poll_spec(
                poll_id,
            ).options@.len() && !old(self).has_voted_spec(caller, poll_id) ==> {
                &&& r == Ok::<VoteCast, Error>(
                    (VoteCast { poll_id, voter: caller, option_index }),
                )
                &&& Poll::vote_counted(
                    old(self).poll_spec(poll_id),
                    final(self).poll_spec(poll_id),
                    option_index as int,
                )
                &&& forall|i: int|
                    0 <= i < old(self).polls@.len() && i != poll_id - 1 ==> final(self).polls@[i]
                        == old(self).polls@[i]
                &&& final(self).voted@ == old(self).voted@.push((caller, poll_id))
            },
    {
        if !(1 <= poll_id && (poll_id as usize) <= self.polls.len()) {
            return Err(Error::PollNotFound);
        }
        let idx = (poll_id - 1) as usize;
        if !self.polls[idx].active {
            return Err(Error::PollNotActive);
        }
        let is_past_end = match self.polls[idx].end_time {
            Some(e) => now > e,
            None => false,
        };
        if is_past_end {
            let p = &mut self.polls[idx];
            p.active = false;
            return Err(Error::PollNotActive);
        }
        if (option_index as usize) >= self.polls[idx].options.len() {
            return Err(Error::InvalidOptionIndex);
        }
        if self.has_voted(caller, poll_id) {
            return Err(Error::AlreadyVoted);
        }
        let oi = option_index as usize;
        let p = &mut self.polls[idx];
        let tally = p.votes[oi];
        p.votes[oi] = tally + 1;
        self.voted.push((caller, poll_id));
        Ok(VoteCast { poll_id, voter: caller, option_index })
    }

    /// Closes poll `poll_id` and returns its final tally. The poll must
    /// exist and still be open, and the caller must be the developer, an
    /// admin, or the poll's creator.
    pub fn end_poll(&mut self, caller: AccountId, poll_id: u32) -> (r: Result<PollEnded, Error>)
        requires
            old(self).wf(),
        ensures
            final(self).wf(),
            final(self).roles == old(self).roles,
            final(self).next_poll_id == old(self).next_poll_id,
            final(self).voted == old(self).voted,
            final(self).polls@.len() == old(self).polls@.len(),
            !old(self).has_poll(poll_id) ==> r == Err::<PollEnded, Error>(Error::PollNotFound)
                && *final(self) == *old(self),
            old(self).has_poll(poll_id) && !old(self).poll_spec(poll_id).active ==> r == Err::<
                PollEnded,
                Error,
            >(Error::PollNotActive) && *final(self) == *old(self),
            old(self).has_poll(poll_id) && old(self).poll_spec(poll_id).active && !(old(
                self,
            ).roles.is_authorized_spec(caller) || caller == old(self).poll_spec(poll_id).creator)
                ==> r == Err::<PollEnded, Error>(Error::NotAuthorized) && *final(self) == *old(
                self,
            ),
            old(self).has_poll(poll_id) && old(self).poll_spec(poll_id).active && (old(
                self,
            ).roles.is_authorized_spec(caller) || caller == old(self).poll_spec(poll_id).creator)
                ==> {
                &&& r is Ok
                &&& r->Ok_0.poll_id == poll_id
                &&& r->Ok_0.results@ == old(self).poll_spec(poll_id).votes@
                &&& Poll::deactivated(old(self).poll_spec(poll_id), final(self).poll_spec(poll_id))
                &&& forall|i: int|
                    0 <= i < old(self).polls@.len() && i != poll_id - 1 ==> final(self).polls@[i]
                        == old(self).polls@[i]
            },
    {
        if !(1 <= poll_id && (poll_id as usize) <= self.polls.len()) {
            return Err(Error::PollNotFound);
        }
        let idx = (poll_id - 1) as usize;
        if !self.polls[idx].active {
            return Err(Error::PollNotActive);
        }
        if !self.roles.is_authorized(caller) {
            let creator = self.polls[idx].creator;
            if caller != creator {
                return Err(Error::NotAuthorized);
            }
        }
        let results = copy_tally(&self.polls[idx].votes);
        let p = &mut self.polls[idx];
        p.active = false;
        Ok(PollEnded { poll_id, results })
    }

    /// Returns how many polls have been created.
    pub fn get_poll_count(&self) -> (r: u32)
        requires
            self.wf(),
        ensures
            r as int == self.polls@.len(),
    {
        self.next_poll_id - 1
    }

    /// Returns the tally of poll `poll_id`: one counter per option.
    pub fn get_poll_results(&self, poll_id: u32) -> (r: Result<Vec<u32>, Error>)
        ensures
            !self.has_poll(poll_id) ==> r == Err::<Vec<u32>, Error>(Error::PollNotFound),
            self.has_poll(poll_id) ==> r is Ok && r->Ok_0@ == self.poll_spec(poll_id).votes@,
    {
        if !(1 <= poll_id && (poll_id as usize) <= self.polls.len()) {
            return Err(Error::PollNotFound);
        }
        let idx = (poll_id - 1) as usize;
        Ok(copy_tally(&self.polls[idx].votes))
    }
}

/// Copies a tally into a fresh vector.
fn copy_tally(v: &Vec<u32>) -> (r: Vec<u32>)
    ensures
        r@ == v@,
{
    let mut r: Vec<u32> = Vec::new();
    let mut i: usize = 0;
    while i < v.len()
        invariant
            i <= v.len(),
            r@ == v@.subrange(0, i as int),
        decreases v.len() - i,
    {
        let x = v[i];
        r.push(x);
        proof {
            assert(r@ =~= v@.subrange(0, i + 1));
        }
        i += 1;
    }
    proof {
        assert(r@ =~= v@);
    }
    r
}

} // verus!
