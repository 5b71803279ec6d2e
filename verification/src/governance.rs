//! Proposal, voting and execution of configuration changes by registered
//! voters.

use vstd::prelude::*;
use crate::admin::adopt_post;
use crate::contract::{valid_config, valid_fee, valid_limits, valid_multipliers, CoinflipContract, MAX_FEE_BPS, MIN_FEE_BPS};
use crate::env::Env;
use crate::errors::Error;
use crate::payout::BPS_DENOMINATOR;
use crate::types::{Address, AdminActionKind, ContractConfig, Event, MultiplierConfig};

verus! {

/// A configuration change a proposal would make.
#[derive(Clone, Copy, Debug, PartialEq, Eq)]
pub enum ProposalAction {
    SetFee(u32),
    SetPaused(bool),
    SetWagerLimits(i128, i128),
    SetTreasury(Address),
    SetMultipliers(MultiplierConfig),
}

#[derive(Clone, Copy, Debug, PartialEq, Eq, Structural)]
pub enum ProposalStatus {
    Active,
    Executed,
    Canceled,
}

#[derive(Clone, Debug, PartialEq, Eq)]
pub struct Proposal {
    pub id: u32,
    pub proposer: Address,
    pub action: ProposalAction,
    pub votes_for: u32,
    pub votes_against: u32,
    pub deadline_ledger: u32,
    pub status: ProposalStatus,
    /// The voters who have voted on this proposal.
    pub voted: Vec<Address>,
}

/// Ledgers a proposal stays open for voting.
pub const VOTING_PERIOD_LEDGERS: u32 = 17_280;
/// Share of registered voters, in percent, whose approval passes a proposal.
pub const APPROVAL_THRESHOLD_PERCENT: u64 = 51;

/// The configuration a proposal's action produces.
pub open spec fn apply_action(c: ContractConfig, a: ProposalAction) -> ContractConfig {
    match a {
        ProposalAction::SetFee(fee_bps) => ContractConfig { fee_bps, ..c },
        ProposalAction::SetPaused(paused) => ContractConfig { paused, ..c },
        ProposalAction::SetWagerLimits(min_wager, max_wager) => ContractConfig { min_wager, max_wager, ..c },
        ProposalAction::SetTreasury(treasury) => ContractConfig { treasury, ..c },
        ProposalAction::SetMultipliers(multipliers) => ContractConfig { multipliers, ..c },
    }
}

/// Why a proposal's action may not be applied, if it may not.
pub open spec fn action_error(c: ContractConfig, a: ProposalAction) -> Option<Error> {
    match a {
        ProposalAction::SetFee(fee_bps) => if valid_fee(fee_bps) { None } else { Some(Error::InvalidFeePercentage) },
        ProposalAction::SetPaused(_) => None,
        ProposalAction::SetWagerLimits(min_wager, max_wager) => if valid_limits(min_wager, max_wager) {
            None
        } else {
            Some(Error::InvalidWagerLimits)
        },
        ProposalAction::SetTreasury(treasury) => if treasury != c.admin { None } else { Some(Error::AdminTreasuryConflict) },
        ProposalAction::SetMultipliers(m) => if valid_multipliers(m) { None } else { Some(Error::InvalidMultiplier) },
    }
}

pub open spec fn action_kind(a: ProposalAction) -> AdminActionKind {
    match a {
        ProposalAction::SetFee(_) => AdminActionKind::SetFee,
        ProposalAction::SetPaused(_) => AdminActionKind::SetPaused,
        ProposalAction::SetWagerLimits(_, _) => AdminActionKind::SetWagerLimits,
        ProposalAction::SetTreasury(_) => AdminActionKind::SetTreasury,
        ProposalAction::SetMultipliers(_) => AdminActionKind::SetMultipliers,
    }
}

/// Whether enough of the registered voters approved.
pub open spec fn approved(votes_for: u32, voters: nat) -> bool {
    votes_for > 0 && votes_for * 100 >= voters * APPROVAL_THRESHOLD_PERCENT
}

/// Two proposals hold the same data.
pub open spec fn same_proposal(a: Proposal, b: Proposal) -> bool {
    &&& a.id == b.id
    &&& a.proposer == b.proposer
    &&& a.action == b.action
    &&& a.votes_for == b.votes_for
    &&& a.votes_against == b.votes_against
    &&& a.deadline_ledger == b.deadline_ledger
    &&& a.status == b.status
    &&& a.voted@ == b.voted@
}

pub fn copy_addresses(v: &Vec<Address>) -> (c: Vec<Address>)
    ensures
        c@ == v@,
{
    let mut out: Vec<Address> = Vec::new();
    let mut i: usize = 0;
    while i < v.len()
        invariant
            0 <= i <= v@.len(),
            out@ == v@.take(i as int),
        decreases v@.len() - i,
    {
        out.push(v[i]);
        i = i + 1;
        assert(out@ =~= v@.take(i as int));
    }
    assert(v@.take(v@.len() as int) =~= v@);
    out
}

pub fn copy_proposal(p: &Proposal) -> (c: Proposal)
    ensures
        same_proposal(c, *p),
{
    Proposal {
        id: p.id,
        proposer: p.proposer,
        action: p.action,
        votes_for: p.votes_for,
        votes_against: p.votes_against,
        deadline_ledger: p.deadline_ledger,
        status: p.status,
        voted: copy_addresses(&p.voted),
    }
}

pub fn contains_address(v: &Vec<Address>, a: Address) -> (r: bool)
    ensures
        r == v@.contains(a),
{
    let mut i: usize = 0;
    while i < v.len()
        invariant
            0 <= i <= v@.len(),
            forall|j: int| 0 <= j < i ==> v@[j] != a,
        decreases v@.len() - i,
    {
        if v[i] == a {
            return true;
        }
        i = i + 1;
    }
    false
}

/// The predicate that holds of every account but one.
pub open spec fn other_than(excluded: Address) -> spec_fn(Address) -> bool {
    |a: Address| a != excluded
}

impl CoinflipContract {
    pub open spec fn is_voter(&self, a: Address) -> bool {
        self.voters@.contains(a)
    }

    /// Registers a voter (the admin only); registering twice changes nothing.
    pub fn add_voter(&mut self, caller: Address, voter: Address) -> (r: Result<(), Error>)
        requires
            old(self).config is Some,
        ensures
            old(self).wf() ==> final(self).wf(),
            caller != old(self).config.unwrap().admin ==> r == Err::<(), Error>(Error::Unauthorized) && *final(self) == *old(self),
            caller == old(self).config.unwrap().admin ==> {
                &&& r is Ok
                &&& final(self).voters@ == (if old(self).is_voter(voter) {
                    old(self).voters@
                } else {
                    old(self).voters@.push(voter)
                })
                &&& *final(self) == (CoinflipContract { voters: final(self).voters, ..*old(self) })
            },
    {
        if caller != self.config.unwrap().admin {
            return Err(Error::Unauthorized);
        }
        if !contains_address(&self.voters, voter) {
            self.voters.push(voter);
        }
        Ok(())
    }

    /// Deregisters a voter (the admin only).
    pub fn remove_voter(&mut self, caller: Address, voter: Address) -> (r: Result<(), Error>)
        requires
            old(self).config is Some,
        ensures
            old(self).wf() ==> final(self).wf(),
            caller != old(self).config.unwrap().admin ==> r == Err::<(), Error>(Error::Unauthorized) && *final(self) == *old(self),
            caller == old(self).config.unwrap().admin ==> {
                &&& r is Ok
                &&& final(self).voters@ == old(self).voters@.filter(other_than(voter))
                &&& forall|a: Address| #[trigger] final(self).is_voter(a) <==> old(self).is_voter(a) && a != voter
                &&& *final(self) == (CoinflipContract { voters: final(self).voters, ..*old(self) })
            },
    {
        if caller != self.config.unwrap().admin {
            return Err(Error::Unauthorized);
        }
        let mut kept: Vec<Address> = Vec::new();
        let mut i: usize = 0;
        while i < self.voters.len()
            invariant
                0 <= i <= self.voters@.len(),
                kept@ == self.voters@.take(i as int).filter(other_than(voter)),
            decreases self.voters@.len() - i,
        {
            let v = self.voters[i];
            proof {
                let t = self.voters@.take(i + 1);
                assert(t.drop_last() =~= self.voters@.take(i as int));
                reveal(Seq::filter);
            }
            if v != voter {
                kept.push(v);
            }
            i = i + 1;
        }
        assert(self.voters@.take(self.voters@.len() as int) =~= self.voters@);
        proof {
            let f = self.voters@.filter(other_than(voter));
            assert(kept@ == f);
            assert forall|a: Address| #[trigger] kept@.contains(a) <==> self.voters@.contains(a) && a != voter by {
                if f.contains(a) {
                    self.voters@.lemma_filter_contains_rev(other_than(voter), a);
                    let j = choose|j: int| 0 <= j < f.len() && f[j] == a;
                    self.voters@.lemma_filter_pred(other_than(voter), j);
                }
                if self.voters@.contains(a) && a != voter {
                    let k = choose|k: int| 0 <= k < self.voters@.len() && self.voters@[k] == a;
                    self.voters@.lemma_filter_contains(other_than(voter), k);
                }
            }
        }
        self.voters = kept;
        Ok(())
    }

    /// The registered voters.
    pub fn get_voters(&self) -> (v: Vec<Address>)
        ensures
            v@ == self.voters@,
    {
        copy_addresses(&self.voters)
    }

    /// A proposal, if one with this id exists.
    pub fn get_proposal(&self, id: u32) -> (r: Option<Proposal>)
        ensures
            (id as int) < self.proposals@.len() ==> (r matches Some(p) && same_proposal(p, self.proposals@[id as int])),
            (id as int) >= self.proposals@.len() ==> r is None,
    {
        if (id as usize) < self.proposals.len() {
            Some(copy_proposal(&self.proposals[id as usize]))
        } else {
            None
        }
    }
}

impl CoinflipContract {
    /// Opens a proposal (the admin or a registered voter); its id is its
    /// position, and voting closes `VOTING_PERIOD_LEDGERS` from now.
    pub fn propose(&mut self, env: &Env, caller: Address, action: ProposalAction) -> (r: Result<u32, Error>)
        requires
            old(self).config is Some,
        ensures
            old(self).wf() ==> final(self).wf(),
            !(caller == old(self).config.unwrap().admin || old(self).is_voter(caller)) ==>
                r == Err::<u32, Error>(Error::Unauthorized) && *final(self) == *old(self),
            (caller == old(self).config.unwrap().admin || old(self).is_voter(caller)) && old(self).proposals@.len() >= u32::MAX ==>
                r == Err::<u32, Error>(Error::ProposalLimitReached) && *final(self) == *old(self),
            (caller == old(self).config.unwrap().admin || old(self).is_voter(caller)) && old(self).proposals@.len() < u32::MAX ==> {
                let p = final(self).proposals@.last();
                &&& r == Ok::<u32, Error>(old(self).proposals@.len() as u32)
                &&& final(self).proposals@.len() == old(self).proposals@.len() + 1
                &&& final(self).proposals@.drop_last() == old(self).proposals@
                &&& p.id == old(self).proposals@.len()
                &&& p.proposer == caller
                &&& p.action == action
                &&& p.votes_for == 0
                &&& p.votes_against == 0
                &&& p.deadline_ledger == (if env.sequence + VOTING_PERIOD_LEDGERS <= u32::MAX {
                    (env.sequence + VOTING_PERIOD_LEDGERS) as u32
                } else {
                    u32::MAX
                })
                &&& p.status == ProposalStatus::Active
                &&& p.voted@.len() == 0
                &&& *final(self) == (CoinflipContract { proposals: final(self).proposals, ..*old(self) })
            },
    {
        if !(caller == self.config.unwrap().admin || contains_address(&self.voters, caller)) {
            return Err(Error::Unauthorized);
        }
        if self.proposals.len() >= u32::MAX as usize {
            return Err(Error::ProposalLimitReached);
        }
        let id = self.proposals.len() as u32;
        self.proposals.push(Proposal {
            id,
            proposer: caller,
            action,
            votes_for: 0,
            votes_against: 0,
            deadline_ledger: env.sequence.saturating_add(VOTING_PERIOD_LEDGERS),
            status: ProposalStatus::Active,
            voted: Vec::new(),
        });
        assert(self.proposals@.drop_last() =~= old(self).proposals@);
        Ok(id)
    }

    /// The first guard `vote` fails, if any.
    pub open spec fn vote_error(&self, env: &Env, voter: Address, id: u32) -> Option<Error> {
        let p = self.proposals@[id as int];
        if !self.is_voter(voter) {
            Some(Error::Unauthorized)
        } else if id >= self.proposals@.len() {
            Some(Error::ProposalNotFound)
        } else if p.status != ProposalStatus::Active || env.sequence > p.deadline_ledger {
            Some(Error::VotingClosed)
        } else if p.voted@.contains(voter) {
            Some(Error::AlreadyVoted)
        } else if (approve_count(p, true) >= u32::MAX) || (approve_count(p, false) >= u32::MAX) {
            Some(Error::VotingClosed)
        } else {
            None
        }
    }

    /// Casts a registered voter's single vote on an open proposal.
    pub fn vote(&mut self, env: &Env, voter: Address, id: u32, approve: bool) -> (r: Result<(), Error>)
        ensures
            old(self).wf() ==> final(self).wf(),
            match old(self).vote_error(env, voter, id) {
                Some(e) => r == Err::<(), Error>(e) && *final(self) == *old(self),
                None => {
                    let p = old(self).proposals@[id as int];
                    let q = final(self).proposals@[id as int];
                    &&& r is Ok
                    &&& final(self).proposals@.len() == old(self).proposals@.len()
                    &&& forall|j: int| 0 <= j < old(self).proposals@.len() && j != id ==>
                        #[trigger] final(self).proposals@[j] == old(self).proposals@[j]
                    &&& q.votes_for == (if approve { p.votes_for + 1 } else { p.votes_for as int })
                    &&& q.votes_against == (if approve { p.votes_against as int } else { p.votes_against + 1 })
                    &&& q.voted@ == p.voted@.push(voter)
                    &&& q.id == p.id && q.proposer == p.proposer && q.action == p.action
                    &&& q.deadline_ledger == p.deadline_ledger && q.status == p.status
                    &&& *final(self) == (CoinflipContract { proposals: final(self).proposals, ..*old(self) })
                },
            },
    {
        if !contains_address(&self.voters, voter) {
            return Err(Error::Unauthorized);
        }
        if id as usize >= self.proposals.len() {
            return Err(Error::ProposalNotFound);
        }
        let i = id as usize;
        let status = self.proposals[i].status;
        if status != ProposalStatus::Active || env.sequence > self.proposals[i].deadline_ledger {
            return Err(Error::VotingClosed);
        }
        if contains_address(&self.proposals[i].voted, voter) {
            return Err(Error::AlreadyVoted);
        }
        if self.proposals[i].votes_for >= u32::MAX || self.proposals[i].votes_against >= u32::MAX {
            return Err(Error::VotingClosed);
        }
        let mut p = copy_proposal(&self.proposals[i]);
        if approve {
            p.votes_for = p.votes_for + 1;
        } else {
            p.votes_against = p.votes_against + 1;
        }
        p.voted.push(voter);
        self.proposals.set(i, p);
        Ok(())
    }
}

/// The tally a vote would raise.
pub open spec fn approve_count(p: Proposal, approve: bool) -> u32 {
    if approve { p.votes_for } else { p.votes_against }
}

impl CoinflipContract {
    /// The first guard `execute_proposal` fails, if any.
    pub open spec fn execute_error(&self, env: &Env, caller: Address, id: u32) -> Option<Error> {
        let p = self.proposals@[id as int];
        let c = self.config.unwrap();
        if id >= self.proposals@.len() {
            Some(Error::ProposalNotFound)
        } else if p.status != ProposalStatus::Active {
            Some(Error::ProposalAlreadyExecuted)
        } else if !(caller == c.admin || self.is_voter(caller)) {
            Some(Error::Unauthorized)
        } else if env.sequence <= p.deadline_ledger {
            Some(Error::VotingOpen)
        } else if !approved(p.votes_for, self.voters@.len()) {
            Some(Error::ThresholdNotMet)
        } else if action_error(c, p.action) is Some {
            action_error(c, p.action)
        } else if self.next_version == u32::MAX {
            Some(Error::VersionLimitReached)
        } else {
            None
        }
    }

    /// Applies a passed proposal once voting has closed: at least
    /// `APPROVAL_THRESHOLD_PERCENT` of the registered voters approved.  The
    /// change is recorded as a new configuration version and the proposal
    /// is marked executed.
    pub fn execute_proposal(&mut self, env: &Env, caller: Address, id: u32) -> (r: Result<(), Error>)
        requires
            old(self).config is Some,
        ensures
            old(self).wf() ==> final(self).wf(),
            match old(self).execute_error(env, caller, id) {
                Some(e) => r == Err::<(), Error>(e) && *final(self) == *old(self),
                None => {
                    let p = old(self).proposals@[id as int];
                    let mid = CoinflipContract { proposals: final(self).proposals, ..*old(self) };
                    &&& r is Ok
                    &&& final(self).proposals@.len() == old(self).proposals@.len()
                    &&& forall|j: int| 0 <= j < old(self).proposals@.len() && j != id ==>
                        #[trigger] final(self).proposals@[j] == old(self).proposals@[j]
                    &&& same_proposal(final(self).proposals@[id as int], Proposal { status: ProposalStatus::Executed, ..p })
                    &&& adopt_post(
                        mid,
                        *final(self),
                        env.sequence,
                        apply_action(old(self).config.unwrap(), p.action),
                        Seq::empty(),
                        Event::AdminAction { action: action_kind(p.action), admin: caller },
                    )
                },
            },
    {
        if id as usize >= self.proposals.len() {
            return Err(Error::ProposalNotFound);
        }
        let i = id as usize;
        if self.proposals[i].status != ProposalStatus::Active {
            return Err(Error::ProposalAlreadyExecuted);
        }
        let c = self.config.unwrap();
        if !(caller == c.admin || contains_address(&self.voters, caller)) {
            return Err(Error::Unauthorized);
        }
        if env.sequence <= self.proposals[i].deadline_ledger {
            return Err(Error::VotingOpen);
        }
        let votes_for = self.proposals[i].votes_for as u128;
        let voters = self.voters.len() as u128;
        if !(votes_for > 0 && votes_for * 100 >= voters * (APPROVAL_THRESHOLD_PERCENT as u128)) {
            return Err(Error::ThresholdNotMet);
        }
        let action = self.proposals[i].action;
        let (next, kind) = match action {
            ProposalAction::SetFee(fee_bps) => {
                if fee_bps < MIN_FEE_BPS || fee_bps > MAX_FEE_BPS {
                    return Err(Error::InvalidFeePercentage);
                }
                (ContractConfig { fee_bps, ..c }, AdminActionKind::SetFee)
            },
            ProposalAction::SetPaused(paused) => (ContractConfig { paused, ..c }, AdminActionKind::SetPaused),
            ProposalAction::SetWagerLimits(min_wager, max_wager) => {
                if !(0 < min_wager && min_wager < max_wager) {
                    return Err(Error::InvalidWagerLimits);
                }
                (ContractConfig { min_wager, max_wager, ..c }, AdminActionKind::SetWagerLimits)
            },
            ProposalAction::SetTreasury(treasury) => {
                if treasury == c.admin {
                    return Err(Error::AdminTreasuryConflict);
                }
                (ContractConfig { treasury, ..c }, AdminActionKind::SetTreasury)
            },
            ProposalAction::SetMultipliers(m) => {
                if !((BPS_DENOMINATOR as u32) < m.streak1 && m.streak1 <= m.streak2 && m.streak2 <= m.streak3
                    && m.streak3 <= m.streak4_plus) {
                    return Err(Error::InvalidMultiplier);
                }
                (ContractConfig { multipliers: m, ..c }, AdminActionKind::SetMultipliers)
            },
        };
        if self.next_version == u32::MAX {
            return Err(Error::VersionLimitReached);
        }
        let mut p = copy_proposal(&self.proposals[i]);
        p.status = ProposalStatus::Executed;
        self.proposals.set(i, p);
        let label: Vec<u8> = Vec::new();
        self.adopt_config(env, next, label, Event::AdminAction { action: kind, admin: caller });
        Ok(())
    }

    /// The first guard `cancel_proposal` fails, if any.
    pub open spec fn cancel_error(&self, caller: Address, id: u32) -> Option<Error> {
        let p = self.proposals@[id as int];
        if id >= self.proposals@.len() {
            Some(Error::ProposalNotFound)
        } else if !(caller == self.config.unwrap().admin || caller == p.proposer) {
            Some(Error::Unauthorized)
        } else if p.status != ProposalStatus::Active {
            Some(Error::ProposalAlreadyExecuted)
        } else {
            None
        }
    }

    /// Cancels an open proposal (the admin or its proposer); a canceled
    /// proposal can no longer be voted on or executed.
    pub fn cancel_proposal(&mut self, caller: Address, id: u32) -> (r: Result<(), Error>)
        requires
            old(self).config is Some,
        ensures
            old(self).wf() ==> final(self).wf(),
            match old(self).cancel_error(caller, id) {
                Some(e) => r == Err::<(), Error>(e) && *final(self) == *old(self),
                None => {
                    &&& r is Ok
                    &&& final(self).proposals@.len() == old(self).proposals@.len()
                    &&& forall|j: int| 0 <= j < old(self).proposals@.len() && j != id ==>
                        #[trigger] final(self).proposals@[j] == old(self).proposals@[j]
                    &&& same_proposal(
                        final(self).proposals@[id as int],
                        Proposal { status: ProposalStatus::Canceled, ..old(self).proposals@[id as int] },
                    )
                    &&& *final(self) == (CoinflipContract { proposals: final(self).proposals, ..*old(self) })
                },
            },
    {
        if id as usize >= self.proposals.len() {
            return Err(Error::ProposalNotFound);
        }
        let i = id as usize;
        if !(caller == self.config.unwrap().admin || caller == self.proposals[i].proposer) {
            return Err(Error::Unauthorized);
        }
        if self.proposals[i].status != ProposalStatus::Active {
            return Err(Error::ProposalAlreadyExecuted);
        }
        let mut p = copy_proposal(&self.proposals[i]);
        p.status = ProposalStatus::Canceled;
        self.proposals.set(i, p);
        Ok(())
    }
}

} // verus!
