//! Casting and changing votes.
use vstd::prelude::*;
use crate::account::{AccountId, VAccount};
use crate::account_id::valid_account_id;
use crate::context::{CallContext, Transfer};
use crate::encoding::encodable;
use crate::error::ContractError;
use crate::merkle::MerkleProof;
use crate::token::NearToken;
use crate::voting::{lemma_tally_update, lemma_voters_after_vote, lemma_vote_key, vote_key, Contract, Proposal, ProposalId, ProposalStatus, VoteStats};

verus! {

broadcast use vstd::std_specs::hash::group_hash_axioms;

/// The account IDs in the record are valid NEAR account IDs.
pub open spec fn ids_valid(v: VAccount) -> bool {
    &&& valid_account_id(v.account().account_id@)
    &&& v.account().delegation matches Some(d) ==> valid_account_id(d.account_id@)
}

/// The per-option tallies after a vote of `b` for `vote`, moved from
/// `prev` when the account had voted.
pub open spec fn tallied(stats: Seq<VoteStats>, prev: Option<u8>, vote: u8, b: NearToken) -> Seq<VoteStats> {
    let s1 = match prev {
        Some(p) => stats.update(p as int, stats[p as int].removed(b)),
        None => stats,
    };
    s1.update(vote as int, s1[vote as int].added(b))
}

/// The overall tally after a vote of `b`, which replaces an earlier vote
/// when there was one.
pub open spec fn total_tallied(total: VoteStats, prev: Option<u8>, b: NearToken) -> VoteStats {
    let t1 = if prev is Some { total.removed(b) } else { total };
    t1.added(b)
}

impl Contract {
    /// The proposal with its status moved forward to the block's time.
    pub open spec fn current(self, id: u32, ts: u64) -> Proposal {
        Proposal { status: self.proposal(id as int).spec_status_at(ts), ..self.proposal(id as int) }
    }

    /// The veNEAR that the record gives its account at the proposal's
    /// snapshot.
    pub open spec fn vote_weight(self, id: u32, v: VAccount) -> int {
        let s = self.proposal(id as int).snapshot_and_state.unwrap();
        v.account().spec_total_balance(s.timestamp_ns, s.venear_growth_config)
    }

    /// The storage fee that a vote pays: none when it changes a vote.
    pub open spec fn storage_added(self, prev: Option<u8>) -> int {
        if prev is Some { 0 } else { self.config.vote_storage_fee.0 as int }
    }

    /// Why a vote is refused, if it is.
    pub open spec fn vote_error(self, ctx: CallContext, id: u32, vote: u8, proof: MerkleProof, v: VAccount) -> Option<ContractError> {
        let p = self.current(id, ctx.block_timestamp);
        let s = p.snapshot_and_state.unwrap();
        let a = v.account();
        let b = NearToken(self.vote_weight(id, v) as u128);
        let prev = self.vote_of(a.account_id@, id);
        let s1 = match prev {
            Some(q) => p.votes@.update(q as int, p.votes@[q as int].removed(b)),
            None => p.votes@,
        };
        let t1 = if prev is Some { p.total_votes.removed(b) } else { p.total_votes };
        let fee = self.storage_added(prev);
        if self.paused {
            Some(ContractError::Paused)
        } else if ctx.attached_deposit.0 == 0 {
            Some(ContractError::RequiresDeposit)
        } else if id >= self.num_proposals() {
            Some(ContractError::ProposalNotFound)
        } else if !self.proposal(id as int).update_ok() {
            Some(ContractError::BalanceOutOfRange)
        } else if p.status == ProposalStatus::Created || p.status == ProposalStatus::Approved {
            Some(ContractError::VotingNotStarted)
        } else if p.status == ProposalStatus::Rejected {
            Some(ContractError::ProposalRejected)
        } else if p.status == ProposalStatus::Finished {
            Some(ContractError::VotingFinished)
        } else if p.status == ProposalStatus::QuorumNotMet {
            Some(ContractError::QuorumNotMet)
        } else if !proof.spec_verify(s.snapshot.root@, s.snapshot.length as int, v) {
            Some(ContractError::InvalidMerkleProof)
        } else if a.account_id@ != ctx.predecessor_account_id@ {
            Some(ContractError::AccountMismatch)
        } else if !a.total_balance_ok(s.timestamp_ns, s.venear_growth_config) {
            Some(ContractError::BalanceOutOfRange)
        } else if self.vote_weight(id, v) == 0 {
            Some(ContractError::NoVenearBalance)
        } else if prev == Some(vote) {
            Some(ContractError::SameVote)
        } else if prev is Some && (!p.votes@[prev.unwrap() as int].can_remove(b) || !p.total_votes.can_remove(b)) {
            Some(ContractError::BalanceOutOfRange)
        } else if vote as int >= p.votes@.len() {
            Some(ContractError::VoteOutOfBounds)
        } else if !s1[vote as int].can_add(b) || !t1.can_add(b) {
            Some(ContractError::BalanceOutOfRange)
        } else if ctx.attached_deposit.0 < fee {
            Some(ContractError::InsufficientDeposit)
        } else if fee + 1 > u128::MAX {
            Some(ContractError::BalanceOutOfRange)
        } else if !self.voters@.contains_key(a.account_id@) && self.num_voters == u32::MAX {
            Some(ContractError::CapacityExceeded)
        } else {
            None
        }
    }

    /// Votes, while the contract is not paused, for option `vote` of a
    /// proposal in its voting period, with the
    /// veNEAR that `v_account` had at the proposal's snapshot, which
    /// `merkle_proof` must prove. The record must be the caller's. A first
    /// vote pays the storage fee; changing a vote moves its weight and pays
    /// nothing. What is attached beyond the fee, more than one yoctoNEAR, is
    /// refunded.
    pub fn vote(
        &mut self,
        ctx: &CallContext,
        proposal_id: ProposalId,
        vote: u8,
        merkle_proof: MerkleProof,
        v_account: VAccount,
    ) -> (res: Result<Option<Transfer>, ContractError>)
        requires
            old(self).wf(),
            ids_valid(v_account),
        ensures
            final(self).wf(),
            res is Err <==> old(self).vote_error(*ctx, proposal_id, vote, merkle_proof, v_account) is Some,
            res matches Err(e) ==> old(self).vote_error(*ctx, proposal_id, vote, merkle_proof, v_account) == Some(e)
                && *final(self) == *old(self),
            res is Ok ==> ({
                let acc = v_account.account().account_id@;
                let prev = old(self).vote_of(acc, proposal_id);
                let b = NearToken(old(self).vote_weight(proposal_id, v_account) as u128);
                let p = old(self).current(proposal_id, ctx.block_timestamp);
                let fee = old(self).storage_added(prev);
                &&& final(self).vote_of(acc, proposal_id) == Some(vote)
                &&& forall|a: Seq<char>, i: u32| (a != acc || i != proposal_id) ==> #[trigger] final(self).vote_of(a, i)
                    == old(self).vote_of(a, i)
                &&& final(self).proposal(proposal_id as int).same(Proposal {
                    votes: final(self).proposal(proposal_id as int).votes,
                    total_votes: total_tallied(p.total_votes, prev, b),
                    ..p
                })
                &&& final(self).proposal(proposal_id as int).votes@ == tallied(p.votes@, prev, vote, b)
                &&& final(self).num_proposals() == old(self).num_proposals()
                &&& forall|i: int| 0 <= i < old(self).num_proposals() && i != proposal_id ==> #[trigger] final(self).proposal(i)
                    == old(self).proposal(i)
                &&& final(self).proposal_metadata@ == old(self).proposal_metadata@
                &&& final(self).config == old(self).config
                &&& final(self).approved_proposals@ == old(self).approved_proposals@
                &&& final(self).paused == old(self).paused
                &&& res == Ok::<Option<Transfer>, ContractError>(if ctx.attached_deposit.0 > fee + 1 {
                    Some(Transfer {
                        receiver_id: ctx.predecessor_account_id,
                        amount: NearToken((ctx.attached_deposit.0 - fee) as u128),
                    })
                } else {
                    None
                })
            }),
    {
        if self.paused {
            return Err(ContractError::Paused);
        }
        if ctx.attached_deposit.0 == 0 {
            return Err(ContractError::RequiresDeposit);
        }
        let mut proposal = match self.internal_expect_proposal_updated(proposal_id, ctx.block_timestamp) {
            Ok(p) => p,
            Err(e) => return Err(e),
        };
        match proposal.status {
            ProposalStatus::Voting => {},
            ProposalStatus::Created | ProposalStatus::Approved => return Err(ContractError::VotingNotStarted),
            ProposalStatus::Rejected => return Err(ContractError::ProposalRejected),
            ProposalStatus::Finished => return Err(ContractError::VotingFinished),
            ProposalStatus::QuorumNotMet => return Err(ContractError::QuorumNotMet),
        }
        let ghost old_p = self.proposal(proposal_id as int);
        assert(old_p.wf());
        let (root, length, timestamp_ns) = match &proposal.snapshot_and_state {
            Some(s) => (s.snapshot.root, s.snapshot.length, s.timestamp_ns),
            None => return Err(ContractError::VotingNotStarted),
        };
        proof {
            assert(encodable(v_account));
        }
        if !merkle_proof.verify(root, length, &v_account) {
            return Err(ContractError::InvalidMerkleProof);
        }
        let account = match &v_account {
            VAccount::V0(a) => a,
        };
        if account.account_id != ctx.predecessor_account_id {
            return Err(ContractError::AccountMismatch);
        }
        let account_balance = match &proposal.snapshot_and_state {
            Some(s) => match account.try_total_balance(timestamp_ns, &s.venear_growth_config) {
                Some(b) => b,
                None => return Err(ContractError::BalanceOutOfRange),
            },
            None => return Err(ContractError::VotingNotStarted),
        };
        if account_balance.is_zero() {
            return Err(ContractError::NoVenearBalance);
        }
        let voter = match self.voters.get(account.account_id.as_str()) {
            Some(i) => Some(*i),
            None => None,
        };
        let previous_vote = match voter {
            Some(i) => {
                proof {
                    lemma_vote_key(i, proposal_id, i, proposal_id);
                }
                let key = i as u64 * 4294967296 + proposal_id as u64;
                match self.votes.get(&key) {
                    Some(v) => Some(*v),
                    None => None,
                }
            },
            None => None,
        };
        assert(previous_vote == self.vote_of(account.account_id@, proposal_id));
        match previous_vote {
            Some(p) => {
                if p == vote {
                    return Err(ContractError::SameVote);
                }
            },
            None => {},
        }
        let ghost stats0 = proposal.votes@;
        let mut storage_added = self.config.vote_storage_fee;
        match previous_vote {
            Some(p) => {
                let mut s = proposal.votes[p as usize];
                if s.total_votes < 1 || account_balance.0 > s.total_venear.0 || proposal.total_votes.total_votes < 1
                    || account_balance.0 > proposal.total_votes.total_venear.0 {
                    return Err(ContractError::BalanceOutOfRange);
                }
                s.remove_vote(account_balance);
                proposal.votes.set(p as usize, s);
                proposal.total_votes.remove_vote(account_balance);
                storage_added = NearToken(0);
            },
            None => {},
        }
        if vote as usize >= proposal.votes.len() {
            return Err(ContractError::VoteOutOfBounds);
        }
        let mut s = proposal.votes[vote as usize];
        if s.total_votes == u32::MAX || account_balance.0 > u128::MAX - s.total_venear.0
            || proposal.total_votes.total_votes == u32::MAX
            || account_balance.0 > u128::MAX - proposal.total_votes.total_venear.0 {
            return Err(ContractError::BalanceOutOfRange);
        }
        s.add_vote(account_balance);
        proposal.votes.set(vote as usize, s);
        proposal.total_votes.add_vote(account_balance);
        if ctx.attached_deposit.0 < storage_added.0 {
            return Err(ContractError::InsufficientDeposit);
        }
        if storage_added.0 == u128::MAX {
            return Err(ContractError::BalanceOutOfRange);
        }
        let idx = match voter {
            Some(i) => i,
            None => {
                if self.num_voters == u32::MAX {
                    return Err(ContractError::CapacityExceeded);
                }
                self.num_voters
            },
        };
        let refund = if ctx.attached_deposit.0 > storage_added.0 + 1 {
            Some(Transfer {
                receiver_id: ctx.predecessor_account_id.clone(),
                amount: NearToken(ctx.attached_deposit.0 - storage_added.0),
            })
        } else {
            None
        };
        assert(proposal.votes@ =~= tallied(stats0, previous_vote, vote, account_balance));
        proof {
            let b = account_balance;
            let s1 = match previous_vote {
                Some(q) => stats0.update(q as int, stats0[q as int].removed(b)),
                None => stats0,
            };
            if previous_vote is Some {
                lemma_tally_update(stats0, previous_vote.unwrap() as int, stats0[previous_vote.unwrap() as int].removed(b));
            }
            lemma_tally_update(s1, vote as int, s1[vote as int].added(b));
        }
        let ghost s0 = *self;
        let ghost acc = account.account_id@;
        proof {
            lemma_vote_key(idx, proposal_id, idx, proposal_id);
        }
        let key = idx as u64 * 4294967296 + proposal_id as u64;
        if voter.is_none() {
            self.voters.insert(account.account_id.clone(), idx);
            self.num_voters = self.num_voters + 1;
        }
        self.votes.insert(key, vote);
        self.internal_set_proposal(proposal);
        proof {
            assert forall|a: Seq<char>, i: u32| (a != acc || i != proposal_id) implies #[trigger] self.vote_of(a, i)
                == s0.vote_of(a, i) by {
                if self.voters@.contains_key(a) {
                    lemma_vote_key(self.voters@[a], i, idx, proposal_id);
                    if a != acc {
                        assert(s0.voters@.contains_key(a));
                        assert(s0.voters@[a] != idx);
                    }
                }
                if a == acc && voter.is_none() {
                    lemma_vote_key(idx, i, idx, i);
                    assert(!s0.votes@.contains_key(vote_key(idx, i)));
                }
            }
            assert forall|i: int| 0 <= i < s0.num_proposals() && i != proposal_id implies #[trigger] self.proposal(i)
                == s0.proposal(i) by {}
            assert forall|a: Seq<char>| #[trigger] self.voters@.contains_key(a) implies self.voters@[a] < self.num_voters by {
                if a != acc {
                    assert(s0.voters@.contains_key(a));
                }
            }
            assert forall|a: Seq<char>, b: Seq<char>|
                self.voters@.contains_key(a) && self.voters@.contains_key(b) && #[trigger] self.voters@[a]
                    == #[trigger] self.voters@[b] implies a == b by {
                if a != acc && b != acc {
                    assert(s0.voters@.contains_key(a) && s0.voters@.contains_key(b));
                } else if a != acc {
                    assert(s0.voters@.contains_key(a));
                } else if b != acc {
                    assert(s0.voters@.contains_key(b));
                }
            }
            assert forall|k: u64| #[trigger] self.votes@.contains_key(k) implies k < self.num_voters * 4294967296 by {
                if k != key {
                    assert(s0.votes@.contains_key(k));
                    assert(s0.num_voters * 4294967296 <= self.num_voters * 4294967296) by (nonlinear_arith)
                        requires s0.num_voters <= self.num_voters;
                }
            }
            assert forall|i: int| 0 <= i < self.proposals@.len() implies (#[trigger] self.proposal(i)).id == i
                && self.proposal(i).wf() by {
                if i != proposal_id {
                    assert(self.proposal(i) == s0.proposal(i));
                }
            }
            assert forall|a: Seq<char>, i: u32| #[trigger] self.vote_of(a, i) is Some implies i < self.proposals@.len()
                && self.vote_of(a, i).unwrap() < self.proposal(i as int).votes@.len() by {
                if a != acc || i != proposal_id {
                    assert(self.vote_of(a, i) == s0.vote_of(a, i));
                }
            }
            if voter.is_none() {
                assert(self.voters@.dom() =~= s0.voters@.dom().insert(acc));
            } else {
                assert(self.voters@.dom() =~= s0.voters@.dom());
            }
            lemma_voters_after_vote(s0, *self, acc, proposal_id);
            assert forall|i: int| 0 <= i < self.proposals@.len() implies #[trigger] self.proposal(i).total_votes.total_votes
                == self.voters_of(i as u32).len() by {
                if i != proposal_id {
                    assert(self.proposal(i) == s0.proposal(i));
                }
            }
        }
        Ok(refund)
    }

    /// The option that an account chose on a proposal.
    pub fn get_vote(&self, account_id: AccountId, proposal_id: ProposalId) -> (res: Option<u8>)
        ensures
            res == self.vote_of(account_id@, proposal_id),
    {
        match self.voters.get(account_id.as_str()) {
            Some(i) => {
                proof {
                    lemma_vote_key(*i, proposal_id, *i, proposal_id);
                }
                let key = *i as u64 * 4294967296 + proposal_id as u64;
                match self.votes.get(&key) {
                    Some(v) => Some(*v),
                    None => None,
                }
            },
            None => None,
        }
    }
}

/// Changing a vote moves its weight between options: the overall tally
/// keeps its count and its veNEAR.
pub proof fn lemma_changed_vote_keeps_total(total: VoteStats, prev: u8, b: NearToken)
    requires
        total.can_remove(b),
    ensures
        total_tallied(total, Some(prev), b) == total,
{
}

} // verus!
