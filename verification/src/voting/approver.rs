//! The approver's review of proposals: approving one asks the veNEAR
//! contract for a snapshot, which the callback records; rejecting one ends it.
use vstd::prelude::*;
use crate::account::AccountId;
use crate::context::CallContext;
use crate::error::ContractError;
use crate::global_state::{GlobalState, VGlobalState};
use crate::merkle::MerkleTreeSnapshot;
use crate::token::NearToken;
use crate::voting::{lemma_same_voters, Contract, Proposal, ProposalId, ProposalStatus, SnapshotAndState};

verus! {

/// A request for the veNEAR contract's snapshot, to be answered through
/// `on_get_snapshot` with the same proposal, start time and approving account.
#[derive(Clone, Debug)]
pub struct SnapshotRequest {
    pub venear_account_id: AccountId,
    pub proposal_id: ProposalId,
    pub voting_start_time_sec: Option<u32>,
    pub reviewer_id: AccountId,
    /// The gas attached to the `on_get_snapshot` callback.
    pub callback_gas: u64,
}

/// The gas, 30 TGas, attached to the `on_get_snapshot` callback.
pub const GAS_FOR_ON_GET_SNAPSHOT: u64 = 30_000_000_000_000u64;

/// The voting start: the given second in nanoseconds, or `now`.
pub open spec fn voting_start(voting_start_time_sec: Option<u32>, now: u64) -> int {
    match voting_start_time_sec {
        Some(s) => s * 1_000_000_000,
        None => now as int,
    }
}

impl Contract {
    /// Why a review of proposal `id` is refused, if it is.
    pub open spec fn review_error(self, ctx: CallContext, id: u32) -> Option<ContractError> {
        if self.paused {
            Some(ContractError::Paused)
        } else if !ctx.one_yocto() {
            Some(ContractError::RequiresOneYocto)
        } else if ctx.predecessor_account_id@ != self.config.approver_id@ {
            Some(ContractError::NotApprover)
        } else {
            self.created_error(ctx, id)
        }
    }

    /// Why proposal `id` is not waiting for review at the block's time, if
    /// it is not.
    pub open spec fn created_error(self, ctx: CallContext, id: u32) -> Option<ContractError> {
        if id >= self.num_proposals() {
            Some(ContractError::ProposalNotFound)
        } else if !self.proposal(id as int).update_ok() {
            Some(ContractError::BalanceOutOfRange)
        } else if self.proposal(id as int).spec_status_at(ctx.block_timestamp) != ProposalStatus::Created {
            Some(ContractError::NotInCreatedStatus)
        } else {
            None
        }
    }

    /// The caller is the approver.
    pub fn assert_called_by_approver(&self, ctx: &CallContext) -> (res: Result<(), ContractError>)
        ensures
            res is Ok <==> ctx.predecessor_account_id@ == self.config.approver_id@,
            res matches Err(e) ==> e == ContractError::NotApprover,
    {
        if ctx.predecessor_account_id == self.config.approver_id {
            Ok(())
        } else {
            Err(ContractError::NotApprover)
        }
    }

    fn check_created(&self, ctx: &CallContext, proposal_id: ProposalId) -> (res: Result<Proposal, ContractError>)
        ensures
            res is Err <==> self.created_error(*ctx, proposal_id) is Some,
            res matches Err(e) ==> self.created_error(*ctx, proposal_id) == Some(e),
            res matches Ok(p) ==> p.same(self.proposal(proposal_id as int)),
    {
        let proposal = match self.internal_expect_proposal_updated(proposal_id, ctx.block_timestamp) {
            Ok(p) => p,
            Err(e) => return Err(e),
        };
        if proposal.status != ProposalStatus::Created {
            return Err(ContractError::NotInCreatedStatus);
        }
        Ok(proposal)
    }

    /// Approves a proposal waiting for review: asks the veNEAR contract for
    /// its snapshot. Only the approver can, with exactly one yoctoNEAR, while
    /// the contract is not paused.
    pub fn approve_proposal(&self, ctx: &CallContext, proposal_id: ProposalId, voting_start_time_sec: Option<u32>) -> (res: Result<SnapshotRequest, ContractError>)
        ensures
            res is Err <==> self.review_error(*ctx, proposal_id) is Some,
            res matches Err(e) ==> self.review_error(*ctx, proposal_id) == Some(e),
            res matches Ok(r) ==> r == (SnapshotRequest {
                venear_account_id: self.config.venear_account_id,
                proposal_id,
                voting_start_time_sec,
                reviewer_id: ctx.predecessor_account_id,
                callback_gas: GAS_FOR_ON_GET_SNAPSHOT,
            }),
    {
        if self.paused {
            return Err(ContractError::Paused);
        }
        if ctx.attached_deposit.0 != 1 {
            return Err(ContractError::RequiresOneYocto);
        }
        match self.assert_called_by_approver(ctx) {
            Ok(()) => {},
            Err(e) => return Err(e),
        }
        match self.check_created(ctx, proposal_id) {
            Ok(_) => {},
            Err(e) => return Err(e),
        }
        Ok(SnapshotRequest {
            venear_account_id: self.config.venear_account_id.clone(),
            proposal_id,
            voting_start_time_sec,
            reviewer_id: ctx.predecessor_account_id.clone(),
            callback_gas: GAS_FOR_ON_GET_SNAPSHOT,
        })
    }

    /// Rejects a proposal waiting for review. Only the approver can, with
    /// exactly one yoctoNEAR, while the contract is not paused.
    pub fn reject_proposal(&mut self, ctx: &CallContext, proposal_id: ProposalId) -> (res: Result<(), ContractError>)
        requires
            old(self).wf(),
        ensures
            final(self).wf(),
            res is Err <==> old(self).review_error(*ctx, proposal_id) is Some,
            res matches Err(e) ==> old(self).review_error(*ctx, proposal_id) == Some(e) && *final(self) == *old(self),
            res is Ok ==> {
                &&& final(self).proposal(proposal_id as int).same(Proposal {
                    rejected: true,
                    status: ProposalStatus::Rejected,
                    ..old(self).proposal(proposal_id as int)
                })
                &&& final(self).num_proposals() == old(self).num_proposals()
                &&& forall|i: int| 0 <= i < old(self).num_proposals() && i != proposal_id ==> #[trigger] final(self).proposal(i)
                    == old(self).proposal(i)
                &&& forall|a: Seq<char>, i: u32| #[trigger] final(self).vote_of(a, i) == old(self).vote_of(a, i)
                &&& final(self).proposal_metadata@ == old(self).proposal_metadata@
                &&& final(self).config == old(self).config
                &&& final(self).approved_proposals@ == old(self).approved_proposals@
                &&& final(self).paused == old(self).paused
            },
    {
        if self.paused {
            return Err(ContractError::Paused);
        }
        if ctx.attached_deposit.0 != 1 {
            return Err(ContractError::RequiresOneYocto);
        }
        match self.assert_called_by_approver(ctx) {
            Ok(()) => {},
            Err(e) => return Err(e),
        }
        let mut proposal = match self.check_created(ctx, proposal_id) {
            Ok(p) => p,
            Err(e) => return Err(e),
        };
        proposal.rejected = true;
        proposal.status = ProposalStatus::Rejected;
        let ghost s0 = *self;
        self.internal_set_proposal(proposal);
        proof {
            self.lemma_changed_proposal(s0, proposal_id as int);
        }
        Ok(())
    }

    /// After one proposal changed in a way that keeps it well formed and
    /// its options, the contract is as consistent as before.
    pub proof fn lemma_changed_proposal(self, before: Contract, id: int)
        requires
            before.wf(),
            0 <= id < before.num_proposals(),
            self.proposals@ == before.proposals@.update(id, self.proposals@[id]),
            self.proposal(id).id == id,
            self.proposal(id).wf(),
            self.proposal(id).votes@.len() == before.proposal(id).votes@.len(),
            self.proposal(id).total_votes == before.proposal(id).total_votes,
            self.proposal_metadata@ == before.proposal_metadata@,
            self.voters@ == before.voters@,
            self.num_voters == before.num_voters,
            self.votes@ == before.votes@,
            self.approved_proposals@ == before.approved_proposals@,
        ensures
            self.wf(),
            forall|i: int| 0 <= i < before.num_proposals() && i != id ==> #[trigger] self.proposal(i) == before.proposal(i),
            forall|a: Seq<char>, i: u32| #[trigger] self.vote_of(a, i) == before.vote_of(a, i),
    {
        assert forall|i: int| 0 <= i < self.proposals@.len() implies (#[trigger] self.proposal(i)).id == i
            && self.proposal(i).wf() by {
            if i != id {
                assert(self.proposal(i) == before.proposal(i));
            }
        }
        assert forall|a: Seq<char>, i: u32| #[trigger] self.vote_of(a, i) is Some implies i < self.proposals@.len()
            && self.vote_of(a, i).unwrap() < self.proposal(i as int).votes@.len() by {
            assert(self.vote_of(a, i) == before.vote_of(a, i));
            if i != id {
                assert(self.proposal(i as int) == before.proposal(i as int));
            }
        }
        assert forall|i: int| 0 <= i < self.proposals@.len() implies #[trigger] self.proposal(i).total_votes.total_votes
            == self.voters_of(i as u32).len() by {
            lemma_same_voters(before, self, i as u32);
            if i != id {
                assert(self.proposal(i) == before.proposal(i));
            }
        }
    }

    /// Why recording the snapshot fails, if it does.
    pub open spec fn on_get_snapshot_error(self, ctx: CallContext, state: VGlobalState, id: u32, voting_start_time_sec: Option<u32>) -> Option<ContractError> {
        let g = state.state();
        if ctx.predecessor_account_id@ != ctx.current_account_id@ {
            Some(ContractError::PermissionDenied)
        } else if self.created_error(ctx, id) is Some {
            self.created_error(ctx, id)
        } else if voting_start(voting_start_time_sec, ctx.block_timestamp) < ctx.block_timestamp {
            Some(ContractError::VotingStartInPast)
        } else if !g.update_ok(ctx.block_timestamp)
            || g.spec_updated(ctx.block_timestamp).total_venear_balance.spec_total() > u128::MAX {
            Some(ContractError::BalanceOutOfRange)
        } else if self.approved_proposals@.len() >= u32::MAX {
            Some(ContractError::CapacityExceeded)
        } else {
            None
        }
    }

    /// Records the veNEAR contract's snapshot for an approved proposal,
    /// called back by the contract itself: the start of voting, the
    /// snapshot with the total veNEAR at the block's time, and who approved it.
    /// The proposal is approved and joins the approved proposals.
    pub fn on_get_snapshot(
        &mut self,
        ctx: &CallContext,
        snapshot: MerkleTreeSnapshot,
        state: VGlobalState,
        proposal_id: ProposalId,
        voting_start_time_sec: Option<u32>,
        reviewer_id: AccountId,
    ) -> (res: Result<Proposal, ContractError>)
        requires
            old(self).wf(),
        ensures
            final(self).wf(),
            res is Err <==> old(self).on_get_snapshot_error(*ctx, state, proposal_id, voting_start_time_sec) is Some,
            res matches Err(e) ==> old(self).on_get_snapshot_error(*ctx, state, proposal_id, voting_start_time_sec)
                == Some(e) && *final(self) == *old(self),
            res matches Ok(p) ==> {
                let g = state.state().spec_updated(ctx.block_timestamp);
                &&& p.same(final(self).proposal(proposal_id as int))
                &&& final(self).proposal(proposal_id as int).same(Proposal {
                    reviewer_id: Some(reviewer_id),
                    voting_start_time_ns: Some(voting_start(voting_start_time_sec, ctx.block_timestamp) as u64),
                    snapshot_and_state: Some(SnapshotAndState {
                        snapshot,
                        timestamp_ns: ctx.block_timestamp,
                        total_venear: NearToken(g.total_venear_balance.spec_total() as u128),
                        venear_growth_config: g.venear_growth_config,
                    }),
                    status: ProposalStatus::Approved,
                    ..old(self).proposal(proposal_id as int)
                })
                &&& final(self).num_proposals() == old(self).num_proposals()
                &&& forall|i: int| 0 <= i < old(self).num_proposals() && i != proposal_id ==> #[trigger] final(self).proposal(i)
                    == old(self).proposal(i)
                &&& forall|a: Seq<char>, i: u32| #[trigger] final(self).vote_of(a, i) == old(self).vote_of(a, i)
                &&& final(self).approved_proposals@ == old(self).approved_proposals@.push(proposal_id)
                &&& final(self).paused == old(self).paused
                &&& final(self).proposal_metadata@ == old(self).proposal_metadata@
                &&& final(self).config == old(self).config
            },
    {
        if ctx.predecessor_account_id != ctx.current_account_id {
            return Err(ContractError::PermissionDenied);
        }
        let mut proposal = match self.check_created(ctx, proposal_id) {
            Ok(p) => p,
            Err(e) => return Err(e),
        };
        let timestamp = ctx.block_timestamp;
        let start: u64 = match voting_start_time_sec {
            Some(s) => s as u64 * 1_000_000_000,
            None => timestamp,
        };
        if start < timestamp {
            return Err(ContractError::VotingStartInPast);
        }
        let mut global_state = GlobalState::from(state);
        if !global_state.try_update(timestamp) {
            return Err(ContractError::BalanceOutOfRange);
        }
        let total_venear = match global_state.total_venear_balance.try_total() {
            Some(t) => t,
            None => return Err(ContractError::BalanceOutOfRange),
        };
        if self.approved_proposals.len() >= u32::MAX as usize {
            return Err(ContractError::CapacityExceeded);
        }
        proposal.reviewer_id = Some(reviewer_id);
        proposal.voting_start_time_ns = Some(start);
        proposal.snapshot_and_state = Some(SnapshotAndState {
            snapshot,
            timestamp_ns: timestamp,
            total_venear,
            venear_growth_config: global_state.venear_growth_config,
        });
        proposal.status = ProposalStatus::Approved;
        let result = proposal.duplicate();
        let ghost s0 = *self;
        self.internal_set_proposal(proposal);
        let ghost s1 = *self;
        self.approved_proposals.push(proposal_id);
        proof {
            s1.lemma_changed_proposal(s0, proposal_id as int);
            assert forall|j: int| 0 <= j < self.approved_proposals@.len() implies #[trigger] self.approved_proposals@[j]
                < self.proposals@.len() by {
                if j < s1.approved_proposals@.len() {
                    assert(self.approved_proposals@[j] == s1.approved_proposals@[j]);
                }
            }
            assert forall|a: Seq<char>, i: u32| #[trigger] self.vote_of(a, i) == s1.vote_of(a, i) by {}
            assert forall|a: Seq<char>, i: u32| #[trigger] self.vote_of(a, i) is Some implies i < self.proposals@.len()
                && self.vote_of(a, i).unwrap() < self.proposal(i as int).votes@.len() by {
                assert(self.vote_of(a, i) == s1.vote_of(a, i));
            }
            assert forall|i: int| 0 <= i < self.proposals@.len() implies (#[trigger] self.proposal(i)).id == i
                && self.proposal(i).wf() && self.proposal(i).total_votes.total_votes == self.voters_of(i as u32).len() by {
                assert(self.proposal(i) == s1.proposal(i));
                lemma_same_voters(s1, *self, i as u32);
            }
        }
        Ok(result)
    }
}

} // verus!
