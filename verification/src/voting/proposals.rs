//! Creating proposals.
use vstd::prelude::*;
use crate::context::{CallContext, Transfer};
use crate::error::ContractError;
use crate::token::NearToken;
use crate::voting::{lemma_same_voters, Contract, Proposal, ProposalId, ProposalMetadata, ProposalStatus, VProposal, VProposalMetadata, VoteStats};

verus! {

impl Contract {
    /// What creating a proposal that takes `storage_bytes` of storage
    /// requires to be attached: the proposal fee and the storage.
    pub open spec fn proposal_cost(self, ctx: CallContext, storage_bytes: u64) -> int {
        self.config.proposal_fee.0 + ctx.storage_byte_cost.0 * storage_bytes
    }

    /// Why creating a proposal fails, if it does.
    pub open spec fn create_proposal_error(self, ctx: CallContext, metadata: ProposalMetadata, storage_bytes: u64) -> Option<ContractError> {
        let n = metadata.voting_options@.len();
        if self.paused {
            Some(ContractError::Paused)
        } else if n < 2 {
            Some(ContractError::TooFewOptions)
        } else if n > self.config.max_number_of_voting_options {
            Some(ContractError::TooManyOptions)
        } else if metadata.quorum_percentage matches Some(q) && q > 100 {
            Some(ContractError::InvalidQuorumPercentage)
        } else if self.num_proposals() >= u32::MAX {
            Some(ContractError::CapacityExceeded)
        } else if self.proposal_cost(ctx, storage_bytes) > u128::MAX {
            Some(ContractError::BalanceOutOfRange)
        } else if ctx.attached_deposit.0 < self.proposal_cost(ctx, storage_bytes) {
            Some(ContractError::InsufficientDeposit)
        } else {
            None
        }
    }

    /// The quorum of a proposal created with `metadata`: the one it gives,
    /// or the configured default.
    pub open spec fn quorum_for(self, metadata: ProposalMetadata) -> u8 {
        match metadata.quorum_percentage {
            Some(q) => q,
            None => self.config.default_quorum_percentage,
        }
    }

    /// A new proposal: created by the caller at the block's time, with the
    /// configured voting duration, the quorum that `metadata` asks for (or
    /// the default) and no votes on any of its options.
    pub open spec fn is_new_proposal(self, p: Proposal, ctx: CallContext, id: int, metadata: ProposalMetadata) -> bool {
        let n = metadata.voting_options@.len();
        &&& p.id == id
        &&& p.creation_time_ns == ctx.block_timestamp
        &&& p.proposer_id == ctx.predecessor_account_id
        &&& p.reviewer_id is None
        &&& p.voting_start_time_ns is None
        &&& p.voting_duration_ns == self.config.voting_duration_ns
        &&& !p.rejected
        &&& p.snapshot_and_state is None
        &&& p.votes@ == Seq::new(n, |i: int| VoteStats { total_venear: NearToken(0), total_votes: 0 })
        &&& p.total_votes == VoteStats { total_venear: NearToken(0), total_votes: 0 }
        &&& p.status == ProposalStatus::Created
        &&& p.quorum_percentage == self.quorum_for(metadata)
    }

    /// Creates a proposal with 2 to the configured most voting options, and
    /// a quorum of at most 100 percent when it gives one (the configured
    /// default otherwise), and returns its index. `storage_bytes` is the storage that the
    /// proposal and its metadata take; the attached deposit must cover the
    /// proposal fee and that storage, and what it covers beyond is refunded.
    pub fn create_proposal(&mut self, ctx: &CallContext, metadata: ProposalMetadata, storage_bytes: u64) -> (res: Result<(ProposalId, Option<Transfer>), ContractError>)
        requires
            old(self).wf(),
        ensures
            final(self).wf(),
            res is Err <==> old(self).create_proposal_error(*ctx, metadata, storage_bytes) is Some,
            res matches Err(e) ==> old(self).create_proposal_error(*ctx, metadata, storage_bytes) == Some(e)
                && *final(self) == *old(self),
            res matches Ok((id, refund)) ==> {
                let cost = old(self).proposal_cost(*ctx, storage_bytes);
                &&& id == old(self).num_proposals()
                &&& final(self).num_proposals() == old(self).num_proposals() + 1
                &&& old(self).is_new_proposal(final(self).proposal(id as int), *ctx, id as int, metadata)
                &&& forall|i: int| 0 <= i < old(self).num_proposals() ==> #[trigger] final(self).proposal(i) == old(self).proposal(i)
                &&& final(self).proposal_metadata@ == old(self).proposal_metadata@.push(VProposalMetadata::Current(metadata))
                &&& forall|a: Seq<char>, i: u32| #[trigger] final(self).vote_of(a, i) == old(self).vote_of(a, i)
                &&& final(self).config == old(self).config
                &&& final(self).approved_proposals@ == old(self).approved_proposals@
                &&& final(self).paused == old(self).paused
                &&& refund == if ctx.attached_deposit.0 > cost {
                    Some(Transfer { receiver_id: ctx.predecessor_account_id, amount: NearToken((ctx.attached_deposit.0 - cost) as u128) })
                } else {
                    None
                }
            },
    {
        if self.paused {
            return Err(ContractError::Paused);
        }
        let num_voting_options = metadata.voting_options.len();
        if num_voting_options < 2 {
            return Err(ContractError::TooFewOptions);
        }
        if num_voting_options > self.config.max_number_of_voting_options as usize {
            return Err(ContractError::TooManyOptions);
        }
        let quorum_percentage = match metadata.quorum_percentage {
            Some(q) => {
                if q > 100 {
                    return Err(ContractError::InvalidQuorumPercentage);
                }
                q
            },
            None => self.config.default_quorum_percentage,
        };
        if self.proposals.len() >= u32::MAX as usize {
            return Err(ContractError::CapacityExceeded);
        }
        let storage_cost = match ctx.storage_byte_cost.0.checked_mul(storage_bytes as u128) {
            Some(c) => c,
            None => return Err(ContractError::BalanceOutOfRange),
        };
        let required = match self.config.proposal_fee.0.checked_add(storage_cost) {
            Some(r) => r,
            None => return Err(ContractError::BalanceOutOfRange),
        };
        if ctx.attached_deposit.0 < required {
            return Err(ContractError::InsufficientDeposit);
        }
        let proposal_id = self.proposals.len() as u32;
        let mut votes: Vec<VoteStats> = Vec::new();
        let mut i: usize = 0;
        while i < num_voting_options
            invariant
                i <= num_voting_options,
                votes@ == Seq::new(i as nat, |j: int| VoteStats { total_venear: NearToken(0), total_votes: 0 }),
            decreases num_voting_options - i,
        {
            votes.push(VoteStats::default());
            i = i + 1;
            assert(votes@ =~= Seq::new(i as nat, |j: int| VoteStats { total_venear: NearToken(0), total_votes: 0 }));
        }
        let proposal = Proposal {
            id: proposal_id,
            creation_time_ns: ctx.block_timestamp,
            proposer_id: ctx.predecessor_account_id.clone(),
            reviewer_id: None,
            voting_start_time_ns: None,
            voting_duration_ns: self.config.voting_duration_ns,
            rejected: false,
            snapshot_and_state: None,
            votes,
            total_votes: VoteStats::default(),
            status: ProposalStatus::Created,
            quorum_percentage,
        };
        let ghost s0 = *self;
        proof {
            crate::voting::lemma_tally_zero(num_voting_options as nat);
        }
        self.proposals.push(VProposal::from(proposal));
        self.proposal_metadata.push(VProposalMetadata::from(metadata));
        proof {
            assert forall|i: int| 0 <= i < s0.num_proposals() implies #[trigger] self.proposal(i) == s0.proposal(i) by {
                assert(self.proposals@[i] == s0.proposals@[i]);
            }
            assert forall|i: int| 0 <= i < self.proposals@.len() implies (#[trigger] self.proposal(i)).id == i
                && self.proposal(i).wf() by {
                if i < s0.num_proposals() {
                    assert(self.proposal(i) == s0.proposal(i));
                }
            }
            assert forall|a: Seq<char>, i: u32| #[trigger] self.vote_of(a, i) is Some implies i < self.proposals@.len()
                && self.vote_of(a, i).unwrap() < self.proposal(i as int).votes@.len() by {
                assert(self.vote_of(a, i) == s0.vote_of(a, i));
                assert(self.proposal(i as int) == s0.proposal(i as int));
            }
            assert forall|i: int| 0 <= i < self.proposals@.len() implies #[trigger] self.proposal(i).total_votes.total_votes
                == self.voters_of(i as u32).len() by {
                lemma_same_voters(s0, *self, i as u32);
                if i < s0.num_proposals() {
                    assert(self.proposal(i) == s0.proposal(i));
                } else {
                    assert(s0.voters_of(i as u32) =~= Set::empty());
                }
            }
        }
        let refund = if ctx.attached_deposit.0 > required {
            Some(Transfer { receiver_id: ctx.predecessor_account_id.clone(), amount: NearToken(ctx.attached_deposit.0 - required) })
        } else {
            None
        };
        Ok((proposal_id, refund))
    }
}

} // verus!
