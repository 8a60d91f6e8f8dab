//! Changes to the voting contract's configuration, which only its owner can
//! make, each with exactly one yoctoNEAR attached.
use vstd::prelude::*;
use crate::account::AccountId;
use crate::context::CallContext;
use crate::error::ContractError;
use crate::token::NearToken;
use crate::voting::{lemma_same_voters, Config, Contract};

verus! {

impl Contract {
    /// Why an owner's call is refused, if it is.
    pub open spec fn owner_call_error(self, ctx: CallContext) -> Option<ContractError> {
        if !ctx.one_yocto() {
            Some(ContractError::RequiresOneYocto)
        } else if ctx.predecessor_account_id@ != self.config.owner_account_id@ {
            Some(ContractError::NotOwner)
        } else {
            None
        }
    }

    /// Only the configuration may differ.
    pub open spec fn same_but_config(self, other: Contract) -> bool {
        &&& self.same_records(other)
        &&& self.paused == other.paused
    }

    /// The proposals, their metadata and the votes are the same.
    pub open spec fn same_records(self, other: Contract) -> bool {
        &&& self.proposals == other.proposals
        &&& self.proposal_metadata == other.proposal_metadata
        &&& self.voters == other.voters
        &&& self.num_voters == other.num_voters
        &&& self.votes == other.votes
        &&& self.approved_proposals == other.approved_proposals
    }

    /// A state that differs only in its configuration is as consistent.
    pub proof fn lemma_same_but_config(self, other: Contract)
        requires
            self.wf(),
            other.same_records(self),
        ensures
            other.wf(),
    {
        assert forall|i: int| 0 <= i < other.proposals@.len() implies (#[trigger] other.proposal(i)).id == i
            && other.proposal(i).wf() by {
            assert(other.proposal(i) == self.proposal(i));
        }
        assert forall|a: Seq<char>, i: u32| #[trigger] other.vote_of(a, i) is Some implies i < other.proposals@.len()
            && other.vote_of(a, i).unwrap() < other.proposal(i as int).votes@.len() by {
            assert(other.vote_of(a, i) == self.vote_of(a, i));
        }
        assert forall|i: int| 0 <= i < other.proposals@.len() implies #[trigger] other.proposal(i).total_votes.total_votes
            == other.voters_of(i as u32).len() by {
            assert(other.proposal(i) == self.proposal(i));
            lemma_same_voters(self, other, i as u32);
        }
    }

    /// The caller is the owner.
    pub fn assert_owner(&self, ctx: &CallContext) -> (res: Result<(), ContractError>)
        ensures
            res is Ok <==> ctx.predecessor_account_id@ == self.config.owner_account_id@,
            res matches Err(e) ==> e == ContractError::NotOwner,
    {
        if ctx.predecessor_account_id == self.config.owner_account_id {
            Ok(())
        } else {
            Err(ContractError::NotOwner)
        }
    }

    fn check_owner_call(&self, ctx: &CallContext) -> (res: Result<(), ContractError>)
        ensures
            res is Err <==> self.owner_call_error(*ctx) is Some,
            res matches Err(e) ==> self.owner_call_error(*ctx) == Some(e),
    {
        if ctx.attached_deposit.0 != 1 {
            return Err(ContractError::RequiresOneYocto);
        }
        self.assert_owner(ctx)
    }

    /// Sets the veNEAR contract.
    pub fn set_venear_account_id(&mut self, ctx: &CallContext, venear_account_id: AccountId) -> (res: Result<(), ContractError>)
        requires
            old(self).wf(),
        ensures
            final(self).wf(),
            res is Err <==> old(self).owner_call_error(*ctx) is Some,
            res matches Err(e) ==> old(self).owner_call_error(*ctx) == Some(e) && *final(self) == *old(self),
            res is Ok ==> final(self).config == (Config { venear_account_id, ..old(self).config })
                && final(self).same_but_config(*old(self)),
    {
        match self.check_owner_call(ctx) {
            Ok(()) => {},
            Err(e) => return Err(e),
        }
        let ghost s0 = *self;
        self.config.venear_account_id = venear_account_id;
        proof { s0.lemma_same_but_config(*self); }
        Ok(())
    }

    /// Sets the approver.
    pub fn set_approver_id(&mut self, ctx: &CallContext, approver_id: AccountId) -> (res: Result<(), ContractError>)
        requires
            old(self).wf(),
        ensures
            final(self).wf(),
            res is Err <==> old(self).owner_call_error(*ctx) is Some,
            res matches Err(e) ==> old(self).owner_call_error(*ctx) == Some(e) && *final(self) == *old(self),
            res is Ok ==> final(self).config == (Config { approver_id, ..old(self).config })
                && final(self).same_but_config(*old(self)),
    {
        match self.check_owner_call(ctx) {
            Ok(()) => {},
            Err(e) => return Err(e),
        }
        let ghost s0 = *self;
        self.config.approver_id = approver_id;
        proof { s0.lemma_same_but_config(*self); }
        Ok(())
    }

    /// Sets the duration of voting, given in seconds.
    pub fn set_voting_duration(&mut self, ctx: &CallContext, voting_duration_sec: u32) -> (res: Result<(), ContractError>)
        requires
            old(self).wf(),
        ensures
            final(self).wf(),
            res is Err <==> old(self).owner_call_error(*ctx) is Some,
            res matches Err(e) ==> old(self).owner_call_error(*ctx) == Some(e) && *final(self) == *old(self),
            res is Ok ==> final(self).config == (Config {
                voting_duration_ns: (voting_duration_sec * 1_000_000_000) as u64,
                ..old(self).config
            }) && final(self).same_but_config(*old(self)),
    {
        match self.check_owner_call(ctx) {
            Ok(()) => {},
            Err(e) => return Err(e),
        }
        let ghost s0 = *self;
        self.config.voting_duration_ns = voting_duration_sec as u64 * 1_000_000_000;
        proof { s0.lemma_same_but_config(*self); }
        Ok(())
    }

    /// Sets the fee for creating a proposal.
    pub fn set_base_proposal_fee(&mut self, ctx: &CallContext, base_proposal_fee: NearToken) -> (res: Result<(), ContractError>)
        requires
            old(self).wf(),
        ensures
            final(self).wf(),
            res is Err <==> old(self).owner_call_error(*ctx) is Some,
            res matches Err(e) ==> old(self).owner_call_error(*ctx) == Some(e) && *final(self) == *old(self),
            res is Ok ==> final(self).config == (Config { proposal_fee: base_proposal_fee, ..old(self).config })
                && final(self).same_but_config(*old(self)),
    {
        match self.check_owner_call(ctx) {
            Ok(()) => {},
            Err(e) => return Err(e),
        }
        let ghost s0 = *self;
        self.config.proposal_fee = base_proposal_fee;
        proof { s0.lemma_same_but_config(*self); }
        Ok(())
    }

    /// The vote storage fee cannot change without an upgrade: the fees of
    /// earlier votes would be refunded at the new rate.
    pub fn set_vote_storage_fee(&mut self, vote_storage_fee: NearToken) -> (res: Result<(), ContractError>)
        ensures
            res == Err::<(), ContractError>(ContractError::FeeFixed),
            *final(self) == *old(self),
    {
        Err(ContractError::FeeFixed)
    }

    /// Sets the most voting options a proposal can have.
    pub fn set_max_number_of_voting_options(&mut self, ctx: &CallContext, max_number_of_voting_options: u16) -> (res: Result<(), ContractError>)
        requires
            old(self).wf(),
        ensures
            final(self).wf(),
            res is Err <==> old(self).owner_call_error(*ctx) is Some,
            res matches Err(e) ==> old(self).owner_call_error(*ctx) == Some(e) && *final(self) == *old(self),
            res is Ok ==> final(self).config == (Config { max_number_of_voting_options, ..old(self).config })
                && final(self).same_but_config(*old(self)),
    {
        match self.check_owner_call(ctx) {
            Ok(()) => {},
            Err(e) => return Err(e),
        }
        let ghost s0 = *self;
        self.config.max_number_of_voting_options = max_number_of_voting_options;
        proof { s0.lemma_same_but_config(*self); }
        Ok(())
    }

    /// Why setting the default quorum fails, if it does: the owner's call
    /// rules, then a percentage above 100.
    pub open spec fn set_default_quorum_error(self, ctx: CallContext, default_quorum_percentage: u8) -> Option<ContractError> {
        if self.owner_call_error(ctx) is Some {
            self.owner_call_error(ctx)
        } else if default_quorum_percentage > 100 {
            Some(ContractError::InvalidQuorumPercentage)
        } else {
            None
        }
    }

    /// Sets the quorum, in percent, of proposals created from now on that
    /// give none; proposals already created keep theirs.
    pub fn set_default_quorum_percentage(&mut self, ctx: &CallContext, default_quorum_percentage: u8) -> (res: Result<(), ContractError>)
        requires
            old(self).wf(),
        ensures
            final(self).wf(),
            res is Err <==> old(self).set_default_quorum_error(*ctx, default_quorum_percentage) is Some,
            res matches Err(e) ==> old(self).set_default_quorum_error(*ctx, default_quorum_percentage) == Some(e)
                && *final(self) == *old(self),
            res is Ok ==> final(self).config == (Config { default_quorum_percentage, ..old(self).config })
                && final(self).same_but_config(*old(self)),
    {
        match self.check_owner_call(ctx) {
            Ok(()) => {},
            Err(e) => return Err(e),
        }
        if default_quorum_percentage > 100 {
            return Err(ContractError::InvalidQuorumPercentage);
        }
        let ghost s0 = *self;
        self.config.default_quorum_percentage = default_quorum_percentage;
        proof { s0.lemma_same_but_config(*self); }
        Ok(())
    }

    /// Why pausing is refused, if it is: it needs one yoctoNEAR and a
    /// guardian or the owner.
    pub open spec fn pause_error(self, ctx: CallContext) -> Option<ContractError> {
        if !ctx.one_yocto() {
            Some(ContractError::RequiresOneYocto)
        } else if ctx.predecessor_account_id@ != self.config.owner_account_id@
            && !self.config.guardians@.map_values(|g: AccountId| g@).contains(ctx.predecessor_account_id@) {
            Some(ContractError::NotGuardian)
        } else {
            None
        }
    }

    /// Pauses the contract: a guardian or the owner can, with exactly one
    /// yoctoNEAR.
    pub fn pause(&mut self, ctx: &CallContext) -> (res: Result<(), ContractError>)
        requires
            old(self).wf(),
        ensures
            final(self).wf(),
            res is Err <==> old(self).pause_error(*ctx) is Some,
            res matches Err(e) ==> old(self).pause_error(*ctx) == Some(e) && *final(self) == *old(self),
            res is Ok ==> final(self).paused && final(self).config == old(self).config
                && final(self).same_records(*old(self)),
    {
        if ctx.attached_deposit.0 != 1 {
            return Err(ContractError::RequiresOneYocto);
        }
        let mut allowed = ctx.predecessor_account_id == self.config.owner_account_id;
        let mut i: usize = 0;
        let ghost ids = self.config.guardians@.map_values(|g: AccountId| g@);
        while i < self.config.guardians.len()
            invariant
                i <= self.config.guardians@.len(),
                ids == self.config.guardians@.map_values(|g: AccountId| g@),
                allowed <==> (ctx.predecessor_account_id@ == self.config.owner_account_id@
                    || exists|j: int| 0 <= j < i && #[trigger] ids[j] == ctx.predecessor_account_id@),
            decreases self.config.guardians@.len() - i,
        {
            proof {
                assert(ids[i as int] == self.config.guardians@[i as int]@);
            }
            if self.config.guardians[i] == ctx.predecessor_account_id {
                allowed = true;
            }
            i = i + 1;
        }
        if !allowed {
            return Err(ContractError::NotGuardian);
        }
        let ghost s0 = *self;
        self.paused = true;
        proof { s0.lemma_same_but_config(*self); }
        Ok(())
    }

    /// Unpauses the contract: only the owner can, with exactly one yoctoNEAR.
    pub fn unpause(&mut self, ctx: &CallContext) -> (res: Result<(), ContractError>)
        requires
            old(self).wf(),
        ensures
            final(self).wf(),
            res is Err <==> old(self).owner_call_error(*ctx) is Some,
            res matches Err(e) ==> old(self).owner_call_error(*ctx) == Some(e) && *final(self) == *old(self),
            res is Ok ==> !final(self).paused && final(self).config == old(self).config
                && final(self).same_records(*old(self)),
    {
        match self.check_owner_call(ctx) {
            Ok(()) => {},
            Err(e) => return Err(e),
        }
        let ghost s0 = *self;
        self.paused = false;
        proof { s0.lemma_same_but_config(*self); }
        Ok(())
    }

    /// Whether the contract is paused.
    pub fn is_paused(&self) -> (res: bool)
        ensures
            res == self.paused,
    {
        self.paused
    }

    /// Sets the accounts that can pause the contract.
    pub fn set_guardians(&mut self, ctx: &CallContext, guardians: Vec<AccountId>) -> (res: Result<(), ContractError>)
        requires
            old(self).wf(),
        ensures
            final(self).wf(),
            res is Err <==> old(self).owner_call_error(*ctx) is Some,
            res matches Err(e) ==> old(self).owner_call_error(*ctx) == Some(e) && *final(self) == *old(self),
            res is Ok ==> final(self).config == (Config { guardians, ..old(self).config })
                && final(self).same_but_config(*old(self)),
    {
        match self.check_owner_call(ctx) {
            Ok(()) => {},
            Err(e) => return Err(e),
        }
        let ghost s0 = *self;
        self.config.guardians = guardians;
        proof { s0.lemma_same_but_config(*self); }
        Ok(())
    }

    /// Hands the ownership to another account.
    pub fn set_owner_account_id(&mut self, ctx: &CallContext, owner_account_id: AccountId) -> (res: Result<(), ContractError>)
        requires
            old(self).wf(),
        ensures
            final(self).wf(),
            res is Err <==> old(self).owner_call_error(*ctx) is Some,
            res matches Err(e) ==> old(self).owner_call_error(*ctx) == Some(e) && *final(self) == *old(self),
            res is Ok ==> final(self).config == (Config { owner_account_id, ..old(self).config })
                && final(self).same_but_config(*old(self)),
    {
        match self.check_owner_call(ctx) {
            Ok(()) => {},
            Err(e) => return Err(e),
        }
        let ghost s0 = *self;
        self.config.owner_account_id = owner_account_id;
        proof { s0.lemma_same_but_config(*self); }
        Ok(())
    }
}

} // verus!
