//! Changes to the veNEAR contract's configuration, which only its owner can
//! make, each with exactly one yoctoNEAR attached.
use vstd::prelude::*;
use crate::account::AccountId;
use crate::context::CallContext;
use crate::crypto::CryptoHash;
use crate::error::ContractError;
use crate::token::NearToken;
use crate::venear_contract::{Config, Contract};

verus! {

impl Contract {
    /// Why an owner's call is refused, if it is.
    pub open spec fn owner_call_error(self, ctx: CallContext) -> Option<ContractError> {
        if !ctx.one_yocto() {
            Some(ContractError::RequiresOneYocto)
        } else if ctx.predecessor_account_id@ != self.config.owner_account_id@ {
            Some(ContractError::NotOwner)
        } else {
            None
        }
    }

    /// Only the configuration may differ.
    pub open spec fn same_but_config(self, other: Contract) -> bool {
        &&& self.tree == other.tree
        &&& self.accounts == other.accounts
        &&& self.paused == other.paused
        &&& self.lockup_codes == other.lockup_codes
        &&& self.lsts == other.lsts
    }

    /// The caller is the owner.
    pub fn assert_owner(&self, ctx: &CallContext) -> (res: Result<(), ContractError>)
        ensures
            res is Ok <==> ctx.predecessor_account_id@ == self.config.owner_account_id@,
            res matches Err(e) ==> e == ContractError::NotOwner,
    {
        if ctx.predecessor_account_id == self.config.owner_account_id {
            Ok(())
        } else {
            Err(ContractError::NotOwner)
        }
    }

    fn check_owner_call(&self, ctx: &CallContext) -> (res: Result<(), ContractError>)
        ensures
            res is Err <==> self.owner_call_error(*ctx) is Some,
            res matches Err(e) ==> self.owner_call_error(*ctx) == Some(e),
    {
        if ctx.attached_deposit.0 != 1 {
            return Err(ContractError::RequiresOneYocto);
        }
        self.assert_owner(ctx)
    }

    /// Why pausing is refused, if it is: it needs one yoctoNEAR and a
    /// guardian or the owner.
    pub open spec fn pause_error(self, ctx: CallContext) -> Option<ContractError> {
        if !ctx.one_yocto() {
            Some(ContractError::RequiresOneYocto)
        } else if ctx.predecessor_account_id@ != self.config.owner_account_id@
            && !self.config.guardians@.map_values(|g: AccountId| g@).contains(ctx.predecessor_account_id@) {
            Some(ContractError::NotGuardian)
        } else {
            None
        }
    }

    /// Pauses the contract: a guardian or the owner can, with exactly one
    /// yoctoNEAR.
    pub fn pause(&mut self, ctx: &CallContext) -> (res: Result<(), ContractError>)
        requires
            old(self).wf(),
        ensures
            final(self).wf(),
            res is Err <==> old(self).pause_error(*ctx) is Some,
            res matches Err(e) ==> old(self).pause_error(*ctx) == Some(e) && *final(self) == *old(self),
            res is Ok ==> *final(self) == (Contract { paused: true, ..*old(self) }),
    {
        if ctx.attached_deposit.0 != 1 {
            return Err(ContractError::RequiresOneYocto);
        }
        let mut allowed = ctx.predecessor_account_id == self.config.owner_account_id;
        let mut i: usize = 0;
        let ghost ids = self.config.guardians@.map_values(|g: AccountId| g@);
        while i < self.config.guardians.len()
            invariant
                i <= self.config.guardians@.len(),
                ids == self.config.guardians@.map_values(|g: AccountId| g@),
                allowed <==> (ctx.predecessor_account_id@ == self.config.owner_account_id@
                    || exists|j: int| 0 <= j < i && #[trigger] ids[j] == ctx.predecessor_account_id@),
            decreases self.config.guardians@.len() - i,
        {
            proof {
                assert(ids[i as int] == self.config.guardians@[i as int]@);
            }
            if self.config.guardians[i] == ctx.predecessor_account_id {
                allowed = true;
            }
            i = i + 1;
        }
        if !allowed {
            return Err(ContractError::NotGuardian);
        }
        let ghost s0 = *self;
        self.paused = true;
        proof {
            s0.lemma_same_tree(*self);
        }
        Ok(())
    }

    /// Unpauses the contract: only the owner can, with exactly one yoctoNEAR.
    pub fn unpause(&mut self, ctx: &CallContext) -> (res: Result<(), ContractError>)
        requires
            old(self).wf(),
        ensures
            final(self).wf(),
            res is Err <==> old(self).owner_call_error(*ctx) is Some,
            res matches Err(e) ==> old(self).owner_call_error(*ctx) == Some(e) && *final(self) == *old(self),
            res is Ok ==> *final(self) == (Contract { paused: false, ..*old(self) }),
    {
        match self.check_owner_call(ctx) {
            Ok(()) => {},
            Err(e) => return Err(e),
        }
        let ghost s0 = *self;
        self.paused = false;
        proof {
            s0.lemma_same_tree(*self);
        }
        Ok(())
    }

    /// Whether the contract is paused.
    pub fn is_paused(&self) -> (res: bool)
        ensures
            res == self.paused,
    {
        self.paused
    }

    /// Sets the accounts that can pause the contract.
    pub fn set_guardians(&mut self, ctx: &CallContext, guardians: Vec<AccountId>) -> (res: Result<(), ContractError>)
        requires
            old(self).wf(),
        ensures
            final(self).wf(),
            res is Err <==> old(self).owner_call_error(*ctx) is Some,
            res matches Err(e) ==> old(self).owner_call_error(*ctx) == Some(e) && *final(self) == *old(self),
            res is Ok ==> final(self).config == (Config { guardians, ..old(self).config })
                && final(self).same_but_config(*old(self)),
    {
        match self.check_owner_call(ctx) {
            Ok(()) => {},
            Err(e) => return Err(e),
        }
        let ghost s0 = *self;
        self.config.guardians = guardians;
        proof {
            s0.lemma_same_tree(*self);
        }
        Ok(())
    }

    /// Makes the code stored under `contract_hash` the lockup code, with the
    /// next version, and sets the least extra deposit of a lockup deployment.
    pub fn set_lockup_contract(&mut self, ctx: &CallContext, contract_hash: CryptoHash, min_lockup_deposit: NearToken) -> (res: Result<(), ContractError>)
        requires
            old(self).wf(),
            old(self).config.lockup_contract_config matches Some(c) ==> c.contract_version < u64::MAX,
        ensures
            final(self).wf(),
            old(self).owner_call_error(*ctx) is Some ==> res == Err::<(), ContractError>(old(self).owner_call_error(*ctx).unwrap())
                && *final(self) == *old(self),
            old(self).owner_call_error(*ctx) is None && !old(self).has_code(contract_hash@) ==> res == Err::<(), ContractError>(
                ContractError::LockupCodeNotFound,
            ) && *final(self) == *old(self),
            old(self).owner_call_error(*ctx) is None && old(self).has_code(contract_hash@) ==> {
                let prev = match old(self).config.lockup_contract_config { Some(c) => c.contract_version as int, None => 0 };
                &&& res is Ok
                &&& (final(self).config.lockup_contract_config matches Some(c) && c.contract_hash == contract_hash
                    && c.contract_version == prev + 1
                    && exists|i: int| 0 <= i < old(self).lockup_codes@.len()
                        && (#[trigger] old(self).lockup_codes@[i]).hash@ == contract_hash@
                        && c.contract_size == old(self).lockup_codes@[i].code@.len())
                &&& final(self).config == Config {
                    lockup_contract_config: final(self).config.lockup_contract_config,
                    min_extra_lockup_deposit: min_lockup_deposit,
                    ..old(self).config
                }
                &&& final(self).same_but_config(*old(self))
            },
    {
        match self.check_owner_call(ctx) {
            Ok(()) => {},
            Err(e) => return Err(e),
        }
        match self.internal_set_lockup(contract_hash) {
            Ok(()) => {},
            Err(e) => return Err(e),
        }
        let ghost s0 = *self;
        self.config.min_extra_lockup_deposit = min_lockup_deposit;
        proof {
            s0.lemma_same_tree(*self);
        }
        Ok(())
    }

    /// Sets the local deposit of new accounts.
    pub fn set_local_deposit(&mut self, ctx: &CallContext, local_deposit: NearToken) -> (res: Result<(), ContractError>)
        requires
            old(self).wf(),
        ensures
            final(self).wf(),
            res is Err <==> old(self).owner_call_error(*ctx) is Some,
            res matches Err(e) ==> old(self).owner_call_error(*ctx) == Some(e) && *final(self) == *old(self),
            res is Ok ==> final(self).config == (Config { local_deposit, ..old(self).config })
                && final(self).same_but_config(*old(self)),
    {
        match self.check_owner_call(ctx) {
            Ok(()) => {},
            Err(e) => return Err(e),
        }
        let ghost s0 = *self;
        self.config.local_deposit = local_deposit;
        proof {
            s0.lemma_same_tree(*self);
        }
        Ok(())
    }

    /// Sets the staking pool whitelist of new lockups.
    pub fn set_staking_pool_whitelist_account_id(&mut self, ctx: &CallContext, staking_pool_whitelist_account_id: AccountId) -> (res: Result<(), ContractError>)
        requires
            old(self).wf(),
        ensures
            final(self).wf(),
            res is Err <==> old(self).owner_call_error(*ctx) is Some,
            res matches Err(e) ==> old(self).owner_call_error(*ctx) == Some(e) && *final(self) == *old(self),
            res is Ok ==> final(self).config == (Config { staking_pool_whitelist_account_id, ..old(self).config })
                && final(self).same_but_config(*old(self)),
    {
        match self.check_owner_call(ctx) {
            Ok(()) => {},
            Err(e) => return Err(e),
        }
        let ghost s0 = *self;
        self.config.staking_pool_whitelist_account_id = staking_pool_whitelist_account_id;
        proof {
            s0.lemma_same_tree(*self);
        }
        Ok(())
    }

    /// Hands the ownership to another account.
    pub fn set_owner_account_id(&mut self, ctx: &CallContext, owner_account_id: AccountId) -> (res: Result<(), ContractError>)
        requires
            old(self).wf(),
        ensures
            final(self).wf(),
            res is Err <==> old(self).owner_call_error(*ctx) is Some,
            res matches Err(e) ==> old(self).owner_call_error(*ctx) == Some(e) && *final(self) == *old(self),
            res is Ok ==> final(self).config == (Config { owner_account_id, ..old(self).config })
                && final(self).same_but_config(*old(self)),
    {
        match self.check_owner_call(ctx) {
            Ok(()) => {},
            Err(e) => return Err(e),
        }
        let ghost s0 = *self;
        self.config.owner_account_id = owner_account_id;
        proof {
            s0.lemma_same_tree(*self);
        }
        Ok(())
    }

    /// Sets the unlock duration, in nanoseconds, of new lockups.
    pub fn set_unlock_duration_ns(&mut self, ctx: &CallContext, unlock_duration_ns: u64) -> (res: Result<(), ContractError>)
        requires
            old(self).wf(),
        ensures
            final(self).wf(),
            res is Err <==> old(self).owner_call_error(*ctx) is Some,
            res matches Err(e) ==> old(self).owner_call_error(*ctx) == Some(e) && *final(self) == *old(self),
            res is Ok ==> final(self).config == (Config { lockup_duration_ns: unlock_duration_ns, ..old(self).config })
                && final(self).same_but_config(*old(self)),
    {
        match self.check_owner_call(ctx) {
            Ok(()) => {},
            Err(e) => return Err(e),
        }
        let ghost s0 = *self;
        self.config.lockup_duration_ns = unlock_duration_ns;
        proof {
            s0.lemma_same_tree(*self);
        }
        Ok(())
    }

    /// Sets the accounts that can store lockup code.
    pub fn set_lockup_code_deployers(&mut self, ctx: &CallContext, lockup_code_deployers: Vec<AccountId>) -> (res: Result<(), ContractError>)
        requires
            old(self).wf(),
        ensures
            final(self).wf(),
            res is Err <==> old(self).owner_call_error(*ctx) is Some,
            res matches Err(e) ==> old(self).owner_call_error(*ctx) == Some(e) && *final(self) == *old(self),
            res is Ok ==> final(self).config == (Config { lockup_code_deployers, ..old(self).config })
                && final(self).same_but_config(*old(self)),
    {
        match self.check_owner_call(ctx) {
            Ok(()) => {},
            Err(e) => return Err(e),
        }
        let ghost s0 = *self;
        self.config.lockup_code_deployers = lockup_code_deployers;
        proof {
            s0.lemma_same_tree(*self);
        }
        Ok(())
    }
}

} // verus!
