//! The veNEAR contract's side of the lockup contracts: storing their code,
//! registering accounts and deploying lockups, and taking in the locked
//! NEAR that a lockup reports.
use vstd::prelude::*;
use crate::account::{Account, AccountId, VAccount};
use crate::global_state::GlobalState;
use crate::lockup_update::{LockupUpdateV1, VLockupUpdate};
use crate::venear::VenearBalance;
use crate::venear_contract::{delegates_to, update_error, AccountInternal, VAccountInternal};
use crate::account_id::{internal_map_owner_account_id, lockup_account_id, valid_account_id};
use crate::context::{CallContext, Transfer};
use crate::crypto::{hash_eq, sha256, sha256_digest, CryptoHash};
use crate::error::ContractError;
use crate::token::{NearToken, TimestampNs, Version};
use crate::venear_contract::{Contract, LockupCode, LockupContractConfig};

verus! {

/// The storage, in bytes, that a stored lockup code takes beyond its length.
pub const CONTRACT_CODE_EXTRA_STORAGE_BYTES: u64 = 100;

/// The arguments of a new lockup contract's `new`.
#[derive(Clone, Debug)]
pub struct LockupInitArgs {
    pub version: Version,
    pub owner_account_id: AccountId,
    pub lockup_duration: u64,
    pub staking_pool_whitelist_account_id: AccountId,
    /// The starting nonce for lockup updates, unique for every lockup.
    pub lockup_update_nonce: u64,
}

/// The arguments of the `on_lockup_deployed` callback.
#[derive(Clone, Debug)]
pub struct OnLockupDeployedArgs {
    pub version: Version,
    pub account_id: AccountId,
    pub lockup_update_nonce: u64,
}

/// A lockup deployment to perform: create `lockup_account_id`, deploy the
/// code stored under `code_hash`, call its `new` with `init_args`,
/// `deposit` and `deploy_gas`, then call back `on_lockup_deployed` with
/// `callback_args` and `callback_gas`.
#[derive(Clone, Debug)]
pub struct LockupDeployment {
    pub lockup_account_id: AccountId,
    pub code_hash: CryptoHash,
    pub deposit: NearToken,
    pub init_args: LockupInitArgs,
    pub callback_args: OnLockupDeployedArgs,
    /// The gas attached to the deployment and the call of `new`.
    pub deploy_gas: u64,
    /// The gas attached to the callback.
    pub callback_gas: u64,
}

/// The gas, 100 TGas, attached to a lockup deployment.
pub const LOCKUP_DEPLOY_MIN_GAS: u64 = 100_000_000_000_000u64;

/// The gas, 15 TGas, attached to the `on_lockup_deployed` callback.
pub const ON_LOCKUP_DEPLOYED_GAS: u64 = 15_000_000_000_000u64;

/// An account's balance once its lockup reports `locked` NEAR: the locked
/// NEAR plus the local deposit, and the extra veNEAR kept unless that NEAR
/// went down.
pub open spec fn reported_balance(old: VenearBalance, locked: NearToken, deposit: NearToken) -> VenearBalance {
    VenearBalance {
        near_balance: NearToken((locked.0 + deposit.0) as u128),
        extra_venear_balance: if locked.0 + deposit.0 < old.near_balance.0 {
            NearToken(0)
        } else {
            old.extra_venear_balance
        },
    }
}

/// `total` with `old` replaced by `new`.
pub open spec fn replaced(total: VenearBalance, old: VenearBalance, new: VenearBalance) -> VenearBalance {
    total.spec_minus(old).spec_plus(new)
}

/// `old` can be taken out of `total` and `new` put in.
pub open spec fn can_replace(total: VenearBalance, old: VenearBalance, new: VenearBalance) -> bool {
    total.can_sub(old) && total.spec_minus(old).can_add(new)
}

/// Replaces `old` by `new` in `total`, or returns `None` where a component
/// would leave its range.
fn try_replace(total: VenearBalance, old: VenearBalance, new: VenearBalance) -> (res: Option<VenearBalance>)
    ensures
        res is Some <==> can_replace(total, old, new),
        res matches Some(r) ==> r == replaced(total, old, new),
{
    if total.near_balance.0 < old.near_balance.0 {
        return None;
    }
    let mut r = total;
    r.sub_balance(old);
    if r.near_balance.0 > u128::MAX - new.near_balance.0 || r.extra_venear_balance.0 > u128::MAX - new.extra_venear_balance.0 {
        return None;
    }
    r.add_balance(new);
    Some(r)
}

/// The nonce that a lockup deployed at `block_height` starts from.
pub open spec fn initial_nonce(block_height: u64) -> int {
    block_height * 1_000_000
}

/// The size and the SHA-256 of stored code.
pub fn internal_get_hash_and_size(code: &Vec<u8>) -> (res: (u64, CryptoHash))
    ensures
        res.0 == code@.len(),
        res.1@ == sha256_digest(code@),
{
    (code.len() as u64, sha256(code.as_slice()))
}

impl Contract {
    /// Code is stored under `h`.
    pub open spec fn has_code(self, h: Seq<u8>) -> bool {
        exists|i: int| 0 <= i < self.lockup_codes@.len() && (#[trigger] self.lockup_codes@[i]).hash@ == h
    }

    /// The NEAR that a lockup deployment needs beyond its own storage, or
    /// `None` while no lockup code is set.
    pub open spec fn deployment_cost(self, ctx: CallContext) -> Option<int> {
        match self.config.lockup_contract_config {
            None => None,
            Some(c) => Some(ctx.storage_byte_cost.0 * c.contract_size + self.config.min_extra_lockup_deposit.0),
        }
    }

    /// Why the deployment cost cannot be given, if it cannot.
    pub open spec fn deployment_cost_error(self, ctx: CallContext) -> Option<ContractError> {
        match self.deployment_cost(ctx) {
            None => Some(ContractError::LockupCodeNotInitialized),
            Some(c) => if c > u128::MAX { Some(ContractError::BalanceOutOfRange) } else { None },
        }
    }

    /// The index of the code stored under `hash`.
    fn find_code(&self, hash: &CryptoHash) -> (res: Option<usize>)
        ensures
            res is None <==> !self.has_code(hash@),
            res matches Some(i) ==> i < self.lockup_codes@.len() && self.lockup_codes@[i as int].hash@ == hash@,
    {
        let mut i: usize = 0;
        while i < self.lockup_codes.len()
            invariant
                i <= self.lockup_codes@.len(),
                forall|j: int| 0 <= j < i ==> (#[trigger] self.lockup_codes@[j]).hash@ != hash@,
            decreases self.lockup_codes@.len() - i,
        {
            if hash_eq(&self.lockup_codes[i].hash, hash) {
                return Some(i);
            }
            i = i + 1;
        }
        None
    }

    /// The NEAR that deploying a lockup costs: the storage of its code and
    /// the least extra deposit.
    pub fn get_lockup_deployment_cost(&self, ctx: &CallContext) -> (res: Result<NearToken, ContractError>)
        ensures
            res is Err <==> self.deployment_cost_error(*ctx) is Some,
            res matches Err(e) ==> self.deployment_cost_error(*ctx) == Some(e),
            res matches Ok(c) ==> self.deployment_cost(*ctx) == Some(c.0 as int),
    {
        let c = match &self.config.lockup_contract_config {
            None => return Err(ContractError::LockupCodeNotInitialized),
            Some(c) => c,
        };
        let storage = match ctx.storage_byte_cost.0.checked_mul(c.contract_size as u128) {
            None => return Err(ContractError::BalanceOutOfRange),
            Some(s) => s,
        };
        match storage.checked_add(self.config.min_extra_lockup_deposit.0) {
            None => Err(ContractError::BalanceOutOfRange),
            Some(t) => Ok(NearToken(t)),
        }
    }

    /// The NEAR that registering an account costs: a lockup deployment and
    /// the local deposit.
    pub fn get_registration_cost(&self, ctx: &CallContext) -> (res: Result<NearToken, ContractError>)
        ensures
            self.deployment_cost_error(*ctx) is Some ==> res == Err::<NearToken, ContractError>(
                self.deployment_cost_error(*ctx).unwrap(),
            ),
            self.deployment_cost_error(*ctx) is None && self.deployment_cost(*ctx).unwrap()
                + self.config.local_deposit.0 > u128::MAX ==> res == Err::<NearToken, ContractError>(
                ContractError::BalanceOutOfRange,
            ),
            self.deployment_cost_error(*ctx) is None && self.deployment_cost(*ctx).unwrap()
                + self.config.local_deposit.0 <= u128::MAX ==> (res matches Ok(c) && c.0
                == self.deployment_cost(*ctx).unwrap() + self.config.local_deposit.0),
    {
        let deploy = match self.get_lockup_deployment_cost(ctx) {
            Ok(c) => c,
            Err(e) => return Err(e),
        };
        match deploy.checked_add(self.config.local_deposit) {
            None => Err(ContractError::BalanceOutOfRange),
            Some(t) => Ok(t),
        }
    }

    /// Why a lockup for `owner` with `deposit` cannot be planned, if it
    /// cannot.
    pub open spec fn plan_error(self, ctx: CallContext, owner: Seq<char>, deposit: NearToken) -> Option<ContractError> {
        let c = self.config.lockup_contract_config.unwrap();
        if self.deployment_cost_error(ctx) is Some {
            self.deployment_cost_error(ctx)
        } else if deposit.0 < self.deployment_cost(ctx).unwrap() {
            Some(ContractError::InsufficientDeposit)
        } else if !valid_account_id(lockup_account_id(owner, ctx.current_account_id@)) {
            Some(ContractError::InvalidLockupAccountId)
        } else if !self.has_code(c.contract_hash@) {
            Some(ContractError::LockupCodeNotFound)
        } else {
            None
        }
    }

    /// The deployment of `owner`'s lockup with `deposit`: the current code,
    /// the configured duration and whitelist, and a starting nonce from the
    /// block height.
    pub open spec fn planned(self, ctx: CallContext, owner: AccountId, deposit: NearToken, plan: LockupDeployment) -> bool {
        let c = self.config.lockup_contract_config.unwrap();
        let nonce = initial_nonce(ctx.block_height);
        &&& plan.lockup_account_id@ == lockup_account_id(owner@, ctx.current_account_id@)
        &&& plan.code_hash == c.contract_hash
        &&& plan.deposit == deposit
        &&& plan.init_args == LockupInitArgs {
            version: c.contract_version,
            owner_account_id: owner,
            lockup_duration: self.config.lockup_duration_ns,
            staking_pool_whitelist_account_id: self.config.staking_pool_whitelist_account_id,
            lockup_update_nonce: nonce as u64,
        }
        &&& plan.callback_args == OnLockupDeployedArgs {
            version: c.contract_version,
            account_id: owner,
            lockup_update_nonce: nonce as u64,
        }
        &&& plan.deploy_gas == LOCKUP_DEPLOY_MIN_GAS
        &&& plan.callback_gas == ON_LOCKUP_DEPLOYED_GAS
    }

    pub(crate) fn internal_deploy_plan(&self, ctx: &CallContext, owner_account_id: AccountId, lockup_deposit: NearToken) -> (res: Result<LockupDeployment, ContractError>)
        requires
            ctx.block_height <= u64::MAX / 1_000_000,
        ensures
            res is Err <==> self.plan_error(*ctx, owner_account_id@, lockup_deposit) is Some,
            res matches Err(e) ==> self.plan_error(*ctx, owner_account_id@, lockup_deposit) == Some(e),
            res matches Ok(p) ==> self.planned(*ctx, owner_account_id, lockup_deposit, p),
    {
        let required = match self.get_lockup_deployment_cost(ctx) {
            Ok(c) => c,
            Err(e) => return Err(e),
        };
        if lockup_deposit.0 < required.0 {
            return Err(ContractError::InsufficientDeposit);
        }
        let c = match &self.config.lockup_contract_config {
            Some(c) => *c,
            None => return Err(ContractError::LockupCodeNotInitialized),
        };
        let lockup_account_id = match internal_map_owner_account_id(owner_account_id.as_str(), ctx.current_account_id.as_str()) {
            Some(id) => id,
            None => return Err(ContractError::InvalidLockupAccountId),
        };
        if self.find_code(&c.contract_hash).is_none() {
            return Err(ContractError::LockupCodeNotFound);
        }
        let nonce = ctx.block_height * 1_000_000;
        let init_args = LockupInitArgs {
            version: c.contract_version,
            owner_account_id: owner_account_id.clone(),
            lockup_duration: self.config.lockup_duration_ns,
            staking_pool_whitelist_account_id: self.config.staking_pool_whitelist_account_id.clone(),
            lockup_update_nonce: nonce,
        };
        let callback_args = OnLockupDeployedArgs {
            version: c.contract_version,
            account_id: owner_account_id,
            lockup_update_nonce: nonce,
        };
        Ok(LockupDeployment {
            lockup_account_id,
            code_hash: c.contract_hash,
            deposit: lockup_deposit,
            init_args,
            callback_args,
            deploy_gas: LOCKUP_DEPLOY_MIN_GAS,
            callback_gas: ON_LOCKUP_DEPLOYED_GAS,
        })
    }

    /// Why deploying a lockup for a registered `owner` fails, if it does.
    pub open spec fn deploy_error(self, ctx: CallContext, owner: Seq<char>, deposit: NearToken) -> Option<ContractError> {
        if self.internal(owner) is None {
            Some(ContractError::AccountNotRegistered)
        } else {
            self.plan_error(ctx, owner, deposit)
        }
    }

    /// The deployment of the lockup contract of a registered account, paid
    /// with `lockup_deposit`. Nothing changes until the deployment reports
    /// back through `on_lockup_deployed`.
    pub fn internal_deploy_lockup(&self, ctx: &CallContext, owner_account_id: AccountId, lockup_deposit: NearToken) -> (res: Result<LockupDeployment, ContractError>)
        requires
            ctx.block_height <= u64::MAX / 1_000_000,
        ensures
            res is Err <==> self.deploy_error(*ctx, owner_account_id@, lockup_deposit) is Some,
            res matches Err(e) ==> self.deploy_error(*ctx, owner_account_id@, lockup_deposit) == Some(e),
            res matches Ok(p) ==> self.planned(*ctx, owner_account_id, lockup_deposit, p),
    {
        if self.internal_get_account_internal(owner_account_id.as_str()).is_none() {
            return Err(ContractError::AccountNotRegistered);
        }
        self.internal_deploy_plan(ctx, owner_account_id, lockup_deposit)
    }

    /// Deploys the caller's lockup contract with the attached deposit.
    pub fn deploy_lockup(&self, ctx: &CallContext) -> (res: Result<LockupDeployment, ContractError>)
        requires
            ctx.block_height <= u64::MAX / 1_000_000,
        ensures
            self.paused ==> res == Err::<LockupDeployment, ContractError>(ContractError::Paused),
            !self.paused ==> (res is Err <==> self.deploy_error(*ctx, ctx.predecessor_account_id@, ctx.attached_deposit) is Some),
            !self.paused ==> (res matches Err(e) ==> self.deploy_error(*ctx, ctx.predecessor_account_id@, ctx.attached_deposit) == Some(e)),
            res matches Ok(p) ==> self.planned(*ctx, ctx.predecessor_account_id, ctx.attached_deposit, p),
    {
        if self.paused {
            return Err(ContractError::Paused);
        }
        self.internal_deploy_lockup(ctx, ctx.predecessor_account_id.clone(), ctx.attached_deposit)
    }

    /// The account ID of the lockup contract of `account_id`, whether or not
    /// it is deployed; refused where that ID is not a valid account ID.
    pub fn get_lockup_account_id(&self, ctx: &CallContext, account_id: AccountId) -> (res: Result<AccountId, ContractError>)
        ensures
            res is Ok <==> valid_account_id(lockup_account_id(account_id@, ctx.current_account_id@)),
            res matches Ok(id) ==> id@ == lockup_account_id(account_id@, ctx.current_account_id@),
            res matches Err(e) ==> e == ContractError::InvalidLockupAccountId,
    {
        match internal_map_owner_account_id(account_id.as_str(), ctx.current_account_id.as_str()) {
            Some(id) => Ok(id),
            None => Err(ContractError::InvalidLockupAccountId),
        }
    }

    /// Why storing lockup code fails, if it does.
    pub open spec fn prepare_error(self, ctx: CallContext, code: Seq<u8>) -> Option<ContractError> {
        let cost = ctx.storage_byte_cost.0 * (code.len() + CONTRACT_CODE_EXTRA_STORAGE_BYTES);
        if !self.config.lockup_code_deployers@.map_values(|d: AccountId| d@).contains(ctx.predecessor_account_id@) {
            Some(ContractError::PermissionDenied)
        } else if cost > u128::MAX {
            Some(ContractError::BalanceOutOfRange)
        } else if ctx.attached_deposit.0 < cost {
            Some(ContractError::InsufficientDeposit)
        } else {
            None
        }
    }

    /// Stores lockup contract code under its SHA-256, paid by the attached
    /// deposit; only the configured deployers can. Code already stored is
    /// kept as it is. Returns the hash the code is stored under.
    pub fn prepare_lockup_code(&mut self, ctx: &CallContext, code: Vec<u8>) -> (res: Result<CryptoHash, ContractError>)
        requires
            old(self).wf(),
        ensures
            final(self).wf(),
            res matches Ok(h) ==> h@ == sha256_digest(code@),
            res is Err <==> old(self).prepare_error(*ctx, code@) is Some,
            res matches Err(e) ==> old(self).prepare_error(*ctx, code@) == Some(e) && *final(self) == *old(self),
            res is Ok && old(self).has_code(sha256_digest(code@)) ==> *final(self) == *old(self),
            res is Ok && !old(self).has_code(sha256_digest(code@)) ==> {
                &&& final(self).lockup_codes@.len() == old(self).lockup_codes@.len() + 1
                &&& final(self).lockup_codes@.drop_last() == old(self).lockup_codes@
                &&& final(self).lockup_codes@.last().hash@ == sha256_digest(code@)
                &&& final(self).lockup_codes@.last().code == code
                &&& final(self).tree == old(self).tree
                &&& final(self).accounts == old(self).accounts
                &&& final(self).config == old(self).config
                &&& final(self).paused == old(self).paused
                &&& final(self).lsts == old(self).lsts
            },
    {
        let mut allowed = false;
        let mut i: usize = 0;
        let ghost ids = self.config.lockup_code_deployers@.map_values(|d: AccountId| d@);
        while i < self.config.lockup_code_deployers.len()
            invariant
                i <= self.config.lockup_code_deployers@.len(),
                ids == self.config.lockup_code_deployers@.map_values(|d: AccountId| d@),
                allowed <==> exists|j: int| 0 <= j < i && #[trigger] ids[j] == ctx.predecessor_account_id@,
            decreases self.config.lockup_code_deployers@.len() - i,
        {
            proof {
                assert(ids[i as int] == self.config.lockup_code_deployers@[i as int]@);
            }
            if self.config.lockup_code_deployers[i] == ctx.predecessor_account_id {
                allowed = true;
            }
            i = i + 1;
        }
        if !allowed {
            return Err(ContractError::PermissionDenied);
        }
        let (code_size, hash) = internal_get_hash_and_size(&code);
        let size = code_size as u128 + CONTRACT_CODE_EXTRA_STORAGE_BYTES as u128;
        let cost = match ctx.storage_byte_cost.0.checked_mul(size) {
            None => return Err(ContractError::BalanceOutOfRange),
            Some(c) => c,
        };
        if ctx.attached_deposit.0 < cost {
            return Err(ContractError::InsufficientDeposit);
        }
        if self.find_code(&hash).is_some() {
            return Ok(hash);
        }
        let ghost old_codes = self.lockup_codes@;
        self.lockup_codes.push(LockupCode { hash, code });
        proof {
            old(self).lemma_same_tree(*self);
            assert(self.lockup_codes@.drop_last() =~= old_codes);
            assert forall|a: int| 0 <= a < self.lockup_codes@.len() implies (#[trigger] self.lockup_codes@[a]).hash@
                == sha256_digest(self.lockup_codes@[a].code@) by {
                if a < old_codes.len() {
                    assert(old_codes[a] == self.lockup_codes@[a]);
                }
            }
            assert forall|a: int, b: int|
                0 <= a < self.lockup_codes@.len() && 0 <= b < self.lockup_codes@.len()
                    && (#[trigger] self.lockup_codes@[a]).hash@ == (#[trigger] self.lockup_codes@[b]).hash@
                    implies a == b by {
                if a < old_codes.len() && b == old_codes.len() {
                    assert(old_codes[a] == self.lockup_codes@[a]);
                }
                if b < old_codes.len() && a == old_codes.len() {
                    assert(old_codes[b] == self.lockup_codes@[b]);
                }
            }
        }
        Ok(hash)
    }

    /// Makes the code stored under `contract_hash` the lockup code, with the
    /// next version.
    pub fn internal_set_lockup(&mut self, contract_hash: CryptoHash) -> (res: Result<(), ContractError>)
        requires
            old(self).wf(),
            old(self).config.lockup_contract_config matches Some(c) ==> c.contract_version < u64::MAX,
        ensures
            final(self).wf(),
            res is Err <==> !old(self).has_code(contract_hash@),
            res matches Err(e) ==> e == ContractError::LockupCodeNotFound && *final(self) == *old(self),
            res is Ok ==> {
                let prev = match old(self).config.lockup_contract_config { Some(c) => c.contract_version as int, None => 0 };
                &&& (final(self).config.lockup_contract_config matches Some(c) && c.contract_hash == contract_hash
                    && c.contract_version == prev + 1
                    && exists|i: int| 0 <= i < old(self).lockup_codes@.len()
                        && (#[trigger] old(self).lockup_codes@[i]).hash@ == contract_hash@
                        && c.contract_size == old(self).lockup_codes@[i].code@.len())
                &&& final(self).config == crate::venear_contract::Config {
                    lockup_contract_config: final(self).config.lockup_contract_config,
                    ..old(self).config
                }
                &&& final(self).tree == old(self).tree
                &&& final(self).accounts == old(self).accounts
                &&& final(self).paused == old(self).paused
                &&& final(self).lockup_codes == old(self).lockup_codes
                &&& final(self).lsts == old(self).lsts
            },
    {
        let i = match self.find_code(&contract_hash) {
            None => return Err(ContractError::LockupCodeNotFound),
            Some(i) => i,
        };
        let (size, hash) = internal_get_hash_and_size(&self.lockup_codes[i].code);
        if !hash_eq(&hash, &contract_hash) {
            return Err(ContractError::LockupCodeNotFound);
        }
        let version = match &self.config.lockup_contract_config {
            Some(c) => c.contract_version + 1,
            None => 1,
        };
        self.config.lockup_contract_config = Some(LockupContractConfig {
            contract_size: size,
            contract_version: version,
            contract_hash,
        });
        proof {
            old(self).lemma_same_tree(*self);
        }
        Ok(())
    }
}

impl Contract {
    /// Why taking in a lockup update for `id` fails, if it does.
    pub open spec fn lockup_update_error(self, ctx: CallContext, id: Seq<char>, internal: AccountInternal, update: LockupUpdateV1) -> Option<ContractError> {
        let ts = ctx.block_timestamp;
        let a = self.updated(id, ts);
        let nb = reported_balance(a.balance, update.locked_near_balance, internal.deposit);
        let g = self.global().spec_updated(ts);
        let d = a.delegation.unwrap().account_id@;
        if update.lockup_update_nonce <= internal.lockup_update_nonce {
            Some(ContractError::InvalidNonce)
        } else if update_error(self, id, ts) is Some {
            update_error(self, id, ts)
        } else if !self.global().update_ok(ts)
            || update.locked_near_balance.0 + internal.deposit.0 > u128::MAX
            || !can_replace(g.total_venear_balance, a.balance, nb) {
            Some(ContractError::BalanceOutOfRange)
        } else if a.delegation is Some && update_error(self, d, ts) is Some {
            update_error(self, d, ts)
        } else if a.delegation is Some && !can_replace(self.updated(d, ts).delegated_balance, a.balance, nb) {
            Some(ContractError::BalanceOutOfRange)
        } else {
            None
        }
    }

    /// The state after the update: the account's NEAR is the locked NEAR
    /// plus its deposit, the total and the delegate's delegated balance
    /// follow, the nonce is the update's, and nothing else changed.
    pub open spec fn lockup_update_post(self, post: Contract, ctx: CallContext, id: AccountId, internal: AccountInternal, update: LockupUpdateV1) -> bool {
        let ts = ctx.block_timestamp;
        let a = self.updated(id@, ts);
        let nb = reported_balance(a.balance, update.locked_near_balance, internal.deposit);
        let g = self.global().spec_updated(ts);
        let d = a.delegation.unwrap().account_id@;
        let da = self.updated(d, ts);
        &&& post.internal(id@) == Some(AccountInternal { lockup_update_nonce: update.lockup_update_nonce, ..internal })
        &&& forall|other: Seq<char>| other != id@ ==> #[trigger] post.internal(other) == self.internal(other)
        &&& post.account(id@) == Some(Account { balance: nb, ..a })
        &&& a.delegation is Some ==> post.account(d) == Some(
            Account { delegated_balance: replaced(da.delegated_balance, a.balance, nb), ..da },
        )
        &&& forall|other: Seq<char>| other != id@ && !delegates_to(a, other) ==> #[trigger] post.account(other)
            == self.account(other)
        &&& post.global() == GlobalState { total_venear_balance: replaced(g.total_venear_balance, a.balance, nb), ..g }
        &&& post.config == self.config
        &&& post.paused == self.paused
        &&& post.lockup_codes@ == self.lockup_codes@
        &&& post.lsts@ == self.lsts@
    }

    /// Takes in the NEAR that `account_id`'s lockup reports as locked. An
    /// update whose nonce is not newer than the last one is refused.
    pub fn internal_lockup_update(
        &mut self,
        ctx: &CallContext,
        account_id: AccountId,
        account_internal: AccountInternal,
        lockup_update: LockupUpdateV1,
    ) -> (res: Result<(), ContractError>)
        requires
            old(self).wf(),
        ensures
            final(self).wf(),
            res is Err <==> old(self).lockup_update_error(*ctx, account_id@, account_internal, lockup_update) is Some,
            res matches Err(e) ==> old(self).lockup_update_error(*ctx, account_id@, account_internal, lockup_update)
                == Some(e) && *final(self) == *old(self),
            res is Ok ==> old(self).lockup_update_post(*final(self), *ctx, account_id, account_internal, lockup_update),
    {
        let ts = ctx.block_timestamp;
        let bh = ctx.block_height;
        if lockup_update.lockup_update_nonce <= account_internal.lockup_update_nonce {
            return Err(ContractError::InvalidNonce);
        }
        let mut internal = account_internal;
        internal.lockup_update_nonce = lockup_update.lockup_update_nonce;
        let mut account = match self.internal_expect_account_updated(account_id.as_str(), ts) {
            Ok(a) => a,
            Err(e) => return Err(e),
        };
        let old_balance = account.balance;
        let mut global_state = match self.internal_global_state_updated(ts) {
            Ok(g) => g,
            Err(e) => return Err(e),
        };
        let new_near = match lockup_update.locked_near_balance.checked_add(internal.deposit) {
            Some(n) => n,
            None => return Err(ContractError::BalanceOutOfRange),
        };
        if new_near.0 < old_balance.near_balance.0 {
            account.balance.extra_venear_balance = NearToken(0);
        }
        account.balance.near_balance = new_near;
        global_state.total_venear_balance = match try_replace(global_state.total_venear_balance, old_balance, account.balance) {
            Some(t) => t,
            None => return Err(ContractError::BalanceOutOfRange),
        };
        let ghost s0 = *self;
        let delegate = match &account.delegation {
            Some(d) => {
                let mut delegation_account = match self.internal_expect_account_updated(d.account_id.as_str(), ts) {
                    Ok(a) => a,
                    Err(e) => return Err(e),
                };
                delegation_account.delegated_balance = match try_replace(
                    delegation_account.delegated_balance,
                    old_balance,
                    account.balance,
                ) {
                    Some(b) => b,
                    None => return Err(ContractError::BalanceOutOfRange),
                };
                Some((d.account_id.clone(), delegation_account))
            },
            None => None,
        };
        proof {
            s0.lemma_stored_encodable(account_id@);
        }
        match delegate {
            Some((d, delegation_account)) => {
                proof {
                    s0.lemma_stored_encodable(d@);
                }
                self.internal_set_account(d, delegation_account, bh);
            },
            None => {},
        }
        let ghost s1 = *self;
        self.internal_set_account_internal(account_id.clone(), internal);
        let ghost s2 = *self;
        proof {
            s1.lemma_same_tree(s2);
        }
        self.internal_set_account(account_id, account, bh);
        let ghost s3 = *self;
        self.internal_set_global_state(global_state, bh);
        proof {
            assert forall|other: Seq<char>|
                other != account_id@ && !delegates_to(s0.updated(account_id@, ts), other) implies #[trigger] self.account(other)
                    == s0.account(other) by {
                assert(s3.account(other) == s2.account(other));
                assert(s2.account(other) == s1.account(other));
                assert(s1.account(other) == s0.account(other));
            }
            let a = s0.updated(account_id@, ts);
            if a.delegation is Some {
                let d = a.delegation.unwrap().account_id@;
                assert(s3.account(d) == s2.account(d));
                assert(s2.account(d) == s1.account(d));
            }
            assert(self.account(account_id@) == s3.account(account_id@));
        }
        Ok(())
    }

    /// Why `on_lockup_update` refuses, if it does.
    pub open spec fn on_lockup_update_error(self, ctx: CallContext, version: Version, owner: Seq<char>, update: LockupUpdateV1) -> Option<ContractError> {
        let lockup = lockup_account_id(owner, ctx.current_account_id@);
        if !valid_account_id(lockup) {
            Some(ContractError::InvalidLockupAccountId)
        } else if ctx.predecessor_account_id@ != lockup {
            Some(ContractError::PermissionDenied)
        } else if self.internal(owner) is None {
            Some(ContractError::AccountNotRegistered)
        } else if self.internal(owner).unwrap().version != Some(version) {
            Some(ContractError::InvalidLockupVersion)
        } else {
            self.lockup_update_error(ctx, owner, self.internal(owner).unwrap(), update)
        }
    }

    /// Called by the owner's lockup contract, with its version, to report
    /// the NEAR it has locked.
    pub fn on_lockup_update(&mut self, ctx: &CallContext, version: Version, owner_account_id: AccountId, update: VLockupUpdate) -> (res: Result<(), ContractError>)
        requires
            old(self).wf(),
        ensures
            final(self).wf(),
            ({
                let VLockupUpdate::V1(u) = update;
                &&& res is Err <==> old(self).on_lockup_update_error(*ctx, version, owner_account_id@, u) is Some
                &&& res matches Err(e) ==> old(self).on_lockup_update_error(*ctx, version, owner_account_id@, u)
                    == Some(e) && *final(self) == *old(self)
                &&& res is Ok ==> old(self).lockup_update_post(
                    *final(self),
                    *ctx,
                    owner_account_id,
                    old(self).internal(owner_account_id@).unwrap(),
                    u,
                )
            }),
    {
        let lockup_account_id = match internal_map_owner_account_id(owner_account_id.as_str(), ctx.current_account_id.as_str()) {
            Some(id) => id,
            None => return Err(ContractError::InvalidLockupAccountId),
        };
        if ctx.predecessor_account_id != lockup_account_id {
            return Err(ContractError::PermissionDenied);
        }
        let account_internal = match self.internal_get_account_internal(owner_account_id.as_str()) {
            Some(a) => a,
            None => return Err(ContractError::AccountNotRegistered),
        };
        match account_internal.version {
            Some(v) => {
                if v != version {
                    return Err(ContractError::InvalidLockupVersion);
                }
            },
            None => return Err(ContractError::InvalidLockupVersion),
        }
        match update {
            VLockupUpdate::V1(lockup_update) => self.internal_lockup_update(ctx, owner_account_id, account_internal, lockup_update),
        }
    }
}

/// A lockup update, once taken in, is refused if it comes again: its nonce
/// is no longer newer than the account's.
pub proof fn lemma_lockup_update_replay_refused(
    c0: Contract,
    c1: Contract,
    ctx: CallContext,
    later: CallContext,
    version: Version,
    owner: AccountId,
    internal: AccountInternal,
    update: LockupUpdateV1,
)
    requires
        c0.lockup_update_error(ctx, owner@, internal, update) is None,
        c0.lockup_update_post(c1, ctx, owner, internal, update),
    ensures
        c1.lockup_update_error(later, owner@, c1.internal(owner@).unwrap(), update) == Some(ContractError::InvalidNonce),
        c1.on_lockup_update_error(later, version, owner@, update) is Some,
{
}

} // verus!
