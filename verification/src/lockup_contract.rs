//! The lockup contract: an owner's NEAR, part of which is locked as veNEAR,
//! part pending unlock, and the updates it reports to the veNEAR contract.
use vstd::prelude::*;
use crate::account::AccountId;
use crate::account_id::{is_valid_account_id, valid_account_id};
use crate::context::CallContext;
use crate::error::ContractError;
use crate::lockup_update::{LockupUpdateV1, VLockupUpdate};
use crate::token::{NearToken, Version};

verus! {

/// The contract keeps at least 3.5 NEAR to cover its code's storage and its
/// own state; that NEAR cannot be transferred out.
pub const MIN_BALANCE_FOR_STORAGE: u128 = 3_500_000_000_000_000_000_000_000u128;

/// Raw balance in yoctoNEAR.
pub type Balance = u128;

/// Whether a transaction with the staking pool is in progress.
#[derive(Clone, Copy, Debug, PartialEq, Eq, Structural)]
pub enum TransactionStatus {
    /// No transaction in progress.
    Idle,
    /// A transaction in progress.
    Busy,
}

/// The selected staking pool and what was deposited to it.
#[derive(Clone, Debug)]
pub struct StakingInformation {
    pub staking_pool_account_id: AccountId,
    pub status: TransactionStatus,
    /// What was deposited to the pool; the pool may hold more from rewards.
    pub deposit_amount: NearToken,
}

/// The lockup schedule and amount.
#[derive(Clone, Copy, Debug)]
pub struct LockupInformation {
    pub lockup_amount: Balance,
    pub lockup_duration: u64,
    pub release_duration: Option<u64>,
    pub lockup_timestamp: Option<u64>,
}

/// The call that reports the locked NEAR to the veNEAR contract's
/// `on_lockup_update`.
#[derive(Clone, Debug)]
pub struct VenearUpdateCall {
    pub venear_account_id: AccountId,
    pub version: Version,
    pub owner_account_id: AccountId,
    pub update: VLockupUpdate,
    /// The gas attached to the call.
    pub gas: u64,
}

/// The gas, 20 TGas, attached to a lockup update sent to the veNEAR
/// contract.
pub const GAS_FOR_VENEAR_LOCKUP_UPDATE: u64 = 20_000_000_000_000u64;

/// The state of a lockup contract.
#[derive(Clone, Debug)]
pub struct LockupContract {
    pub owner_account_id: AccountId,
    pub venear_account_id: AccountId,
    pub lockup_information: LockupInformation,
    pub staking_pool_whitelist_account_id: AccountId,
    /// `Some` once a staking pool is selected.
    pub staking_information: Option<StakingInformation>,
    /// The NEAR locked as veNEAR.
    pub venear_locked_balance: Balance,
    /// When the pending NEAR unlocks.
    pub venear_unlock_timestamp: u64,
    /// The NEAR pending unlock.
    pub venear_pending_balance: Balance,
    /// The nonce of the last update sent to the veNEAR contract.
    pub lockup_update_nonce: u64,
    pub version: Version,
    /// How long an unlock takes, in nanoseconds.
    pub unlock_duration_ns: u64,
}

/// `amount`, or `default` when it is `None`.
pub open spec fn amount_or(amount: Option<NearToken>, default: u128) -> u128 {
    match amount {
        Some(a) => a.0,
        None => default,
    }
}

impl LockupContract {
    /// The NEAR that can leave the account: its balance less what its
    /// storage needs.
    pub open spec fn spec_account_balance(account_balance: NearToken) -> u128 {
        if account_balance.0 >= MIN_BALANCE_FOR_STORAGE {
            (account_balance.0 - MIN_BALANCE_FOR_STORAGE) as u128
        } else {
            0
        }
    }

    /// What was deposited to the staking pool, or zero.
    pub open spec fn deposited(self) -> u128 {
        match self.staking_information {
            Some(s) => s.deposit_amount.0,
            None => 0,
        }
    }

    /// The NEAR neither locked nor pending: the account's transferable
    /// balance and the pool deposit, less both.
    pub open spec fn spec_liquid(self, account_balance: NearToken) -> int {
        Self::spec_account_balance(account_balance) + self.deposited() - self.venear_locked_balance
            - self.venear_pending_balance
    }

    /// The liquid balance can be computed.
    pub open spec fn liquid_ok(self, account_balance: NearToken) -> bool {
        &&& Self::spec_account_balance(account_balance) + self.deposited() <= u128::MAX
        &&& self.spec_liquid(account_balance) >= 0
    }

    /// A new lockup contract for `owner_account_id`, holding
    /// `account_balance`; `lockup_duration` is also how long an unlock
    /// takes, and updates to the veNEAR contract count from
    /// `lockup_update_nonce`.
    pub fn new(
        owner_account_id: AccountId,
        venear_account_id: AccountId,
        lockup_duration: u64,
        lockup_timestamp: Option<u64>,
        release_duration: Option<u64>,
        staking_pool_whitelist_account_id: AccountId,
        version: Version,
        lockup_update_nonce: u64,
        account_balance: NearToken,
    ) -> (res: Result<LockupContract, ContractError>)
        ensures
            res is Err <==> !valid_account_id(owner_account_id@),
            res matches Err(e) ==> e == ContractError::InvalidOwnerAccountId,
            res matches Ok(c) ==> c == (LockupContract {
                owner_account_id,
                venear_account_id,
                lockup_information: LockupInformation {
                    lockup_amount: account_balance.0,
                    lockup_duration,
                    release_duration,
                    lockup_timestamp,
                },
                staking_pool_whitelist_account_id,
                staking_information: None,
                venear_locked_balance: 0,
                venear_unlock_timestamp: 0,
                venear_pending_balance: 0,
                lockup_update_nonce,
                version,
                unlock_duration_ns: lockup_duration,
            }),
    {
        if !is_valid_account_id(owner_account_id.as_str()) {
            return Err(ContractError::InvalidOwnerAccountId);
        }
        Ok(LockupContract {
            owner_account_id,
            venear_account_id,
            lockup_information: LockupInformation {
                lockup_amount: account_balance.0,
                lockup_duration,
                release_duration,
                lockup_timestamp,
            },
            staking_pool_whitelist_account_id,
            staking_information: None,
            venear_locked_balance: 0,
            venear_unlock_timestamp: 0,
            venear_pending_balance: 0,
            lockup_update_nonce,
            version,
            unlock_duration_ns: lockup_duration,
        })
    }

    /// The account's balance less what its storage needs.
    pub fn get_account_balance(&self, account_balance: NearToken) -> (res: NearToken)
        ensures
            res.0 == Self::spec_account_balance(account_balance),
    {
        account_balance.saturating_sub(NearToken(MIN_BALANCE_FOR_STORAGE))
    }

    /// What was deposited to the staking pool, or zero.
    pub fn get_known_deposited_balance(&self) -> (res: NearToken)
        ensures
            res.0 == self.deposited(),
    {
        match &self.staking_information {
            Some(s) => s.deposit_amount,
            None => NearToken(0),
        }
    }

    /// The NEAR neither locked nor pending.
    pub fn venear_liquid_balance(&self, account_balance: NearToken) -> (res: Result<Balance, ContractError>)
        ensures
            res is Ok <==> self.liquid_ok(account_balance),
            res matches Ok(b) ==> b == self.spec_liquid(account_balance),
            res matches Err(e) ==> e == ContractError::BalanceOutOfRange,
    {
        let total = match self.get_account_balance(account_balance).0.checked_add(self.get_known_deposited_balance().0) {
            Some(t) => t,
            None => return Err(ContractError::BalanceOutOfRange),
        };
        if total < self.venear_locked_balance || total - self.venear_locked_balance < self.venear_pending_balance {
            return Err(ContractError::BalanceOutOfRange);
        }
        Ok(total - self.venear_locked_balance - self.venear_pending_balance)
    }

    /// The update that reports the locked NEAR, with the next nonce.
    pub open spec fn update_call(self, ts: u64) -> VenearUpdateCall {
        VenearUpdateCall {
            venear_account_id: self.venear_account_id,
            version: self.version,
            owner_account_id: self.owner_account_id,
            update: VLockupUpdate::V1(LockupUpdateV1 {
                locked_near_balance: NearToken(self.venear_locked_balance),
                timestamp: ts,
                lockup_update_nonce: (self.lockup_update_nonce + 1) as u64,
            }),
            gas: GAS_FOR_VENEAR_LOCKUP_UPDATE,
        }
    }

    /// Moves to the next nonce and returns the call that reports the locked
    /// NEAR to the veNEAR contract.
    pub fn venear_lockup_update(&mut self, block_timestamp: u64) -> (res: VenearUpdateCall)
        requires
            old(self).lockup_update_nonce < u64::MAX,
        ensures
            res == old(self).update_call(block_timestamp),
            res.update == VLockupUpdate::V1(LockupUpdateV1 {
                locked_near_balance: NearToken(final(self).venear_locked_balance),
                timestamp: block_timestamp,
                lockup_update_nonce: final(self).lockup_update_nonce,
            }),
            res.venear_account_id == final(self).venear_account_id,
            res.owner_account_id == final(self).owner_account_id,
            res.version == final(self).version,
            *final(self) == (LockupContract { lockup_update_nonce: (old(self).lockup_update_nonce + 1) as u64, ..*old(self) }),
    {
        self.lockup_update_nonce = self.lockup_update_nonce + 1;
        VenearUpdateCall {
            venear_account_id: self.venear_account_id.clone(),
            version: self.version,
            owner_account_id: self.owner_account_id.clone(),
            update: VLockupUpdate::V1(LockupUpdateV1 {
                locked_near_balance: NearToken(self.venear_locked_balance),
                timestamp: block_timestamp,
                lockup_update_nonce: self.lockup_update_nonce,
            }),
            gas: GAS_FOR_VENEAR_LOCKUP_UPDATE,
        }
    }

    /// Why `lock_near` refuses, if it does.
    pub open spec fn lock_error(self, ctx: CallContext, amount: Option<NearToken>, account_balance: NearToken) -> Option<ContractError> {
        let a = amount_or(amount, self.spec_liquid(account_balance) as u128);
        if !ctx.one_yocto() {
            Some(ContractError::RequiresOneYocto)
        } else if !self.liquid_ok(account_balance) {
            Some(ContractError::BalanceOutOfRange)
        } else if a > self.spec_liquid(account_balance) {
            Some(ContractError::InvalidAmount)
        } else if self.lockup_update_nonce == u64::MAX {
            Some(ContractError::BalanceOutOfRange)
        } else {
            None
        }
    }

    /// Locks `amount` of the liquid NEAR, or all of it, and reports the
    /// new locked balance.
    pub fn lock_near(&mut self, ctx: &CallContext, amount: Option<NearToken>, account_balance: NearToken) -> (res: Result<VenearUpdateCall, ContractError>)
        ensures
            res is Err <==> old(self).lock_error(*ctx, amount, account_balance) is Some,
            res matches Err(e) ==> old(self).lock_error(*ctx, amount, account_balance) == Some(e) && *final(self) == *old(self),
            res matches Ok(call) ==> {
                let a = amount_or(amount, old(self).spec_liquid(account_balance) as u128);
                let post = LockupContract { venear_locked_balance: (old(self).venear_locked_balance + a) as u128, ..*old(self) };
                &&& call == post.update_call(ctx.block_timestamp)
                &&& call.update == VLockupUpdate::V1(LockupUpdateV1 {
                    locked_near_balance: NearToken(final(self).venear_locked_balance),
                    timestamp: ctx.block_timestamp,
                    lockup_update_nonce: final(self).lockup_update_nonce,
                })
                &&& call.venear_account_id == final(self).venear_account_id
                &&& call.owner_account_id == final(self).owner_account_id
                &&& call.version == final(self).version
                &&& *final(self) == (LockupContract { lockup_update_nonce: (post.lockup_update_nonce + 1) as u64, ..post })
            },
    {
        if ctx.attached_deposit.0 != 1 {
            return Err(ContractError::RequiresOneYocto);
        }
        let liquid = match self.venear_liquid_balance(account_balance) {
            Ok(l) => l,
            Err(e) => return Err(e),
        };
        let amount = match amount {
            Some(a) => a.0,
            None => liquid,
        };
        if amount > liquid {
            return Err(ContractError::InvalidAmount);
        }
        if self.lockup_update_nonce == u64::MAX {
            return Err(ContractError::BalanceOutOfRange);
        }
        self.venear_locked_balance = self.venear_locked_balance + amount;
        Ok(self.venear_lockup_update(ctx.block_timestamp))
    }

    /// Why `begin_unlock_near` refuses, if it does.
    pub open spec fn begin_unlock_error(self, ctx: CallContext, amount: Option<NearToken>) -> Option<ContractError> {
        let a = amount_or(amount, self.venear_locked_balance);
        if !ctx.one_yocto() {
            Some(ContractError::RequiresOneYocto)
        } else if a > self.venear_locked_balance {
            Some(ContractError::InvalidAmount)
        } else if self.venear_pending_balance + a > u128::MAX || ctx.block_timestamp + self.unlock_duration_ns > u64::MAX
            || self.lockup_update_nonce == u64::MAX {
            Some(ContractError::BalanceOutOfRange)
        } else {
            None
        }
    }

    /// Starts unlocking `amount` of the locked NEAR, or all of it: it is
    /// pending until the unlock duration has passed.
    pub fn begin_unlock_near(&mut self, ctx: &CallContext, amount: Option<NearToken>) -> (res: Result<VenearUpdateCall, ContractError>)
        ensures
            res is Err <==> old(self).begin_unlock_error(*ctx, amount) is Some,
            res matches Err(e) ==> old(self).begin_unlock_error(*ctx, amount) == Some(e) && *final(self) == *old(self),
            res matches Ok(call) ==> {
                let a = amount_or(amount, old(self).venear_locked_balance);
                let post = LockupContract {
                    venear_locked_balance: (old(self).venear_locked_balance - a) as u128,
                    venear_pending_balance: (old(self).venear_pending_balance + a) as u128,
                    venear_unlock_timestamp: (ctx.block_timestamp + old(self).unlock_duration_ns) as u64,
                    ..*old(self)
                };
                &&& call == post.update_call(ctx.block_timestamp)
                &&& call.update == VLockupUpdate::V1(LockupUpdateV1 {
                    locked_near_balance: NearToken(final(self).venear_locked_balance),
                    timestamp: ctx.block_timestamp,
                    lockup_update_nonce: final(self).lockup_update_nonce,
                })
                &&& call.venear_account_id == final(self).venear_account_id
                &&& call.owner_account_id == final(self).owner_account_id
                &&& call.version == final(self).version
                &&& *final(self) == (LockupContract { lockup_update_nonce: (post.lockup_update_nonce + 1) as u64, ..post })
            },
    {
        if ctx.attached_deposit.0 != 1 {
            return Err(ContractError::RequiresOneYocto);
        }
        let amount = match amount {
            Some(a) => a.0,
            None => self.venear_locked_balance,
        };
        if amount > self.venear_locked_balance {
            return Err(ContractError::InvalidAmount);
        }
        if self.venear_pending_balance > u128::MAX - amount || ctx.block_timestamp > u64::MAX - self.unlock_duration_ns
            || self.lockup_update_nonce == u64::MAX {
            return Err(ContractError::BalanceOutOfRange);
        }
        self.venear_locked_balance = self.venear_locked_balance - amount;
        self.venear_pending_balance = self.venear_pending_balance + amount;
        self.set_venear_unlock_imestamp(ctx.block_timestamp);
        Ok(self.venear_lockup_update(ctx.block_timestamp))
    }

    /// Sets the end of the unlock period from `block_timestamp`.
    pub fn set_venear_unlock_imestamp(&mut self, block_timestamp: u64)
        requires
            block_timestamp + old(self).unlock_duration_ns <= u64::MAX,
        ensures
            *final(self) == (LockupContract {
                venear_unlock_timestamp: (block_timestamp + old(self).unlock_duration_ns) as u64,
                ..*old(self)
            }),
    {
        self.venear_unlock_timestamp = block_timestamp + self.unlock_duration_ns;
    }

    /// Why `end_unlock_near` refuses, if it does.
    pub open spec fn end_unlock_error(self, ctx: CallContext, amount: Option<NearToken>) -> Option<ContractError> {
        let a = amount_or(amount, self.venear_pending_balance);
        if !ctx.one_yocto() {
            Some(ContractError::RequiresOneYocto)
        } else if a > self.venear_pending_balance {
            Some(ContractError::InvalidAmount)
        } else if ctx.block_timestamp < self.venear_unlock_timestamp {
            Some(ContractError::InvalidUnlockTime)
        } else if self.lockup_update_nonce == u64::MAX {
            Some(ContractError::BalanceOutOfRange)
        } else {
            None
        }
    }

    /// Ends the unlock of `amount` of the pending NEAR, or all of it, once
    /// the unlock period is over: it becomes liquid.
    pub fn end_unlock_near(&mut self, ctx: &CallContext, amount: Option<NearToken>) -> (res: Result<VenearUpdateCall, ContractError>)
        ensures
            res is Err <==> old(self).end_unlock_error(*ctx, amount) is Some,
            res matches Err(e) ==> old(self).end_unlock_error(*ctx, amount) == Some(e) && *final(self) == *old(self),
            res matches Ok(call) ==> {
                let a = amount_or(amount, old(self).venear_pending_balance);
                let post = LockupContract {
                    venear_pending_balance: (old(self).venear_pending_balance - a) as u128,
                    ..*old(self)
                };
                &&& call == post.update_call(ctx.block_timestamp)
                &&& call.update == VLockupUpdate::V1(LockupUpdateV1 {
                    locked_near_balance: NearToken(final(self).venear_locked_balance),
                    timestamp: ctx.block_timestamp,
                    lockup_update_nonce: final(self).lockup_update_nonce,
                })
                &&& call.venear_account_id == final(self).venear_account_id
                &&& call.owner_account_id == final(self).owner_account_id
                &&& call.version == final(self).version
                &&& *final(self) == (LockupContract { lockup_update_nonce: (post.lockup_update_nonce + 1) as u64, ..post })
            },
    {
        if ctx.attached_deposit.0 != 1 {
            return Err(ContractError::RequiresOneYocto);
        }
        let amount = match amount {
            Some(a) => a.0,
            None => self.venear_pending_balance,
        };
        if amount > self.venear_pending_balance {
            return Err(ContractError::InvalidAmount);
        }
        if ctx.block_timestamp < self.venear_unlock_timestamp {
            return Err(ContractError::InvalidUnlockTime);
        }
        if self.lockup_update_nonce == u64::MAX {
            return Err(ContractError::BalanceOutOfRange);
        }
        self.venear_pending_balance = self.venear_pending_balance - amount;
        Ok(self.venear_lockup_update(ctx.block_timestamp))
    }

    /// Why `lock_pending_near` refuses, if it does.
    pub open spec fn lock_pending_error(self, ctx: CallContext, amount: Option<NearToken>) -> Option<ContractError> {
        let a = amount_or(amount, self.venear_pending_balance);
        if !ctx.one_yocto() {
            Some(ContractError::RequiresOneYocto)
        } else if a > self.venear_pending_balance {
            Some(ContractError::InvalidAmount)
        } else if self.venear_locked_balance + a > u128::MAX || self.lockup_update_nonce == u64::MAX {
            Some(ContractError::BalanceOutOfRange)
        } else {
            None
        }
    }

    /// Locks again `amount` of the pending NEAR, or all of it.
    pub fn lock_pending_near(&mut self, ctx: &CallContext, amount: Option<NearToken>) -> (res: Result<VenearUpdateCall, ContractError>)
        ensures
            res is Err <==> old(self).lock_pending_error(*ctx, amount) is Some,
            res matches Err(e) ==> old(self).lock_pending_error(*ctx, amount) == Some(e) && *final(self) == *old(self),
            res matches Ok(call) ==> {
                let a = amount_or(amount, old(self).venear_pending_balance);
                let post = LockupContract {
                    venear_pending_balance: (old(self).venear_pending_balance - a) as u128,
                    venear_locked_balance: (old(self).venear_locked_balance + a) as u128,
                    ..*old(self)
                };
                &&& call == post.update_call(ctx.block_timestamp)
                &&& call.update == VLockupUpdate::V1(LockupUpdateV1 {
                    locked_near_balance: NearToken(final(self).venear_locked_balance),
                    timestamp: ctx.block_timestamp,
                    lockup_update_nonce: final(self).lockup_update_nonce,
                })
                &&& call.venear_account_id == final(self).venear_account_id
                &&& call.owner_account_id == final(self).owner_account_id
                &&& call.version == final(self).version
                &&& *final(self) == (LockupContract { lockup_update_nonce: (post.lockup_update_nonce + 1) as u64, ..post })
            },
    {
        if ctx.attached_deposit.0 != 1 {
            return Err(ContractError::RequiresOneYocto);
        }
        let amount = match amount {
            Some(a) => a.0,
            None => self.venear_pending_balance,
        };
        if amount > self.venear_pending_balance {
            return Err(ContractError::InvalidAmount);
        }
        if self.venear_locked_balance > u128::MAX - amount || self.lockup_update_nonce == u64::MAX {
            return Err(ContractError::BalanceOutOfRange);
        }
        self.venear_pending_balance = self.venear_pending_balance - amount;
        self.venear_locked_balance = self.venear_locked_balance + amount;
        Ok(self.venear_lockup_update(ctx.block_timestamp))
    }

    /// The locked NEAR.
    pub fn get_venear_locked_balance(&self) -> (res: NearToken)
        ensures
            res.0 == self.venear_locked_balance,
    {
        NearToken(self.venear_locked_balance)
    }

    /// When the pending NEAR unlocks.
    pub fn get_venear_unlock_timestamp(&self) -> (res: u64)
        ensures
            res == self.venear_unlock_timestamp,
    {
        self.venear_unlock_timestamp
    }

    /// The nonce of the last update.
    pub fn get_lockup_update_nonce(&self) -> (res: u64)
        ensures
            res == self.lockup_update_nonce,
    {
        self.lockup_update_nonce
    }

    /// The NEAR pending unlock.
    pub fn get_venear_pending_balance(&self) -> (res: NearToken)
        ensures
            res.0 == self.venear_pending_balance,
    {
        NearToken(self.venear_pending_balance)
    }

    /// The NEAR neither locked nor pending.
    pub fn get_venear_liquid_balance(&self, account_balance: NearToken) -> (res: Result<NearToken, ContractError>)
        ensures
            res is Ok <==> self.liquid_ok(account_balance),
            res matches Ok(b) ==> b.0 == self.spec_liquid(account_balance),
            res matches Err(e) ==> e == ContractError::BalanceOutOfRange,
    {
        match self.venear_liquid_balance(account_balance) {
            Ok(b) => Ok(NearToken(b)),
            Err(e) => Err(e),
        }
    }

    /// The owner.
    pub fn get_owner_account_id(&self) -> (res: AccountId)
        ensures
            res == self.owner_account_id,
    {
        self.owner_account_id.clone()
    }

    /// The selected staking pool, if any.
    pub fn get_staking_pool_account_id(&self) -> (res: Option<AccountId>)
        ensures
            res == match self.staking_information {
                Some(s) => Some(s.staking_pool_account_id),
                None => None::<AccountId>,
            },
    {
        match &self.staking_information {
            Some(s) => Some(s.staking_pool_account_id.clone()),
            None => None,
        }
    }

    /// The account's balance with the pool deposit.
    pub fn get_balance(&self, account_balance: NearToken) -> (res: Result<NearToken, ContractError>)
        ensures
            res is Ok <==> account_balance.0 + self.deposited() <= u128::MAX,
            res matches Ok(b) ==> b.0 == account_balance.0 + self.deposited(),
            res matches Err(e) ==> e == ContractError::BalanceOutOfRange,
    {
        match account_balance.checked_add(self.get_known_deposited_balance()) {
            Some(b) => Ok(b),
            None => Err(ContractError::BalanceOutOfRange),
        }
    }

    /// The owner's balance: the same as `get_balance`.
    pub fn get_owners_balance(&self, account_balance: NearToken) -> (res: Result<NearToken, ContractError>)
        ensures
            res is Ok <==> account_balance.0 + self.deposited() <= u128::MAX,
            res matches Ok(b) ==> b.0 == account_balance.0 + self.deposited(),
            res matches Err(e) ==> e == ContractError::BalanceOutOfRange,
    {
        self.get_balance(account_balance)
    }

    /// What the owner can transfer out: the account's balance less its
    /// storage.
    pub fn get_liquid_owners_balance(&self, account_balance: NearToken) -> (res: NearToken)
        ensures
            res.0 == Self::spec_account_balance(account_balance),
    {
        self.get_account_balance(account_balance)
    }

    /// The contract's version.
    pub fn get_version(&self) -> (res: Version)
        ensures
            res == self.version,
    {
        self.version
    }

    /// Sets the status of the transaction with the selected staking pool.
    pub fn set_staking_pool_status(&mut self, status: TransactionStatus) -> (res: Result<(), ContractError>)
        ensures
            res is Err <==> old(self).staking_information is None,
            res matches Err(e) ==> e == ContractError::StakingPoolNotSelected && *final(self) == *old(self),
            res is Ok ==> final(self).staking_information == Some(StakingInformation {
                status,
                ..old(self).staking_information.unwrap()
            }) && *final(self) == (LockupContract { staking_information: final(self).staking_information, ..*old(self) }),
    {
        match &self.staking_information {
            Some(s) => {
                let info = StakingInformation {
                    staking_pool_account_id: s.staking_pool_account_id.clone(),
                    status,
                    deposit_amount: s.deposit_amount,
                };
                self.staking_information = Some(info);
                Ok(())
            },
            None => Err(ContractError::StakingPoolNotSelected),
        }
    }

    /// No staking pool is selected, or it is idle.
    pub fn assert_no_staking_or_idle(&self) -> (res: Result<(), ContractError>)
        ensures
            res is Ok <==> (self.staking_information matches Some(s) ==> s.status == TransactionStatus::Idle),
            res matches Err(e) ==> e == ContractError::Busy,
    {
        match &self.staking_information {
            Some(s) => match s.status {
                TransactionStatus::Idle => Ok(()),
                TransactionStatus::Busy => Err(ContractError::Busy),
            },
            None => Ok(()),
        }
    }

    /// A staking pool is selected and idle.
    pub fn assert_staking_pool_is_idle(&self) -> (res: Result<(), ContractError>)
        ensures
            self.staking_information is None ==> res == Err::<(), ContractError>(ContractError::StakingPoolNotSelected),
            self.staking_information matches Some(s) ==> (s.status == TransactionStatus::Idle ==> res is Ok),
            self.staking_information matches Some(s) ==> (s.status == TransactionStatus::Busy ==> res == Err::<(), ContractError>(ContractError::Busy)),
    {
        match &self.staking_information {
            Some(s) => match s.status {
                TransactionStatus::Idle => Ok(()),
                TransactionStatus::Busy => Err(ContractError::Busy),
            },
            None => Err(ContractError::StakingPoolNotSelected),
        }
    }

    /// No staking pool is selected.
    pub fn assert_staking_pool_is_not_selected(&self) -> (res: Result<(), ContractError>)
        ensures
            res is Ok <==> self.staking_information is None,
            res matches Err(e) ==> e == ContractError::StakingPoolAlreadySelected,
    {
        match &self.staking_information {
            Some(_) => Err(ContractError::StakingPoolAlreadySelected),
            None => Ok(()),
        }
    }

    /// The caller is the owner.
    pub fn assert_owner(&self, ctx: &CallContext) -> (res: Result<(), ContractError>)
        ensures
            res is Ok <==> ctx.predecessor_account_id@ == self.owner_account_id@,
            res matches Err(e) ==> e == ContractError::NotOwner,
    {
        if ctx.predecessor_account_id == self.owner_account_id {
            Ok(())
        } else {
            Err(ContractError::NotOwner)
        }
    }
}

/// Locking, starting an unlock and locking pending NEAR again move NEAR
/// between liquid, locked and pending, and keep their sum; ending an unlock
/// moves pending NEAR back to liquid.
pub proof fn lemma_lockup_moves_keep_total(
    c: LockupContract,
    ctx: CallContext,
    amount: Option<NearToken>,
    account_balance: NearToken,
)
    ensures
        c.lock_error(ctx, amount, account_balance) is None ==> {
            let a = amount_or(amount, c.spec_liquid(account_balance) as u128);
            let post = LockupContract { venear_locked_balance: (c.venear_locked_balance + a) as u128, ..c };
            post.spec_liquid(account_balance) + post.venear_locked_balance + post.venear_pending_balance
                == c.spec_liquid(account_balance) + c.venear_locked_balance + c.venear_pending_balance
        },
        c.begin_unlock_error(ctx, amount) is None ==> {
            let a = amount_or(amount, c.venear_locked_balance);
            let post = LockupContract {
                venear_locked_balance: (c.venear_locked_balance - a) as u128,
                venear_pending_balance: (c.venear_pending_balance + a) as u128,
                ..c
            };
            &&& post.spec_liquid(account_balance) == c.spec_liquid(account_balance)
            &&& post.venear_locked_balance + post.venear_pending_balance == c.venear_locked_balance
                + c.venear_pending_balance
        },
        c.lock_pending_error(ctx, amount) is None ==> {
            let a = amount_or(amount, c.venear_pending_balance);
            let post = LockupContract {
                venear_pending_balance: (c.venear_pending_balance - a) as u128,
                venear_locked_balance: (c.venear_locked_balance + a) as u128,
                ..c
            };
            &&& post.spec_liquid(account_balance) == c.spec_liquid(account_balance)
            &&& post.venear_locked_balance + post.venear_pending_balance == c.venear_locked_balance
                + c.venear_pending_balance
        },
        c.end_unlock_error(ctx, amount) is None ==> {
            let a = amount_or(amount, c.venear_pending_balance);
            let post = LockupContract { venear_pending_balance: (c.venear_pending_balance - a) as u128, ..c };
            &&& post.spec_liquid(account_balance) == c.spec_liquid(account_balance) + a
            &&& post.venear_locked_balance == c.venear_locked_balance
        },
{
}

/// The update a lockup reports to the veNEAR contract carries the NEAR that
/// stays locked (not what is pending unlock), the time, and the next nonce.
pub proof fn lemma_update_call_reports_locked(l: LockupContract, ts: u64)
    requires
        l.lockup_update_nonce < u64::MAX,
    ensures
        l.update_call(ts).update == VLockupUpdate::V1(LockupUpdateV1 {
            locked_near_balance: NearToken(l.venear_locked_balance),
            timestamp: ts,
            lockup_update_nonce: (l.lockup_update_nonce + 1) as u64,
        }),
        l.update_call(ts).gas == GAS_FOR_VENEAR_LOCKUP_UPDATE,
{
}

} // verus!
