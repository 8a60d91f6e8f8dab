//! Registering accounts, and recording the lockup contracts that were
//! deployed for them.
use vstd::prelude::*;
use crate::account::{Account, AccountId, VAccount};
use crate::account_id::{internal_map_owner_account_id, lockup_account_id, valid_account_id};
use crate::context::{CallContext, Transfer};
use crate::error::ContractError;
use crate::global_state::GlobalState;
use crate::token::{spec_truncate_to_seconds, truncate_to_seconds, NearToken, Version};
use crate::venear::VenearBalance;
use crate::venear_contract::{delegated_near, delegates_to, update_error, AccountInfo, AccountInternal, Contract, VAccountInternal};
use crate::venear_contract::lockup::LockupDeployment;

verus! {

/// The account that registration creates: the local deposit as its NEAR,
/// nothing delegated, at `ts` rounded down to whole seconds.
pub open spec fn new_account(id: AccountId, ts: u64, deposit: NearToken) -> Account {
    Account {
        account_id: id,
        update_timestamp: spec_truncate_to_seconds(ts),
        balance: VenearBalance { near_balance: deposit, extra_venear_balance: NearToken(0) },
        delegated_balance: VenearBalance { near_balance: NearToken(0), extra_venear_balance: NearToken(0) },
        delegation: None,
    }
}

impl Contract {
    /// The account that `register_account` registers.
    pub open spec fn registered_id(ctx: CallContext, account_id: Option<AccountId>) -> AccountId {
        match account_id {
            Some(id) => id,
            None => ctx.predecessor_account_id,
        }
    }

    /// Why registering `id` fails, if it does.
    pub open spec fn register_error(self, ctx: CallContext, id: Seq<char>) -> Option<ContractError> {
        let cost = self.deployment_cost(ctx).unwrap() + self.config.local_deposit.0;
        let g = self.global().spec_updated(ctx.block_timestamp);
        if self.paused {
            Some(ContractError::Paused)
        } else if self.internal(id) is Some {
            Some(ContractError::AccountAlreadyExists)
        } else if self.deployment_cost_error(ctx) is Some {
            self.deployment_cost_error(ctx)
        } else if cost > u128::MAX {
            Some(ContractError::BalanceOutOfRange)
        } else if ctx.attached_deposit.0 < cost {
            Some(ContractError::InsufficientDeposit)
        } else if self.plan_error(ctx, id, NearToken((ctx.attached_deposit.0 - self.config.local_deposit.0) as u128)) is Some {
            self.plan_error(ctx, id, NearToken((ctx.attached_deposit.0 - self.config.local_deposit.0) as u128))
        } else if !self.global().update_ok(ctx.block_timestamp) {
            Some(ContractError::BalanceOutOfRange)
        } else if g.total_venear_balance.near_balance.0 + self.config.local_deposit.0 > u128::MAX {
            Some(ContractError::BalanceOutOfRange)
        } else if self.account(id) is None && self.tree.length == u32::MAX {
            Some(ContractError::TreeFull)
        } else {
            None
        }
    }

    /// Registers `account_id`, or the caller when it is `None`, and plans the
    /// deployment of its lockup with the attached deposit less the local
    /// deposit. The attached deposit must cover `get_registration_cost`. The
    /// local deposit becomes the account's NEAR balance, and joins the total.
    pub fn register_account(&mut self, ctx: &CallContext, account_id: Option<AccountId>) -> (res: Result<LockupDeployment, ContractError>)
        requires
            old(self).wf(),
            ctx.wf(),
            ctx.block_height <= u64::MAX / 1_000_000,
            account_id matches Some(id) ==> valid_account_id(id@),
        ensures
            final(self).wf(),
            ({
                let id = Contract::registered_id(*ctx, account_id);
                let deposit = old(self).config.local_deposit;
                let g = old(self).global().spec_updated(ctx.block_timestamp);
                &&& res is Err <==> old(self).register_error(*ctx, id@) is Some
                &&& res matches Err(e) ==> old(self).register_error(*ctx, id@) == Some(e) && *final(self) == *old(self)
                &&& res matches Ok(p) ==> {
                    &&& old(self).planned(*ctx, id, NearToken((ctx.attached_deposit.0 - deposit.0) as u128), p)
                    &&& final(self).internal(id@) == Some(AccountInternal { version: None, deposit, lockup_update_nonce: 0 })
                    &&& final(self).account(id@) == Some(new_account(id, ctx.block_timestamp, deposit))
                    &&& forall|other: Seq<char>| other != id@ ==> #[trigger] final(self).account(other) == old(self).account(other)
                    &&& forall|other: Seq<char>| other != id@ ==> #[trigger] final(self).internal(other) == old(self).internal(other)
                    &&& final(self).global() == GlobalState {
                        total_venear_balance: VenearBalance {
                            near_balance: NearToken((g.total_venear_balance.near_balance.0 + deposit.0) as u128),
                            ..g.total_venear_balance
                        },
                        ..g
                    }
                    &&& final(self).config == old(self).config
                    &&& final(self).paused == old(self).paused
                    &&& final(self).lockup_codes@ == old(self).lockup_codes@
                    &&& final(self).lsts@ == old(self).lsts@
                }
            }),
    {
        if self.paused {
            return Err(ContractError::Paused);
        }
        let id = match account_id {
            Some(id) => id,
            None => ctx.predecessor_account_id.clone(),
        };
        if self.internal_get_account_internal(id.as_str()).is_some() {
            return Err(ContractError::AccountAlreadyExists);
        }
        let cost = match self.get_registration_cost(ctx) {
            Ok(c) => c,
            Err(e) => return Err(e),
        };
        if ctx.attached_deposit.0 < cost.0 {
            return Err(ContractError::InsufficientDeposit);
        }
        let deposit = self.config.local_deposit;
        let lockup_deposit = NearToken(ctx.attached_deposit.0 - deposit.0);
        let plan = match self.internal_deploy_plan(ctx, id.clone(), lockup_deposit) {
            Ok(p) => p,
            Err(e) => return Err(e),
        };
        let mut global_state = match self.internal_global_state_updated(ctx.block_timestamp) {
            Ok(g) => g,
            Err(e) => return Err(e),
        };
        let total_near = match global_state.total_venear_balance.near_balance.checked_add(deposit) {
            Some(t) => t,
            None => return Err(ContractError::BalanceOutOfRange),
        };
        if self.internal_get_account(id.as_str()).is_none() && self.tree.length == u32::MAX {
            return Err(ContractError::TreeFull);
        }
        global_state.total_venear_balance.near_balance = total_near;
        let account = Account {
            account_id: id.clone(),
            update_timestamp: truncate_to_seconds(ctx.block_timestamp),
            balance: VenearBalance::from_near(deposit),
            delegated_balance: VenearBalance::default(),
            delegation: None,
        };
        let ghost s0 = *self;
        self.internal_set_account(id.clone(), account, ctx.block_height);
        let ghost s1 = *self;
        self.internal_set_global_state(global_state, ctx.block_height);
        let ghost s2 = *self;
        self.internal_set_account_internal(id, AccountInternal { version: None, deposit, lockup_update_nonce: 0 });
        proof {
            let id0 = id@;
            assert(s0.account(id0) is None);
            assert forall|other: Seq<char>| #[trigger] self.account(other) == s2.account(other) by {}
            assert forall|other: Seq<char>| other != id0 implies #[trigger] self.account(other) == s0.account(other) by {
                assert(s2.account(other) == s1.account(other));
            }
            assert forall|other: Seq<char>| #[trigger] self.account(other) is Some implies !delegates_to(
                self.account(other).unwrap(),
                other,
            ) by {
                assert(self.account(other) == s2.account(other));
            }
            assert forall|other: Seq<char>| self.accounts@.contains_key(other) <==> self.account(other) is Some by {
                if other != id0 {
                    assert(self.account(other) == s0.account(other));
                    assert(s0.accounts@.contains_key(other) <==> s0.account(other) is Some);
                }
            }
            assert(self.supply_ok());
            s0.lemma_unregistered_has_no_delegators(id0);
            assert(self.tree.data@ == s1.tree.data@);
            assert forall|r: Seq<char>| #[trigger] self.account(r) is Some implies self.account(r).unwrap().delegated_balance.near_balance.0
                == delegated_near(self.tree.data@, r) by {
                assert(delegated_near(s1.tree.data@, r) == delegated_near(s0.tree.data@, r));
                if r != id0 {
                    assert(s0.account(r) is Some);
                }
            }
            assert forall|other: Seq<char>| #[trigger] self.account(other) is Some implies (self.account(other).unwrap().delegation matches Some(d)
                ==> self.account(d.account_id@) is Some) by {
                if other != id0 && self.account(other).unwrap().delegation is Some {
                    let d = self.account(other).unwrap().delegation.unwrap().account_id@;
                    assert(s0.account(other) is Some);
                    assert(s0.account(d) is Some);
                    if d != id0 {
                        assert(self.account(d) == s0.account(d));
                    }
                }
            }
        }
        Ok(plan)
    }

    /// Why `on_lockup_deployed` fails, if it does.
    pub open spec fn deployed_error(self, ctx: CallContext, account_id: Seq<char>, nonce: u64, success: bool) -> Option<ContractError> {
        if ctx.predecessor_account_id@ != ctx.current_account_id@ {
            Some(ContractError::PermissionDenied)
        } else if !success {
            None
        } else if self.internal(account_id) is None {
            Some(ContractError::AccountNotRegistered)
        } else if self.internal(account_id).unwrap().lockup_update_nonce > nonce {
            Some(ContractError::InvalidNonce)
        } else if !valid_account_id(lockup_account_id(account_id, ctx.current_account_id@)) {
            Some(ContractError::InvalidLockupAccountId)
        } else {
            None
        }
    }

    /// The outcome of a lockup deployment, called back by the contract
    /// itself. On success the account records the lockup's version and
    /// starting nonce, and the lockup's account ID is returned; on failure
    /// the lockup deposit goes back to the account.
    pub fn on_lockup_deployed(
        &mut self,
        ctx: &CallContext,
        version: Version,
        account_id: AccountId,
        lockup_update_nonce: u64,
        lockup_deposit: NearToken,
        promise_success: bool,
    ) -> (res: Result<(Option<AccountId>, Option<Transfer>), ContractError>)
        requires
            old(self).wf(),
        ensures
            final(self).wf(),
            res is Err <==> old(self).deployed_error(*ctx, account_id@, lockup_update_nonce, promise_success) is Some,
            res matches Err(e) ==> old(self).deployed_error(*ctx, account_id@, lockup_update_nonce, promise_success)
                == Some(e) && *final(self) == *old(self),
            res is Ok && !promise_success ==> *final(self) == *old(self)
                && res == Ok::<(Option<AccountId>, Option<Transfer>), ContractError>(
                    (None, Some(Transfer { receiver_id: account_id, amount: lockup_deposit })),
                ),
            res is Ok && promise_success ==> {
                &&& res matches Ok((Some(lockup), None))
                    && lockup@ == lockup_account_id(account_id@, ctx.current_account_id@)
                &&& final(self).accounts@ == old(self).accounts@.insert(
                    account_id@,
                    VAccountInternal::Current(AccountInternal {
                        version: Some(version),
                        lockup_update_nonce,
                        ..old(self).internal(account_id@).unwrap()
                    }),
                )
                &&& final(self).tree == old(self).tree
                &&& final(self).config == old(self).config
                &&& final(self).paused == old(self).paused
                &&& final(self).lockup_codes@ == old(self).lockup_codes@
                &&& final(self).lsts@ == old(self).lsts@
            },
    {
        if ctx.predecessor_account_id != ctx.current_account_id {
            return Err(ContractError::PermissionDenied);
        }
        if !promise_success {
            return Ok((None, Some(Transfer { receiver_id: account_id, amount: lockup_deposit })));
        }
        let mut account_internal = match self.internal_get_account_internal(account_id.as_str()) {
            Some(a) => a,
            None => return Err(ContractError::AccountNotRegistered),
        };
        if account_internal.lockup_update_nonce > lockup_update_nonce {
            return Err(ContractError::InvalidNonce);
        }
        let lockup = match internal_map_owner_account_id(account_id.as_str(), ctx.current_account_id.as_str()) {
            Some(id) => id,
            None => return Err(ContractError::InvalidLockupAccountId),
        };
        account_internal.version = Some(version);
        account_internal.lockup_update_nonce = lockup_update_nonce;
        let ghost s0 = *self;
        self.internal_set_account_internal(account_id, account_internal);
        proof {
            s0.lemma_same_tree(*self);
        }
        Ok((Some(lockup), None))
    }

    /// An account's tree record grown to the block's time, and its internal
    /// record; `None` for an account that is not registered.
    pub fn get_account_info(&self, ctx: &CallContext, account_id: AccountId) -> (res: Result<Option<AccountInfo>, ContractError>)
        requires
            self.wf(),
        ensures
            self.internal(account_id@) is None ==> res == Ok::<Option<AccountInfo>, ContractError>(None),
            self.internal(account_id@) is Some && update_error(*self, account_id@, ctx.block_timestamp) is Some
                ==> res == Err::<Option<AccountInfo>, ContractError>(update_error(*self, account_id@, ctx.block_timestamp).unwrap()),
            self.internal(account_id@) is Some && update_error(*self, account_id@, ctx.block_timestamp) is None
                ==> res == Ok::<Option<AccountInfo>, ContractError>(Some(AccountInfo {
                    account: self.updated(account_id@, ctx.block_timestamp),
                    internal: self.internal(account_id@).unwrap(),
                })),
    {
        let internal = match self.internal_get_account_internal(account_id.as_str()) {
            Some(i) => i,
            None => return Ok(None),
        };
        match self.internal_expect_account_updated(account_id.as_str(), ctx.block_timestamp) {
            Ok(account) => Ok(Some(AccountInfo { account, internal })),
            Err(e) => Err(e),
        }
    }
}

} // verus!
