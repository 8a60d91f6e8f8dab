//! Delegating an account's whole veNEAR balance to another account, and
//! taking it back.
use vstd::prelude::*;
use crate::account::{Account, AccountDelegation, AccountId};
use crate::account_id::valid_account_id;
use crate::context::CallContext;
use crate::error::ContractError;
use crate::token::TimestampNs;
use crate::lockup_update::LockupUpdateV1;
use crate::venear_contract::{delegated_near, delegated_part, delegates_to, update_error, AccountInternal, Contract};

verus! {

impl Contract {
    /// Why taking back `a`'s delegation at `ts` fails, if it does.
    pub open spec fn undelegate_error(self, a: Account, ts: u64) -> Option<ContractError> {
        match a.delegation {
            None => Some(ContractError::NotDelegated),
            Some(d) => if update_error(self, d.account_id@, ts) is Some {
                update_error(self, d.account_id@, ts)
            } else if !self.updated(d.account_id@, ts).delegated_balance.can_sub(a.balance) {
                Some(ContractError::BalanceOutOfRange)
            } else {
                None
            },
        }
    }

    /// The delegate's record once `a` has taken back its balance.
    pub open spec fn released(self, a: Account, ts: u64) -> Account {
        let r = self.updated(a.delegation.unwrap().account_id@, ts);
        Account { delegated_balance: r.delegated_balance.spec_minus(a.balance), ..r }
    }

    /// Why `delegate_all` refuses, if it does.
    pub open spec fn delegate_all_error(self, ctx: CallContext, receiver: Seq<char>) -> Option<ContractError> {
        let pred = ctx.predecessor_account_id@;
        let ts = ctx.block_timestamp;
        let a = self.updated(pred, ts);
        if !ctx.one_yocto() {
            Some(ContractError::RequiresOneYocto)
        } else if self.paused {
            Some(ContractError::Paused)
        } else if receiver == pred {
            Some(ContractError::SelfDelegation)
        } else if update_error(self, pred, ts) is Some {
            update_error(self, pred, ts)
        } else if delegates_to(a, receiver) {
            None
        } else if a.delegation is Some && self.undelegate_error(a, ts) is Some {
            self.undelegate_error(a, ts)
        } else if update_error(self, receiver, ts) is Some {
            update_error(self, receiver, ts)
        } else if !self.updated(receiver, ts).delegated_balance.can_add(a.balance) {
            Some(ContractError::BalanceOutOfRange)
        } else {
            None
        }
    }

    /// The state after the caller delegated to `receiver`: the caller's record
    /// names the receiver, the receiver's delegated balance gained the
    /// caller's balance, a former delegate's lost it, and nothing else changed.
    pub open spec fn delegate_all_post(self, post: Contract, ctx: CallContext, receiver: AccountId) -> bool {
        let pred = ctx.predecessor_account_id@;
        let ts = ctx.block_timestamp;
        let a = self.updated(pred, ts);
        let r = self.updated(receiver@, ts);
        &&& post.account(pred) == Some(
            Account { delegation: Some(AccountDelegation { account_id: receiver }), ..a },
        )
        &&& post.account(receiver@) == Some(
            Account { delegated_balance: r.delegated_balance.spec_plus(a.balance), ..r },
        )
        &&& a.delegation is Some ==> post.account(a.delegation.unwrap().account_id@) == Some(
            self.released(a, ts),
        )
        &&& forall|id: Seq<char>|
            id != pred && id != receiver@ && !delegates_to(a, id) ==> #[trigger] post.account(id)
                == self.account(id)
        &&& post.global() == self.global()
        &&& post.same_but_tree(self)
    }

    /// The state after the caller took back its delegation: the caller
    /// names no delegate, the delegate's delegated balance lost the caller's
    /// balance, and nothing else changed.
    pub open spec fn undelegate_post(self, post: Contract, ctx: CallContext) -> bool {
        let pred = ctx.predecessor_account_id@;
        let a = self.updated(pred, ctx.block_timestamp);
        let o = a.delegation.unwrap().account_id@;
        &&& post.account(pred) == Some(Account { delegation: None, ..a })
        &&& post.account(o) == Some(self.released(a, ctx.block_timestamp))
        &&& forall|id: Seq<char>| id != pred && id != o ==> #[trigger] post.account(id) == self.account(id)
        &&& post.global() == self.global()
        &&& post.same_but_tree(self)
    }

    /// Why `undelegate` refuses, if it does.
    pub open spec fn undelegate_call_error(self, ctx: CallContext) -> Option<ContractError> {
        let pred = ctx.predecessor_account_id@;
        let ts = ctx.block_timestamp;
        if !ctx.one_yocto() {
            Some(ContractError::RequiresOneYocto)
        } else if self.paused {
            Some(ContractError::Paused)
        } else if update_error(self, pred, ts) is Some {
            update_error(self, pred, ts)
        } else {
            self.undelegate_error(self.updated(pred, ts), ts)
        }
    }

    /// Takes back `account`'s delegation: the delegate's record, grown to
    /// `block_timestamp`, loses `account`'s balance, and `account` no longer
    /// names a delegate. `account` itself is not stored.
    pub fn internal_undelegate(&mut self, account: &mut Account, block_timestamp: TimestampNs, block_height: u64) -> (res: Result<(), ContractError>)
        requires
            old(self).wf(),
        ensures
            res is Err <==> old(self).undelegate_error(*old(account), block_timestamp) is Some,
            res matches Err(e) ==> old(self).undelegate_error(*old(account), block_timestamp) == Some(e)
                && *final(self) == *old(self) && *final(account) == *old(account),
            res is Ok ==> {
                let o = old(account).delegation.unwrap().account_id@;
                &&& final(self).wf_tree()
                &&& final(self).keys_agree()
                &&& final(self).supply_ok()
                &&& forall|r: Seq<char>| #[trigger] delegated_near(final(self).tree.data@, r)
                    == delegated_near(old(self).tree.data@, r)
                &&& *final(account) == Account { delegation: None, ..*old(account) }
                &&& final(self).account(o) == Some(old(self).released(*old(account), block_timestamp))
                &&& forall|id: Seq<char>| id != o ==> #[trigger] final(self).account(id) == old(self).account(id)
                &&& final(self).global() == old(self).global()
                &&& final(self).same_but_tree(*old(self))
                &&& final(self).tree.spec_snapshot(block_height) == old(self).tree.spec_snapshot(block_height)
            },
    {
        let delegation_account_id = match &account.delegation {
            Some(d) => d.account_id.clone(),
            None => return Err(ContractError::NotDelegated),
        };
        let mut delegation_account = match self.internal_expect_account_updated(delegation_account_id.as_str(), block_timestamp) {
            Ok(a) => a,
            Err(e) => return Err(e),
        };
        let b = account.balance;
        if delegation_account.delegated_balance.near_balance.0 < b.near_balance.0 {
            return Err(ContractError::BalanceOutOfRange);
        }
        delegation_account.delegated_balance.sub_balance(b);
        proof {
            self.lemma_stored_encodable(delegation_account_id@);
        }
        self.internal_set_account(delegation_account_id, delegation_account, block_height);
        account.delegation = None;
        Ok(())
    }

    /// Delegates all of the caller's veNEAR to `receiver_id`, which must be
    /// registered. Requires exactly one yoctoNEAR. Delegating again to the
    /// current delegate changes nothing.
    pub fn delegate_all(&mut self, ctx: &CallContext, receiver_id: AccountId) -> (res: Result<(), ContractError>)
        requires
            old(self).wf(),
            ctx.wf(),
            valid_account_id(receiver_id@),
        ensures
            final(self).wf(),
            res is Err <==> old(self).delegate_all_error(*ctx, receiver_id@) is Some,
            res matches Err(e) ==> old(self).delegate_all_error(*ctx, receiver_id@) == Some(e)
                && *final(self) == *old(self),
            res is Ok && delegates_to(old(self).updated(ctx.predecessor_account_id@, ctx.block_timestamp), receiver_id@)
                ==> *final(self) == *old(self),
            res is Ok && !delegates_to(old(self).updated(ctx.predecessor_account_id@, ctx.block_timestamp), receiver_id@)
                ==> old(self).delegate_all_post(*final(self), *ctx, receiver_id),
    {
        let ts = ctx.block_timestamp;
        let bh = ctx.block_height;
        if ctx.attached_deposit.0 != 1 {
            return Err(ContractError::RequiresOneYocto);
        }
        if self.paused {
            return Err(ContractError::Paused);
        }
        if receiver_id == ctx.predecessor_account_id {
            return Err(ContractError::SelfDelegation);
        }
        let ghost pred = ctx.predecessor_account_id@;
        let mut account = match self.internal_expect_account_updated(ctx.predecessor_account_id.as_str(), ts) {
            Ok(a) => a,
            Err(e) => return Err(e),
        };
        let ghost a = account;
        match &account.delegation {
            Some(d) => {
                if d.account_id == receiver_id {
                    return Ok(());
                }
            },
            None => {},
        }
        // Every check comes before the first change.
        match &account.delegation {
            Some(d) => {
                let o = match self.internal_expect_account_updated(d.account_id.as_str(), ts) {
                    Ok(o) => o,
                    Err(e) => return Err(e),
                };
                if o.delegated_balance.near_balance.0 < account.balance.near_balance.0 {
                    return Err(ContractError::BalanceOutOfRange);
                }
            },
            None => {},
        }
        let mut receiver = match self.internal_expect_account_updated(receiver_id.as_str(), ts) {
            Ok(r) => r,
            Err(e) => return Err(e),
        };
        if receiver.delegated_balance.near_balance.0 > u128::MAX - account.balance.near_balance.0
            || receiver.delegated_balance.extra_venear_balance.0 > u128::MAX - account.balance.extra_venear_balance.0 {
            return Err(ContractError::BalanceOutOfRange);
        }
        let ghost s0 = *self;
        if account.delegation.is_some() {
            match self.internal_undelegate(&mut account, ts, bh) {
                Ok(()) => {},
                Err(e) => return Err(e),
            }
        }
        let ghost s1 = *self;
        assert(account.balance == a.balance);
        receiver.delegated_balance.add_balance(account.balance);
        proof {
            s0.lemma_stored_encodable(receiver_id@);
            s0.lemma_stored_encodable(pred);
            assert(s1.account(receiver_id@) == s0.account(receiver_id@));
        }
        self.internal_set_account(receiver_id.clone(), receiver, bh);
        let ghost s2 = *self;
        account.delegation = Some(AccountDelegation { account_id: receiver_id });
        assert(s2.account(pred) == s0.account(pred)) by {
            assert(s1.account(pred) == s0.account(pred));
        }
        self.internal_set_account(ctx.predecessor_account_id.clone(), account, bh);
        proof {
            assert forall|id: Seq<char>|
                id != pred && id != receiver_id@ && !delegates_to(a, id) implies #[trigger] self.account(id)
                    == s0.account(id) by {
                assert(s2.account(id) == s1.account(id));
                assert(s1.account(id) == s0.account(id));
            }
            if a.delegation is Some {
                let o = a.delegation.unwrap().account_id@;
                assert(self.account(o) == s2.account(o));
            }
            assert(s1.account(pred) == s0.account(pred));
            assert(s1.account(receiver_id@) == s0.account(receiver_id@));
            assert forall|r: Seq<char>| #[trigger] delegated_near(self.tree.data@, r) == delegated_near(s0.tree.data@, r)
                - delegated_part(s0.account(pred).unwrap(), r) + delegated_part(self.account(pred).unwrap(), r) by {
                assert(delegated_near(s2.tree.data@, r) == delegated_near(s1.tree.data@, r)
                    - delegated_part(s1.account(receiver_id@).unwrap(), r) + delegated_part(s2.account(receiver_id@).unwrap(), r));
                assert(delegated_near(s1.tree.data@, r) == delegated_near(s0.tree.data@, r));
            }
            lemma_delegate_all_delegations(s0, *self, *ctx, receiver_id);
        }
        Ok(())
    }

    /// Takes back the caller's delegation. Requires exactly one yoctoNEAR.
    pub fn undelegate(&mut self, ctx: &CallContext) -> (res: Result<(), ContractError>)
        requires
            old(self).wf(),
            ctx.wf(),
        ensures
            final(self).wf(),
            res is Err <==> old(self).undelegate_call_error(*ctx) is Some,
            res matches Err(e) ==> old(self).undelegate_call_error(*ctx) == Some(e) && *final(self) == *old(self),
            res is Ok ==> old(self).undelegate_post(*final(self), *ctx),
    {
        let ts = ctx.block_timestamp;
        if ctx.attached_deposit.0 != 1 {
            return Err(ContractError::RequiresOneYocto);
        }
        if self.paused {
            return Err(ContractError::Paused);
        }
        let ghost pred = ctx.predecessor_account_id@;
        let mut account = match self.internal_expect_account_updated(ctx.predecessor_account_id.as_str(), ts) {
            Ok(a) => a,
            Err(e) => return Err(e),
        };
        let ghost s0 = *self;
        proof {
            s0.lemma_stored_encodable(pred);
        }
        match self.internal_undelegate(&mut account, ts, ctx.block_height) {
            Ok(()) => {},
            Err(e) => return Err(e),
        }
        let ghost s1 = *self;
        self.internal_set_account(ctx.predecessor_account_id.clone(), account, ctx.block_height);
        proof {
            let o = s0.updated(pred, ts).delegation.unwrap().account_id@;
            assert forall|id: Seq<char>| id != pred && id != o
                implies #[trigger] self.account(id) == s0.account(id) by {
                assert(s1.account(id) == s0.account(id));
            }
            assert(s1.account(pred) == s0.account(pred));
            assert forall|r: Seq<char>| #[trigger] self.account(r) is Some implies self.account(r).unwrap().delegated_balance.near_balance.0
                == delegated_near(self.tree.data@, r) by {
                assert(delegated_near(self.tree.data@, r) == delegated_near(s1.tree.data@, r)
                    - delegated_part(s1.account(pred).unwrap(), r) + delegated_part(self.account(pred).unwrap(), r));
                assert(delegated_near(s1.tree.data@, r) == delegated_near(s0.tree.data@, r));
                if r != pred && r != o {
                    assert(s0.account(r) is Some);
                }
                if r == pred {
                    assert(s0.account(r) is Some);
                }
            }
            assert forall|id: Seq<char>| #[trigger] self.account(id) is Some implies (self.account(id).unwrap().delegation matches Some(d)
                ==> self.account(d.account_id@) is Some) by {
                if id != pred && self.account(id).unwrap().delegation is Some {
                    let d = self.account(id).unwrap().delegation.unwrap().account_id@;
                    assert(s0.account(id) is Some);
                    assert(s0.account(d) is Some);
                    if d != pred && d != o {
                        assert(self.account(d) == s0.account(d));
                    }
                }
            }
        }
        Ok(())
    }
}

/// After a delegation moved to `receiver`, what each account holds as
/// delegated NEAR is still what the others delegate to it.
proof fn lemma_delegate_all_delegations(c0: Contract, c1: Contract, ctx: CallContext, receiver: AccountId)
    requires
        c0.wf(),
        c1.wf_tree(),
        c0.delegate_all_error(ctx, receiver@) is None,
        !delegates_to(c0.updated(ctx.predecessor_account_id@, ctx.block_timestamp), receiver@),
        c0.delegate_all_post(c1, ctx, receiver),
        forall|r: Seq<char>| #[trigger] delegated_near(c1.tree.data@, r) == delegated_near(c0.tree.data@, r)
            - delegated_part(c0.account(ctx.predecessor_account_id@).unwrap(), r)
            + delegated_part(c1.account(ctx.predecessor_account_id@).unwrap(), r),
    ensures
        c1.delegations_ok(),
{
    let pred = ctx.predecessor_account_id@;
    let ts = ctx.block_timestamp;
    let a = c0.updated(pred, ts);
    assert forall|r: Seq<char>| #[trigger] c1.account(r) is Some implies c1.account(r).unwrap().delegated_balance.near_balance.0
        == delegated_near(c1.tree.data@, r) by {
        assert(c0.account(r) is Some);
        if r != pred && r != receiver@ && !delegates_to(a, r) {
            assert(c1.account(r) == c0.account(r));
        }
    }
    assert forall|id: Seq<char>| #[trigger] c1.account(id) is Some implies (c1.account(id).unwrap().delegation matches Some(d)
        ==> c1.account(d.account_id@) is Some) by {
        if c1.account(id).unwrap().delegation is Some {
            let d = c1.account(id).unwrap().delegation.unwrap().account_id@;
            assert(c0.account(id) is Some);
            if id != pred {
                assert(c0.account(d) is Some);
                if d != pred && d != receiver@ && !delegates_to(a, d) {
                    assert(c1.account(d) == c0.account(d));
                }
            }
        }
    }
}

/// In every state that the calls keep, each account's delegated NEAR is
/// the NEAR of the accounts that delegate to it, and every delegation names
/// a registered account: taking a delegation back, whenever it happens,
/// leaves nothing of the delegator's NEAR with the delegate.
pub proof fn lemma_delegated_near_is_delegators_near(c: Contract, r: Seq<char>)
    requires
        c.wf(),
        c.account(r) is Some,
    ensures
        c.account(r).unwrap().delegated_balance.near_balance.0 == delegated_near(c.tree.data@, r),
        forall|id: Seq<char>|
            #[trigger] c.account(id) is Some ==> (c.account(id).unwrap().delegation matches Some(d)
                ==> c.account(d.account_id@) is Some),
{
}

/// Delegating to an account and then taking the delegation back, in the
/// same second, leaves both records as they were, grown to that second.
pub proof fn lemma_delegate_undelegate_round_trip(
    c0: Contract,
    c1: Contract,
    c2: Contract,
    ctx: CallContext,
    receiver: AccountId,
)
    requires
        c0.wf(),
        c0.delegate_all_error(ctx, receiver@) is None,
        c0.updated(ctx.predecessor_account_id@, ctx.block_timestamp).delegation is None,
        c0.delegate_all_post(c1, ctx, receiver),
        c1.undelegate_call_error(ctx) is None,
        c1.undelegate_post(c2, ctx),
    ensures
        c2.account(ctx.predecessor_account_id@) == Some(c0.updated(ctx.predecessor_account_id@, ctx.block_timestamp)),
        c2.account(receiver@) == Some(c0.updated(receiver@, ctx.block_timestamp)),
        forall|id: Seq<char>|
            id != ctx.predecessor_account_id@ && id != receiver@ ==> #[trigger] c2.account(id) == c0.account(id),
        c2.global() == c0.global(),
{
    let pred = ctx.predecessor_account_id@;
    let ts = ctx.block_timestamp;
    let cfg = c0.growth_config();
    let a0 = c0.updated(pred, ts);
    let r0 = c0.updated(receiver@, ts);
    let a1 = c1.account(pred).unwrap();
    let r1 = c1.account(receiver@).unwrap();
    assert(c1.growth_config() == cfg);
    crate::account::lemma_update_same_second(a1, ts, cfg);
    crate::account::lemma_update_same_second(r1, ts, cfg);
    assert(c1.updated(pred, ts) == a1);
    assert(c1.updated(receiver@, ts) == r1);
    assert(c2.account(receiver@) == Some(c1.released(a1, ts)));
    assert(r1.delegated_balance.spec_minus(a1.balance) == r0.delegated_balance);
    assert forall|id: Seq<char>|
        id != pred && id != receiver@ implies #[trigger] c2.account(id) == c0.account(id) by {
        assert(c2.account(id) == c1.account(id));
        assert(!delegates_to(a0, id));
    }
}

/// The delegate's own lockup updates, at any times, keep the delegator's
/// delegation and NEAR, and the delegate's delegated NEAR.
proof fn lemma_delegate_updates_keep(
    steps: Seq<Contract>,
    ctxs: Seq<CallContext>,
    internals: Seq<AccountInternal>,
    updates: Seq<LockupUpdateV1>,
    pred: Seq<char>,
    receiver: AccountId,
    k: nat,
)
    requires
        pred != receiver@,
        steps.len() == ctxs.len() + 1,
        internals.len() == ctxs.len(),
        updates.len() == ctxs.len(),
        k < steps.len(),
        steps[0].account(pred) matches Some(a) && delegates_to(a, receiver@),
        steps[0].account(receiver@) is Some,
        forall|j: int|
            #![trigger ctxs[j]]
            0 <= j < ctxs.len() ==> steps[j].lockup_update_post(steps[j + 1], ctxs[j], receiver, internals[j], updates[j]),
    ensures
        steps[k as int].account(pred) matches Some(a) && delegates_to(a, receiver@)
            && a.balance.near_balance == steps[0].account(pred).unwrap().balance.near_balance,
        steps[k as int].account(receiver@) matches Some(r)
            && r.delegated_balance.near_balance == steps[0].account(receiver@).unwrap().delegated_balance.near_balance,
    decreases k,
{
    if k > 0 {
        let j = k - 1;
        lemma_delegate_updates_keep(steps, ctxs, internals, updates, pred, receiver, j as nat);
        let c = steps[j];
        let ctx = ctxs[j];
        assert(c.lockup_update_post(steps[j + 1], ctx, receiver, internals[j], updates[j]));
        let a = c.updated(receiver@, ctx.block_timestamp);
        if !delegates_to(a, pred) {
            assert(steps[k as int].account(pred) == c.account(pred));
        }
    }
}

/// `delegate_all` to an account, then any number of that account's own
/// lockup updates (each a successful `on_lockup_update`, as its lockup's
/// `lock_near` sends them) at any later times, then `undelegate`, leaves
/// the account's delegated NEAR as it was before the delegation and the
/// delegator with no delegation: nothing of the delegator's NEAR stays
/// behind, whatever the rounding of the extra veNEAR.
pub proof fn lemma_delegation_round_trip_across_updates(
    c0: Contract,
    dctx: CallContext,
    receiver: AccountId,
    steps: Seq<Contract>,
    ctxs: Seq<CallContext>,
    internals: Seq<AccountInternal>,
    updates: Seq<LockupUpdateV1>,
    uctx: CallContext,
    c3: Contract,
)
    requires
        c0.wf(),
        c0.delegate_all_error(dctx, receiver@) is None,
        c0.updated(dctx.predecessor_account_id@, dctx.block_timestamp).delegation is None,
        steps.len() == ctxs.len() + 1,
        internals.len() == ctxs.len(),
        updates.len() == ctxs.len(),
        c0.delegate_all_post(steps[0], dctx, receiver),
        forall|j: int|
            #![trigger ctxs[j]]
            0 <= j < ctxs.len() ==> steps[j].lockup_update_post(steps[j + 1], ctxs[j], receiver, internals[j], updates[j]),
        uctx.predecessor_account_id@ == dctx.predecessor_account_id@,
        steps.last().undelegate_call_error(uctx) is None,
        steps.last().undelegate_post(c3, uctx),
    ensures
        c3.account(dctx.predecessor_account_id@) matches Some(a) && a.delegation is None,
        c3.account(receiver@) matches Some(r)
            && r.delegated_balance.near_balance == c0.account(receiver@).unwrap().delegated_balance.near_balance,
{
    let pred = dctx.predecessor_account_id@;
    let n = ctxs.len();
    lemma_delegate_updates_keep(steps, ctxs, internals, updates, pred, receiver, n);
    let last = steps[n as int];
    assert(last == steps.last());
    let a = last.updated(pred, uctx.block_timestamp);
    assert(delegates_to(a, receiver@));
    assert(c3.account(receiver@) == Some(last.released(a, uctx.block_timestamp)));
}

} // verus!
