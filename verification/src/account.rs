//! The account record that the Merkle tree stores.
use vstd::prelude::*;
use crate::token::{near_add, spec_truncate_to_seconds, truncate_to_seconds, NearToken, TimestampNs};
use crate::venear::{PooledVenearBalance, VenearBalance, VenearGrowthConfig};

verus! {

/// A NEAR account ID.
pub type AccountId = String;

/// The details of the delegation of veNEAR from one account to another.
/// The whole balance is delegated.
#[derive(Clone, Debug)]
pub struct AccountDelegation {
    /// The account that the veNEAR was delegated to.
    pub account_id: AccountId,
}

/// The account details that are stored in the Merkle tree.
#[derive(Clone, Debug)]
pub struct Account {
    /// The account ID. Required for the security of the Merkle tree proofs.
    pub account_id: AccountId,
    /// The timestamp in nanoseconds when the account was last updated.
    pub update_timestamp: TimestampNs,
    /// The NEAR balance reported by the lockup contract and the extra veNEAR
    /// it has earned.
    pub balance: VenearBalance,
    /// The NEAR and veNEAR that other accounts delegated to this account.
    pub delegated_balance: PooledVenearBalance,
    /// The delegation, when this account has delegated its balance.
    pub delegation: Option<AccountDelegation>,
}

/// A versioned account record.
#[derive(Clone, Debug)]
pub enum VAccount {
    V0(Account),
}

impl From<Account> for VAccount {
    fn from(account: Account) -> (res: Self) {
        VAccount::V0(account)
    }
}

impl vstd::std_specs::convert::FromSpecImpl<Account> for VAccount {
    open spec fn obeys_from_spec() -> bool {
        true
    }

    open spec fn from_spec(account: Account) -> VAccount {
        VAccount::V0(account)
    }
}

impl From<VAccount> for Account {
    fn from(value: VAccount) -> (res: Self) {
        match value {
            VAccount::V0(account) => account,
        }
    }
}

impl vstd::std_specs::convert::FromSpecImpl<VAccount> for Account {
    open spec fn obeys_from_spec() -> bool {
        true
    }

    open spec fn from_spec(value: VAccount) -> Account {
        match value {
            VAccount::V0(account) => account,
        }
    }
}

impl VAccount {
    /// A copy of the versioned account.
    pub fn duplicate(&self) -> (res: VAccount)
        ensures
            res == *self,
    {
        match self {
            VAccount::V0(a) => VAccount::V0(a.duplicate()),
        }
    }

    /// The account inside.
    pub open spec fn account(self) -> Account {
        match self {
            VAccount::V0(account) => account,
        }
    }
}

impl AccountDelegation {
    /// A copy of the delegation.
    pub fn duplicate(&self) -> (res: AccountDelegation)
        ensures
            res == *self,
    {
        AccountDelegation { account_id: self.account_id.clone() }
    }
}

impl Account {
    /// A copy of the account.
    pub fn duplicate(&self) -> (res: Account)
        ensures
            res == *self,
    {
        let delegation = match &self.delegation {
            Some(d) => Some(d.duplicate()),
            None => None,
        };
        Account {
            account_id: self.account_id.clone(),
            update_timestamp: self.update_timestamp,
            balance: self.balance,
            delegated_balance: self.delegated_balance,
            delegation,
        }
    }

    /// The inputs on which `update` succeeds: time does not go back and both
    /// balances can grow.
    pub open spec fn update_ok(self, current: u64, config: VenearGrowthConfig) -> bool {
        let cur = spec_truncate_to_seconds(current);
        &&& self.update_timestamp <= cur
        &&& self.balance.update_ok(self.update_timestamp, cur, config)
        &&& self.delegated_balance.update_ok(self.update_timestamp, cur, config)
    }

    /// The account with both balances grown to `current`, rounded down to
    /// whole seconds.
    pub open spec fn spec_updated(self, current: u64, config: VenearGrowthConfig) -> Account {
        let cur = spec_truncate_to_seconds(current);
        Account {
            update_timestamp: cur,
            balance: self.balance.spec_updated(self.update_timestamp, cur, config),
            delegated_balance: self.delegated_balance.spec_updated(
                self.update_timestamp,
                cur,
                config,
            ),
            ..self
        }
    }

    /// The inputs on which `total_balance` succeeds.
    pub open spec fn total_balance_ok(self, current: u64, config: VenearGrowthConfig) -> bool {
        let cur = spec_truncate_to_seconds(current);
        let delegated = self.delegated_balance.spec_updated(self.update_timestamp, cur, config);
        let own = self.balance.spec_updated(self.update_timestamp, cur, config);
        &&& self.update_timestamp <= cur
        &&& self.delegated_balance.update_ok(self.update_timestamp, cur, config)
        &&& delegated.spec_total() <= u128::MAX
        &&& self.delegation is None ==> {
            &&& self.balance.update_ok(self.update_timestamp, cur, config)
            &&& own.spec_total() <= u128::MAX
            &&& delegated.spec_total() + own.spec_total() <= u128::MAX
        }
    }

    /// The veNEAR of the account at `current`: what was delegated to it,
    /// plus its own balance unless it delegated that.
    pub open spec fn spec_total_balance(self, current: u64, config: VenearGrowthConfig) -> int {
        let cur = spec_truncate_to_seconds(current);
        let delegated = self.delegated_balance.spec_updated(self.update_timestamp, cur, config);
        let own = self.balance.spec_updated(self.update_timestamp, cur, config);
        if self.delegation is None {
            delegated.spec_total() + own.spec_total()
        } else {
            delegated.spec_total()
        }
    }

    /// The veNEAR of the account at `current_timestamp`, without modifying it.
    pub fn total_balance(
        &self,
        current_timestamp: TimestampNs,
        venear_growth_config: &VenearGrowthConfig,
    ) -> (res: NearToken)
        requires
            self.total_balance_ok(current_timestamp, *venear_growth_config),
        ensures
            res.0 == self.spec_total_balance(current_timestamp, *venear_growth_config),
    {
        self.try_total_balance(current_timestamp, venear_growth_config).unwrap()
    }

    /// The veNEAR of the account at `current_timestamp`, or `None` on the
    /// inputs that `total_balance` refuses.
    pub fn try_total_balance(
        &self,
        current_timestamp: TimestampNs,
        venear_growth_config: &VenearGrowthConfig,
    ) -> (res: Option<NearToken>)
        ensures
            res is Some <==> self.total_balance_ok(current_timestamp, *venear_growth_config),
            res matches Some(t) ==> t.0 == self.spec_total_balance(
                current_timestamp,
                *venear_growth_config,
            ),
    {
        let current_timestamp = truncate_to_seconds(current_timestamp);
        if current_timestamp < self.update_timestamp {
            return None;
        }
        let delegated_balance = match self.delegated_balance.try_updated(
            self.update_timestamp,
            current_timestamp,
            venear_growth_config,
        ) {
            Some(b) => b,
            None => return None,
        };
        let total = match delegated_balance.try_total() {
            Some(t) => t,
            None => return None,
        };
        if self.delegation.is_none() {
            let balance = match self.balance.try_updated(
                self.update_timestamp,
                current_timestamp,
                venear_growth_config,
            ) {
                Some(b) => b,
                None => return None,
            };
            let own = match balance.try_total() {
                Some(t) => t,
                None => return None,
            };
            total.checked_add(own)
        } else {
            Some(total)
        }
    }

    /// Grows both balances to `current_timestamp`, rounded down to whole
    /// seconds, and records that time.
    pub fn update(
        &mut self,
        current_timestamp: TimestampNs,
        venear_growth_config: &VenearGrowthConfig,
    )
        requires
            old(self).update_ok(current_timestamp, *venear_growth_config),
        ensures
            *final(self) == old(self).spec_updated(current_timestamp, *venear_growth_config),
    {
        let ok = self.try_update(current_timestamp, venear_growth_config);
    }

    /// Grows both balances to `current_timestamp` and returns `true`, or
    /// leaves the account unchanged and returns `false` on the inputs that
    /// `update` refuses.
    pub fn try_update(
        &mut self,
        current_timestamp: TimestampNs,
        venear_growth_config: &VenearGrowthConfig,
    ) -> (ok: bool)
        ensures
            ok == old(self).update_ok(current_timestamp, *venear_growth_config),
            ok ==> *final(self) == old(self).spec_updated(current_timestamp, *venear_growth_config),
            !ok ==> *final(self) == *old(self),
    {
        let current_timestamp = truncate_to_seconds(current_timestamp);
        if current_timestamp < self.update_timestamp {
            return false;
        }
        let balance = match self.balance.try_updated(
            self.update_timestamp,
            current_timestamp,
            venear_growth_config,
        ) {
            Some(b) => b,
            None => return false,
        };
        let delegated_balance = match self.delegated_balance.try_updated(
            self.update_timestamp,
            current_timestamp,
            venear_growth_config,
        ) {
            Some(b) => b,
            None => return false,
        };
        self.balance = balance;
        self.delegated_balance = delegated_balance;
        self.update_timestamp = current_timestamp;
        true
    }
}

/// Growing a record to the second it was last grown to changes nothing.
pub proof fn lemma_update_same_second(a: Account, ts: u64, config: VenearGrowthConfig)
    requires
        a.update_timestamp == spec_truncate_to_seconds(ts),
    ensures
        a.update_ok(ts, config),
        a.spec_updated(ts, config) == a,
{
    let t = a.update_timestamp;
    assert(t % 1_000_000_000 == 0) by {
        vstd::arithmetic::div_mod::lemma_fundamental_div_mod(ts as int, 1_000_000_000);
        vstd::arithmetic::div_mod::lemma_mod_multiples_basic(ts as int / 1_000_000_000, 1_000_000_000);
    }
}

/// An account's veNEAR never decreases as time passes.
pub proof fn lemma_total_balance_monotone(a: Account, t1: u64, t2: u64, cfg: VenearGrowthConfig)
    requires
        a.total_balance_ok(t1, cfg),
        a.total_balance_ok(t2, cfg),
        t1 <= t2,
    ensures
        a.spec_total_balance(t1, cfg) <= a.spec_total_balance(t2, cfg),
{
    let c1 = spec_truncate_to_seconds(t1);
    let c2 = spec_truncate_to_seconds(t2);
    vstd::arithmetic::div_mod::lemma_fundamental_div_mod(t1 as int, 1_000_000_000);
    vstd::arithmetic::div_mod::lemma_fundamental_div_mod(t2 as int, 1_000_000_000);
    vstd::arithmetic::div_mod::lemma_div_is_ordered(t1 as int, t2 as int, 1_000_000_000);
    assert(c1 <= c2) by (nonlinear_arith)
        requires
            c1 == t1 - t1 % 1_000_000_000,
            c2 == t2 - t2 % 1_000_000_000,
            t1 == 1_000_000_000 * (t1 / 1_000_000_000) + t1 % 1_000_000_000,
            t2 == 1_000_000_000 * (t2 / 1_000_000_000) + t2 % 1_000_000_000,
            t1 / 1_000_000_000 <= t2 / 1_000_000_000,
    ;
    crate::venear::lemma_growth_monotone(cfg, a.update_timestamp, c1, c2, a.delegated_balance.near_balance);
    crate::venear::lemma_growth_monotone(cfg, a.update_timestamp, c1, c2, a.balance.near_balance);
}

/// An account's veNEAR at `t` is what was delegated to it and, unless it
/// delegated, its own balance, each with the extra veNEAR its NEAR earned
/// from the record's time to `t` in whole seconds.
pub proof fn lemma_total_balance_includes_growth(a: Account, t: u64, cfg: VenearGrowthConfig)
    requires
        a.total_balance_ok(t, cfg),
    ensures
        ({
            let cur = spec_truncate_to_seconds(t);
            let delegated = a.delegated_balance.near_balance.0 + a.delegated_balance.extra_venear_balance.0
                + cfg.spec_growth(a.update_timestamp, cur, a.delegated_balance.near_balance);
            let own = a.balance.near_balance.0 + a.balance.extra_venear_balance.0
                + cfg.spec_growth(a.update_timestamp, cur, a.balance.near_balance);
            &&& a.delegation is None ==> a.spec_total_balance(t, cfg) == delegated + own
            &&& a.delegation is Some ==> a.spec_total_balance(t, cfg) == delegated
        }),
{
}

} // verus!
