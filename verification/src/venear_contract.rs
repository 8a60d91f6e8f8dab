//! The veNEAR contract: registered accounts, their veNEAR in the Merkle tree,
//! delegation, the lockup contracts that report locked NEAR, and the
//! governance of its configuration.
use vstd::prelude::*;
use vstd::hash_map::StringHashMap;
use crate::account::{Account, AccountId, VAccount};
use crate::context::CallContext;
use crate::crypto::{sha256_digest, CryptoHash};
use crate::encoding::encodable;
use crate::error::ContractError;
use crate::fraction::Fraction;
use crate::global_state::{GlobalState, VGlobalState};
use crate::merkle_tree::MerkleTree;
use crate::token::{spec_truncate_to_seconds, NearToken, TimestampNs, Version};
use crate::venear::{VenearGrowthConfig, VenearGrowthConfigFixedRate};

pub mod delegation;
pub mod lockup;
pub mod registration;
pub mod governance;
pub mod ft;
pub mod liquid_staking;


verus! {

broadcast use vstd::std_specs::hash::group_hash_axioms;

/// The configuration of the current lockup contract code.
#[derive(Clone, Copy, Debug)]
pub struct LockupContractConfig {
    /// The size of the code in bytes.
    pub contract_size: u64,
    /// The version of the code; each new code gets the next version.
    pub contract_version: Version,
    /// The SHA-256 of the code.
    pub contract_hash: CryptoHash,
}

/// The configuration of the veNEAR contract.
#[derive(Clone, Debug)]
pub struct Config {
    /// The configuration of the current lockup contract code.
    pub lockup_contract_config: Option<LockupContractConfig>,
    /// The unlock duration, in nanoseconds, that new lockup contracts get.
    pub lockup_duration_ns: u64,
    /// The staking pool whitelist that new lockup contracts get.
    pub staking_pool_whitelist_account_id: AccountId,
    /// The accounts that can store new lockup contract code.
    pub lockup_code_deployers: Vec<AccountId>,
    /// The NEAR kept for an account's storage in the veNEAR contract.
    pub local_deposit: NearToken,
    /// The least NEAR, beyond the code's storage, that a lockup deployment needs.
    pub min_extra_lockup_deposit: NearToken,
    /// The account that can change the configuration.
    pub owner_account_id: AccountId,
    /// The accounts that can pause the contract, besides the owner.
    pub guardians: Vec<AccountId>,
}

/// What the veNEAR contract keeps for an account beside its tree record.
#[derive(Clone, Copy, Debug, PartialEq, Eq, Structural)]
pub struct AccountInternal {
    /// The version of the account's lockup contract, once one is deployed.
    pub version: Option<Version>,
    /// The NEAR retained for the account's storage.
    pub deposit: NearToken,
    /// The nonce of the last lockup update.
    pub lockup_update_nonce: u64,
}

/// A versioned `AccountInternal`.
#[derive(Clone, Copy, Debug)]
pub enum VAccountInternal {
    Current(AccountInternal),
}

impl From<AccountInternal> for VAccountInternal {
    fn from(account: AccountInternal) -> (res: Self) {
        VAccountInternal::Current(account)
    }
}

impl vstd::std_specs::convert::FromSpecImpl<AccountInternal> for VAccountInternal {
    open spec fn obeys_from_spec() -> bool {
        true
    }

    open spec fn from_spec(account: AccountInternal) -> VAccountInternal {
        VAccountInternal::Current(account)
    }
}

impl From<VAccountInternal> for AccountInternal {
    fn from(value: VAccountInternal) -> (res: Self) {
        match value {
            VAccountInternal::Current(account) => account,
        }
    }
}

impl vstd::std_specs::convert::FromSpecImpl<VAccountInternal> for AccountInternal {
    open spec fn obeys_from_spec() -> bool {
        true
    }

    open spec fn from_spec(value: VAccountInternal) -> AccountInternal {
        match value {
            VAccountInternal::Current(account) => account,
        }
    }
}

impl VAccountInternal {
    /// The record inside.
    pub open spec fn internal(self) -> AccountInternal {
        match self {
            VAccountInternal::Current(account) => account,
        }
    }
}

/// An account's tree record, grown to now, and its internal record.
#[derive(Clone, Debug)]
pub struct AccountInfo {
    pub account: Account,
    pub internal: AccountInternal,
}

/// Lockup contract code stored under its hash.
#[derive(Clone, Debug)]
pub struct LockupCode {
    pub hash: CryptoHash,
    pub code: Vec<u8>,
}

/// The state of the veNEAR contract.
pub struct Contract {
    /// The accounts and the global state.
    pub tree: MerkleTree,
    /// The internal records, by account ID.
    pub accounts: StringHashMap<VAccountInternal>,
    pub config: Config,
    /// A paused contract creates no accounts or lockups, returns no
    /// snapshots or proofs, and lets no account delegate or undelegate.
    pub paused: bool,
    /// The lockup contract codes that were stored.
    pub lockup_codes: Vec<LockupCode>,
    /// The latest data of each liquid staking token, by token contract.
    pub lsts: StringHashMap<LstData>,
}

/// The data of a liquid staking token: what one token is worth in NEAR, and
/// when that was known.
#[derive(Clone, Copy, Debug)]
pub struct LstData {
    pub timestamp: TimestampNs,
    pub multiplier: Fraction,
}

/// The NEAR of a record.
pub open spec fn near_of(v: VAccount) -> int {
    v.account().balance.near_balance.0 as int
}

/// The NEAR of all the records.
pub open spec fn near_sum(s: Seq<VAccount>) -> int
    decreases s.len(),
{
    if s.len() == 0 {
        0
    } else {
        near_sum(s.drop_last()) + near_of(s.last())
    }
}

/// Adding a record adds its NEAR.
pub proof fn lemma_near_sum_push(s: Seq<VAccount>, v: VAccount)
    ensures
        near_sum(s.push(v)) == near_sum(s) + near_of(v),
{
    assert(s.push(v).drop_last() =~= s);
}

/// Replacing a record replaces its NEAR in the sum.
pub proof fn lemma_near_sum_update(s: Seq<VAccount>, i: int, v: VAccount)
    requires
        0 <= i < s.len(),
    ensures
        near_sum(s.update(i, v)) == near_sum(s) - near_of(s[i]) + near_of(v),
    decreases s.len(),
{
    if i == s.len() - 1 {
        assert(s.update(i, v).drop_last() =~= s.drop_last());
    } else {
        lemma_near_sum_update(s.drop_last(), i, v);
        assert(s.update(i, v).drop_last() =~= s.drop_last().update(i, v));
    }
}

/// The NEAR that an account gives `r` by delegating to it.
pub open spec fn delegated_part(a: Account, r: Seq<char>) -> int {
    if delegates_to(a, r) {
        a.balance.near_balance.0 as int
    } else {
        0
    }
}

/// The NEAR that the records delegate to `r`.
pub open spec fn delegated_near(s: Seq<VAccount>, r: Seq<char>) -> int
    decreases s.len(),
{
    if s.len() == 0 {
        0
    } else {
        delegated_near(s.drop_last(), r) + delegated_part(s.last().account(), r)
    }
}

/// Adding a record adds what it delegates.
pub proof fn lemma_delegated_near_push(s: Seq<VAccount>, v: VAccount, r: Seq<char>)
    ensures
        delegated_near(s.push(v), r) == delegated_near(s, r) + delegated_part(v.account(), r),
{
    assert(s.push(v).drop_last() =~= s);
}

/// Replacing a record replaces what it delegates.
pub proof fn lemma_delegated_near_update(s: Seq<VAccount>, i: int, v: VAccount, r: Seq<char>)
    requires
        0 <= i < s.len(),
    ensures
        delegated_near(s.update(i, v), r) == delegated_near(s, r) - delegated_part(s[i].account(), r)
            + delegated_part(v.account(), r),
    decreases s.len(),
{
    if i == s.len() - 1 {
        assert(s.update(i, v).drop_last() =~= s.drop_last());
    } else {
        lemma_delegated_near_update(s.drop_last(), i, v, r);
        assert(s.update(i, v).drop_last() =~= s.drop_last().update(i, v));
    }
}

/// Records none of which delegates to `r` delegate nothing to it.
pub proof fn lemma_delegated_near_none(s: Seq<VAccount>, r: Seq<char>)
    requires
        forall|i: int| 0 <= i < s.len() ==> !delegates_to(#[trigger] s[i].account(), r),
    ensures
        delegated_near(s, r) == 0,
    decreases s.len(),
{
    if s.len() > 0 {
        assert forall|i: int| 0 <= i < s.drop_last().len() implies !delegates_to(#[trigger] s.drop_last()[i].account(), r) by {
            assert(s.drop_last()[i] == s[i]);
        }
        lemma_delegated_near_none(s.drop_last(), r);
        assert(!delegates_to(s[s.len() - 1].account(), r));
    }
}

/// The account has delegated its balance to `id`.
pub open spec fn delegates_to(a: Account, id: Seq<char>) -> bool {
    a.delegation matches Some(d) && d.account_id@ == id
}

/// Why an account's record cannot be grown to `ts`, if it cannot.
pub open spec fn update_error(c: Contract, id: Seq<char>, ts: u64) -> Option<ContractError> {
    if c.account(id) is None {
        Some(ContractError::AccountNotRegistered)
    } else if !c.can_update(id, ts) {
        Some(ContractError::BalanceOutOfRange)
    } else {
        None
    }
}

impl Contract {
    /// No account delegates to itself.
    pub open spec fn no_self_delegation(self) -> bool {
        forall|id: Seq<char>| #[trigger] self.account(id) is Some ==> !delegates_to(self.account(id).unwrap(), id)
    }

    /// Each stored code is stored under its hash, and under no other.
    pub open spec fn codes_ok(self) -> bool {
        &&& forall|i: int|
            0 <= i < self.lockup_codes@.len() ==> (#[trigger] self.lockup_codes@[i]).hash@
                == sha256_digest(self.lockup_codes@[i].code@)
        &&& forall|i: int, j: int|
            0 <= i < self.lockup_codes@.len() && 0 <= j < self.lockup_codes@.len()
                && (#[trigger] self.lockup_codes@[i]).hash@ == (#[trigger] self.lockup_codes@[j]).hash@
                ==> i == j
    }

    /// The tree is consistent, no account delegates to itself, and the codes
    /// are stored under their hashes.
    pub open spec fn wf_tree(self) -> bool {
        &&& self.tree.wf()
        &&& self.no_self_delegation()
        &&& self.codes_ok()
    }

    /// An account has an internal record exactly when it has a tree record.
    pub open spec fn keys_agree(self) -> bool {
        forall|id: Seq<char>|
            #![trigger self.accounts@.contains_key(id)]
            #![trigger self.account(id)]
            self.accounts@.contains_key(id) <==> self.account(id) is Some
    }

    /// The NEAR of the total veNEAR is the sum of the accounts' NEAR.
    pub open spec fn supply_ok(self) -> bool {
        self.global().total_venear_balance.near_balance.0 == near_sum(self.tree.data@)
    }

    /// Every delegation names a registered account, and each account's
    /// delegated NEAR is the NEAR of the accounts that delegate to it.
    pub open spec fn delegations_ok(self) -> bool {
        &&& forall|id: Seq<char>|
            #[trigger] self.account(id) is Some ==> (self.account(id).unwrap().delegation matches Some(d)
                ==> self.account(d.account_id@) is Some)
        &&& forall|r: Seq<char>|
            #[trigger] self.account(r) is Some ==> self.account(r).unwrap().delegated_balance.near_balance.0
                == delegated_near(self.tree.data@, r)
    }

    /// The contract's internal consistency.
    pub open spec fn wf(self) -> bool {
        &&& self.wf_tree()
        &&& self.keys_agree()
        &&& self.supply_ok()
        &&& self.delegations_ok()
    }

    /// The tree record of an account.
    pub open spec fn account(self, id: Seq<char>) -> Option<Account> {
        match self.tree.spec_get(id) {
            Some(v) => Some(v.account()),
            None => None,
        }
    }

    /// The internal record of an account.
    pub open spec fn internal(self, id: Seq<char>) -> Option<AccountInternal> {
        if self.accounts@.contains_key(id) {
            Some(self.accounts@[id].internal())
        } else {
            None
        }
    }

    /// The global state.
    pub open spec fn global(self) -> GlobalState {
        self.tree.global_state.state()
    }

    /// How veNEAR grows.
    pub open spec fn growth_config(self) -> VenearGrowthConfig {
        self.global().venear_growth_config
    }

    /// The account's record can be grown to `ts`.
    pub open spec fn can_update(self, id: Seq<char>, ts: u64) -> bool {
        &&& self.account(id) is Some
        &&& self.account(id).unwrap().update_ok(ts, self.growth_config())
    }

    /// The account's record grown to `ts`.
    pub open spec fn updated(self, id: Seq<char>, ts: u64) -> Account {
        self.account(id).unwrap().spec_updated(ts, self.growth_config())
    }

    /// Only the tree's records and global state may differ.
    pub open spec fn same_but_tree(self, other: Contract) -> bool {
        &&& self.accounts@ == other.accounts@
        &&& self.config == other.config
        &&& self.paused == other.paused
        &&& self.lockup_codes@ == other.lockup_codes@
        &&& self.lsts@ == other.lsts@
    }

    /// A new contract with no accounts, the given configuration and growth
    /// rate, and the global state started at the block's time.
    pub fn new(config: Config, venear_growth_config: VenearGrowthConfigFixedRate, ctx: &CallContext) -> (res: Contract)
        ensures
            res.wf(),
            forall|id: Seq<char>| #[trigger] res.account(id) is None,
            res.accounts@ == Map::<Seq<char>, VAccountInternal>::empty(),
            res.global().update_timestamp == spec_truncate_to_seconds(ctx.block_timestamp),
            res.global().total_venear_balance.spec_total() == 0,
            res.global().venear_growth_config == VenearGrowthConfig::FixedRate(Box::new(venear_growth_config)),
            res.config == config,
            !res.paused,
            res.lockup_codes@.len() == 0,
            res.lsts@ == Map::<Seq<char>, LstData>::empty(),
    {
        let global_state = GlobalState::new(ctx.block_timestamp, VenearGrowthConfig::from(venear_growth_config));
        let tree = MerkleTree::new(VGlobalState::from(global_state), ctx.block_height);
        let res = Contract {
            tree,
            accounts: StringHashMap::new(),
            config,
            paused: false,
            lockup_codes: Vec::new(),
            lsts: StringHashMap::new(),
        };
        assert forall|id: Seq<char>| #[trigger] res.account(id) is None by {
            assert(res.tree.spec_get(id) is None);
        }
        assert(res.tree.data@ =~= Seq::<VAccount>::empty());
        res
    }

    /// The internal record of an account.
    pub fn internal_get_account_internal(&self, account_id: &str) -> (res: Option<AccountInternal>)
        ensures
            res == self.internal(account_id@),
    {
        match self.accounts.get(account_id) {
            Some(v) => Some(AccountInternal::from(*v)),
            None => None,
        }
    }

    /// Stores the internal record of an account.
    pub fn internal_set_account_internal(&mut self, account_id: AccountId, account_internal: AccountInternal)
        ensures
            final(self).accounts@ == old(self).accounts@.insert(
                account_id@,
                VAccountInternal::Current(account_internal),
            ),
            final(self).tree == old(self).tree,
            final(self).config == old(self).config,
            final(self).paused == old(self).paused,
            final(self).lockup_codes@ == old(self).lockup_codes@,
            final(self).lsts@ == old(self).lsts@,
    {
        self.accounts.insert(account_id, VAccountInternal::from(account_internal));
    }

    /// The tree record of an account.
    pub fn internal_get_account(&self, account_id: &str) -> (res: Option<Account>)
        requires
            self.wf_tree(),
        ensures
            res == self.account(account_id@),
    {
        match self.tree.get(account_id) {
            Some(v) => Some(Account::from(v.duplicate())),
            None => None,
        }
    }

    /// The tree record of an account grown to `block_timestamp`.
    pub fn internal_expect_account_updated(&self, account_id: &str, block_timestamp: TimestampNs) -> (res: Result<Account, ContractError>)
        requires
            self.wf_tree(),
        ensures
            self.account(account_id@) is None ==> res == Err::<Account, ContractError>(ContractError::AccountNotRegistered),
            self.account(account_id@) is Some && !self.can_update(account_id@, block_timestamp)
                ==> res == Err::<Account, ContractError>(ContractError::BalanceOutOfRange),
            self.can_update(account_id@, block_timestamp) ==> res == Ok::<Account, ContractError>(self.updated(account_id@, block_timestamp)),
    {
        let mut account = match self.internal_get_account(account_id) {
            Some(a) => a,
            None => return Err(ContractError::AccountNotRegistered),
        };
        if account.try_update(block_timestamp, self.internal_get_venear_growth_config()) {
            Ok(account)
        } else {
            Err(ContractError::BalanceOutOfRange)
        }
    }

    /// Stores the tree record of an account.
    pub fn internal_set_account(&mut self, account_id: AccountId, account: Account, block_height: u64)
        requires
            old(self).wf_tree(),
            encodable(VAccount::V0(account)),
            !delegates_to(account, account_id@),
            old(self).account(account_id@) is Some || old(self).tree.length < u32::MAX,
        ensures
            final(self).wf_tree(),
            near_sum(final(self).tree.data@) == near_sum(old(self).tree.data@) - (if old(self).account(account_id@) is Some {
                old(self).account(account_id@).unwrap().balance.near_balance.0 as int
            } else {
                0
            }) + account.balance.near_balance.0,
            forall|r: Seq<char>| #[trigger] delegated_near(final(self).tree.data@, r) == delegated_near(old(self).tree.data@, r)
                - (if old(self).account(account_id@) is Some {
                    delegated_part(old(self).account(account_id@).unwrap(), r)
                } else {
                    0
                }) + delegated_part(account, r),
            final(self).account(account_id@) == Some(account),
            forall|id: Seq<char>| id != account_id@ ==> #[trigger] final(self).account(id) == old(self).account(id),
            final(self).global() == old(self).global(),
            final(self).same_but_tree(*old(self)),
            final(self).tree.last_block_height == block_height,
            final(self).tree.spec_snapshot(block_height) == old(self).tree.spec_snapshot(block_height),
    {
        let ghost old_tree = self.tree;
        proof {
            assert(old_tree.accounts@.contains_key(account_id@) <==> old_tree.spec_get(account_id@) is Some);
        }
        let ghost id0 = account_id@;
        let _ = self.tree.set(account_id, VAccount::from(account), block_height);
        proof {
            if old_tree.accounts@.contains_key(id0) {
                lemma_near_sum_update(old_tree.data@, old_tree.accounts@[id0] as int, VAccount::V0(account));
                assert forall|r: Seq<char>| #[trigger] delegated_near(self.tree.data@, r) == delegated_near(old_tree.data@, r)
                    - delegated_part(old(self).account(id0).unwrap(), r) + delegated_part(account, r) by {
                    lemma_delegated_near_update(old_tree.data@, old_tree.accounts@[id0] as int, VAccount::V0(account), r);
                }
            } else {
                lemma_near_sum_push(old_tree.data@, VAccount::V0(account));
                assert forall|r: Seq<char>| #[trigger] delegated_near(self.tree.data@, r) == delegated_near(old_tree.data@, r)
                    + delegated_part(account, r) by {
                    lemma_delegated_near_push(old_tree.data@, VAccount::V0(account), r);
                }
            }
            assert forall|id: Seq<char>| #[trigger] self.account(id) is Some implies !delegates_to(self.account(id).unwrap(), id) by {
                if id != id0 {
                    assert(self.tree.spec_get(id) == old_tree.spec_get(id));
                    assert(old(self).account(id) == self.account(id));
                }
            }
            assert forall|id: Seq<char>| id != account_id@ implies #[trigger] self.account(id) == old(self).account(id) by {
                assert(self.tree.spec_get(id) == old_tree.spec_get(id));
            }
        }
    }

    /// Another state with the same tree has the same records and, with the
    /// same codes, is as consistent.
    pub proof fn lemma_same_tree(self, other: Contract)
        requires
            self.wf_tree(),
            other.tree == self.tree,
        ensures
            forall|id: Seq<char>| #[trigger] other.account(id) == self.account(id),
            other.no_self_delegation(),
            self.supply_ok() ==> other.supply_ok(),
            self.delegations_ok() ==> other.delegations_ok(),
            self.keys_agree() && other.accounts@.dom() == self.accounts@.dom() ==> other.keys_agree(),
            self.wf() && other.lockup_codes@ == self.lockup_codes@ && other.accounts@.dom() == self.accounts@.dom() ==> other.wf(),
    {
        assert forall|id: Seq<char>| #[trigger] other.account(id) == self.account(id) by {}
        assert forall|id: Seq<char>| #[trigger] other.account(id) is Some implies !delegates_to(other.account(id).unwrap(), id) by {
            assert(other.account(id) == self.account(id));
        }
        if self.delegations_ok() {
            assert forall|id: Seq<char>| #[trigger] other.account(id) is Some implies (other.account(id).unwrap().delegation matches Some(d)
                ==> other.account(d.account_id@) is Some) by {
                assert(other.account(id) == self.account(id));
                if other.account(id).unwrap().delegation is Some {
                    let d = other.account(id).unwrap().delegation.unwrap().account_id@;
                    assert(other.account(d) == self.account(d));
                }
            }
            assert forall|r: Seq<char>| #[trigger] other.account(r) is Some implies other.account(r).unwrap().delegated_balance.near_balance.0
                == delegated_near(other.tree.data@, r) by {
                assert(other.account(r) == self.account(r));
            }
        }
        if self.keys_agree() && other.accounts@.dom() == self.accounts@.dom() {
            assert forall|id: Seq<char>| other.accounts@.contains_key(id) <==> other.account(id) is Some by {
                assert(other.account(id) == self.account(id));
                assert(other.accounts@.dom().contains(id) == self.accounts@.dom().contains(id));
            }
        }
    }

    /// No record delegates to an account that is not registered.
    pub proof fn lemma_unregistered_has_no_delegators(self, r: Seq<char>)
        requires
            self.wf_tree(),
            self.delegations_ok(),
            self.account(r) is None,
        ensures
            delegated_near(self.tree.data@, r) == 0,
    {
        let data = self.tree.data@;
        assert forall|i: int| 0 <= i < data.len() implies !delegates_to(#[trigger] data[i].account(), r) by {
            assert(self.tree.index_taken(i));
            let x = choose|x: Seq<char>| #[trigger] self.tree.accounts@.contains_key(x) && self.tree.accounts@[x] == i;
            assert(self.account(x) == Some(data[i].account()));
        }
        lemma_delegated_near_none(data, r);
    }

    /// A stored record can be stored again.
    pub proof fn lemma_stored_encodable(self, id: Seq<char>)
        requires
            self.wf_tree(),
            self.account(id) is Some,
        ensures
            encodable(VAccount::V0(self.account(id).unwrap())),
            !delegates_to(self.account(id).unwrap(), id),
    {
        let i = self.tree.accounts@[id] as int;
        assert(encodable(self.tree.data@[i]));
        assert(self.tree.data@[i] == VAccount::V0(self.account(id).unwrap()));
    }

    /// The growth configuration.
    pub fn internal_get_venear_growth_config(&self) -> (res: &VenearGrowthConfig)
        ensures
            *res == self.growth_config(),
    {
        self.tree.get_global_state().get_venear_growth_config()
    }

    /// The global state grown to `block_timestamp`.
    pub fn internal_global_state_updated(&self, block_timestamp: TimestampNs) -> (res: Result<GlobalState, ContractError>)
        ensures
            self.global().update_ok(block_timestamp) ==> res == Ok::<GlobalState, ContractError>(self.global().spec_updated(block_timestamp)),
            !self.global().update_ok(block_timestamp) ==> res == Err::<GlobalState, ContractError>(ContractError::BalanceOutOfRange),
    {
        let mut global_state = GlobalState::from(self.tree.get_global_state().duplicate());
        if global_state.try_update(block_timestamp) {
            Ok(global_state)
        } else {
            Err(ContractError::BalanceOutOfRange)
        }
    }

    /// Replaces the global state.
    pub fn internal_set_global_state(&mut self, global_state: GlobalState, block_height: u64)
        requires
            old(self).wf_tree(),
        ensures
            final(self).wf_tree(),
            final(self).tree.data@ == old(self).tree.data@,
            final(self).global() == global_state,
            forall|id: Seq<char>| #[trigger] final(self).account(id) == old(self).account(id),
            final(self).same_but_tree(*old(self)),
            final(self).tree.length == old(self).tree.length,
            final(self).tree.last_block_height == block_height,
            final(self).tree.spec_snapshot(block_height) == old(self).tree.spec_snapshot(block_height),
    {
        let ghost old_tree = self.tree;
        self.tree.set_global_state(VGlobalState::from(global_state), block_height);
        proof {
            assert forall|id: Seq<char>| #[trigger] self.account(id) == old(self).account(id) by {
                assert(self.tree.spec_get(id) == old_tree.spec_get(id));
            }
            assert forall|id: Seq<char>| #[trigger] self.account(id) is Some implies !delegates_to(self.account(id).unwrap(), id) by {
                assert(old(self).account(id) == self.account(id));
            }
        }
    }
}

/// The NEAR part of the total veNEAR is the sum of the NEAR of all the
/// accounts' records; every call keeps it so, as each keeps `wf`.
pub proof fn lemma_total_near_is_sum_of_accounts(c: Contract)
    requires
        c.wf(),
    ensures
        c.global().total_venear_balance.near_balance.0 == near_sum(c.tree.data@),
        forall|id: Seq<char>| #[trigger] c.account(id) is Some ==> c.internal(id) is Some,
{
    assert forall|id: Seq<char>| #[trigger] c.account(id) is Some implies c.internal(id) is Some by {
        assert(c.accounts@.contains_key(id) <==> c.account(id) is Some);
    }
}

} // verus!
