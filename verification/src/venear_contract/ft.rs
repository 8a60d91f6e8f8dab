//! veNEAR as a fungible token that cannot be transferred, and the snapshots
//! and proofs that votes are checked against.
use vstd::prelude::*;
use crate::account::{AccountId, VAccount};
use crate::context::CallContext;
use crate::error::ContractError;
use crate::global_state::VGlobalState;
use crate::merkle::{path_view, MerkleProof, MerkleTreeSnapshot};
use crate::merkle_tree::lemma_get_proof_verifies;
use crate::token::NearToken;
use crate::types::FtMetadata;
use crate::venear_contract::Contract;

verus! {

/// The icon of veNEAR, as a data URL.
pub const ICON_BASE64: &'static str = "data:image/svg+xml;base64,PHN2ZyB3aWR0aD0iMTAwIiBoZWlnaHQ9IjEwMCIgdmlld0JveD0iMCAwIDEwMCAxMDAiIHhtbG5zPSJodHRwOi8vd3d3LnczLm9yZy8yMDAwL3N2ZyIgZmlsbD0ibm9uZSI+CiAgPHJlY3Qgd2lkdGg9IjEwMCIgaGVpZ2h0PSIxMDAiIHJ4PSIyMCIgZmlsbD0iIzAwMCIvPgogIDx0ZXh0IHg9IjQwIiB5PSI2NSIgZm9udC1mYW1pbHk9IkFyaWFsLCBzYW5zLXNlcmlmIiBmb250LXNpemU9IjYwIiBmaWxsPSIjZmZmIiBmb250LXdlaWdodD0iYm9sZCI+TjwvdGV4dD4KICA8dGV4dCB4PSIxNSIgeT0iNjUiIGZvbnQtZmFtaWx5PSJBcmlhbCwgc2Fucy1zZXJpZiIgZm9udC1zaXplPSIyMCIgZmlsbD0iI2ZmZiI+dmU8L3RleHQ+Cjwvc3ZnPgo=";

impl Contract {
    /// The metadata of veNEAR: non-transferable, 24 decimals like NEAR.
    pub fn ft_metadata(&self) -> (res: FtMetadata)
        ensures
            res.spec@ == "ft-1.0.0"@,
            res.name@ == "veNEAR"@,
            res.symbol@ == "VENEAR"@,
            res.icon matches Some(i) && i@ == ICON_BASE64@,
            res.reference is None,
            res.reference_hash is None,
            res.decimals == 24,
    {
        FtMetadata {
            spec: String::from_str("ft-1.0.0"),
            name: String::from_str("veNEAR"),
            symbol: String::from_str("VENEAR"),
            icon: Some(String::from_str(ICON_BASE64)),
            reference: None,
            reference_hash: None,
            decimals: 24,
        }
    }

    /// The account's own veNEAR, grown to `ts`.
    pub open spec fn own_balance(self, id: Seq<char>, ts: u64) -> int {
        let a = self.account(id).unwrap();
        let cur = crate::token::spec_truncate_to_seconds(ts);
        a.balance.spec_updated(a.update_timestamp, cur, self.growth_config()).spec_total()
    }

    /// The account's own balance can be grown to `ts` and fits.
    pub open spec fn own_balance_ok(self, id: Seq<char>, ts: u64) -> bool {
        let a = self.account(id).unwrap();
        let cur = crate::token::spec_truncate_to_seconds(ts);
        &&& a.update_timestamp <= cur
        &&& a.balance.update_ok(a.update_timestamp, cur, self.growth_config())
        &&& self.own_balance(id, ts) <= u128::MAX
    }

    /// The veNEAR of an account at the block's time: its own balance, grown;
    /// zero for an account that is not registered.
    pub fn ft_balance_of(&self, ctx: &CallContext, account_id: AccountId) -> (res: Result<NearToken, ContractError>)
        requires
            self.wf(),
        ensures
            self.account(account_id@) is None ==> res == Ok::<NearToken, ContractError>(NearToken(0)),
            self.account(account_id@) is Some ==> (res is Ok <==> self.own_balance_ok(account_id@, ctx.block_timestamp)),
            self.account(account_id@) is Some ==> (res matches Ok(b) ==> b.0 == self.own_balance(account_id@, ctx.block_timestamp)),
            self.account(account_id@) matches Some(a) ==> (res matches Ok(b) ==> b.0 == a.balance.near_balance.0
                + a.balance.extra_venear_balance.0 + self.growth_config().spec_growth(
                a.update_timestamp,
                crate::token::spec_truncate_to_seconds(ctx.block_timestamp),
                a.balance.near_balance,
            )),
            res matches Err(e) ==> e == ContractError::BalanceOutOfRange,
    {
        let account = match self.internal_get_account(account_id.as_str()) {
            Some(a) => a,
            None => return Ok(NearToken(0)),
        };
        let cur = crate::token::truncate_to_seconds(ctx.block_timestamp);
        if cur < account.update_timestamp {
            return Err(ContractError::BalanceOutOfRange);
        }
        let balance = match account.balance.try_updated(account.update_timestamp, cur, self.internal_get_venear_growth_config()) {
            Some(b) => b,
            None => return Err(ContractError::BalanceOutOfRange),
        };
        match balance.try_total() {
            Some(t) => Ok(t),
            None => Err(ContractError::BalanceOutOfRange),
        }
    }

    /// The total veNEAR at the block's time.
    pub fn ft_total_supply(&self, ctx: &CallContext) -> (res: Result<NearToken, ContractError>)
        ensures
            res is Ok <==> self.global().update_ok(ctx.block_timestamp)
                && self.global().spec_updated(ctx.block_timestamp).total_venear_balance.spec_total() <= u128::MAX,
            res matches Ok(t) ==> t.0 == self.global().spec_updated(ctx.block_timestamp).total_venear_balance.spec_total(),
            res matches Ok(t) ==> t.0 == self.global().total_venear_balance.near_balance.0
                + self.global().total_venear_balance.extra_venear_balance.0 + self.growth_config().spec_growth(
                self.global().update_timestamp,
                crate::token::spec_truncate_to_seconds(ctx.block_timestamp),
                self.global().total_venear_balance.near_balance,
            ),
            res matches Err(e) ==> e == ContractError::BalanceOutOfRange,
    {
        let global_state = match self.internal_global_state_updated(ctx.block_timestamp) {
            Ok(g) => g,
            Err(e) => return Err(e),
        };
        match global_state.total_venear_balance.try_total() {
            Some(t) => Ok(t),
            None => Err(ContractError::BalanceOutOfRange),
        }
    }

    /// veNEAR cannot be transferred.
    pub fn ft_transfer(&mut self) -> (res: Result<(), ContractError>)
        ensures
            res == Err::<(), ContractError>(ContractError::NonTransferable),
            *final(self) == *old(self),
    {
        Err(ContractError::NonTransferable)
    }

    /// veNEAR cannot be transferred.
    pub fn ft_transfer_call(&mut self) -> (res: Result<(), ContractError>)
        ensures
            res == Err::<(), ContractError>(ContractError::NonTransferable),
            *final(self) == *old(self),
    {
        Err(ContractError::NonTransferable)
    }

    /// The tree's snapshot and global state as they stood before any change
    /// in the current block.
    pub fn get_snapshot(&self, ctx: &CallContext) -> (res: Result<(MerkleTreeSnapshot, VGlobalState), ContractError>)
        ensures
            self.paused ==> res == Err::<(MerkleTreeSnapshot, VGlobalState), ContractError>(ContractError::Paused),
            !self.paused && self.tree.spec_snapshot(ctx.block_height) is None ==> res == Err::<
                (MerkleTreeSnapshot, VGlobalState),
                ContractError,
            >(ContractError::SnapshotNotAvailable),
            !self.paused && self.tree.spec_snapshot(ctx.block_height) is Some ==> res == Ok::<
                (MerkleTreeSnapshot, VGlobalState),
                ContractError,
            >(self.tree.spec_snapshot(ctx.block_height).unwrap()),
    {
        if self.paused {
            return Err(ContractError::Paused);
        }
        match self.tree.get_snapshot(ctx.block_height) {
            Some(s) => Ok(s),
            None => Err(ContractError::SnapshotNotAvailable),
        }
    }

    /// The proof for an account's record in the tree as it stands, and the
    /// record.
    pub fn get_proof(&self, account_id: AccountId) -> (res: Result<(MerkleProof, VAccount), ContractError>)
        requires
            self.wf(),
        ensures
            self.paused ==> res == Err::<(MerkleProof, VAccount), ContractError>(ContractError::Paused),
            !self.paused && self.account(account_id@) is None ==> res == Err::<(MerkleProof, VAccount), ContractError>(
                ContractError::AccountNotRegistered,
            ),
            !self.paused && self.account(account_id@) is Some ==> (res matches Ok((p, v)) && p.index
                == self.tree.accounts@[account_id@] && path_view(p.path@) == self.tree.spec_proof_path(p.index as int)
                && Some(v) == self.tree.spec_get(account_id@)),
            res matches Ok((p, v)) ==> p.spec_verify(self.tree.root@, self.tree.length as int, v),
    {
        if self.paused {
            return Err(ContractError::Paused);
        }
        let proof = match self.tree.get_proof(account_id.as_str()) {
            Some(p) => p,
            None => return Err(ContractError::AccountNotRegistered),
        };
        proof {
            lemma_get_proof_verifies(self.tree, account_id@);
        }
        match self.tree.get(account_id.as_str()) {
            Some(v) => Ok((proof, v.duplicate())),
            None => Err(ContractError::AccountNotRegistered),
        }
    }
}

/// An account's veNEAR token balance at `ts` is its own NEAR and extra
/// veNEAR, with what its NEAR earned from the record's time to `ts` in
/// whole seconds; what was delegated to it is not counted.
pub proof fn lemma_own_balance_includes_growth(c: Contract, id: Seq<char>, ts: u64)
    requires
        c.account(id) is Some,
        c.own_balance_ok(id, ts),
    ensures
        ({
            let a = c.account(id).unwrap();
            c.own_balance(id, ts) == a.balance.near_balance.0 + a.balance.extra_venear_balance.0
                + c.growth_config().spec_growth(
                a.update_timestamp,
                crate::token::spec_truncate_to_seconds(ts),
                a.balance.near_balance,
            )
        }),
{
}

} // verus!
