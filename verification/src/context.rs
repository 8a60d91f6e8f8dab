//! What a contract call knows of the chain it runs on.
use vstd::prelude::*;
use crate::account::AccountId;
use crate::account_id::valid_account_id;
use crate::token::{NearToken, TimestampNs};

verus! {

/// The environment of one contract call: who called, with what deposit,
/// and when.
#[derive(Debug)]
pub struct CallContext {
    /// The account that made the call.
    pub predecessor_account_id: AccountId,
    /// The account of the contract itself.
    pub current_account_id: AccountId,
    /// The NEAR attached to the call.
    pub attached_deposit: NearToken,
    /// The block timestamp in nanoseconds.
    pub block_timestamp: TimestampNs,
    /// The block height.
    pub block_height: u64,
    /// The cost of storing one byte.
    pub storage_byte_cost: NearToken,
}

/// A transfer of NEAR to perform.
#[derive(Clone, Debug)]
pub struct Transfer {
    pub receiver_id: AccountId,
    pub amount: NearToken,
}

impl CallContext {
    /// Both account IDs are valid NEAR account IDs, as the chain guarantees.
    pub open spec fn wf(self) -> bool {
        &&& valid_account_id(self.predecessor_account_id@)
        &&& valid_account_id(self.current_account_id@)
    }

    /// Exactly one yoctoNEAR is attached.
    pub open spec fn one_yocto(self) -> bool {
        self.attached_deposit.0 == 1
    }
}

} // verus!
