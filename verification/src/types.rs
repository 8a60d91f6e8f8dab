//! Balances that carry what they are of, or when they were taken.
use vstd::prelude::*;
use crate::account::AccountId;
use crate::token::{NearToken, TimestampNs};

verus! {

/// A balance and when it was last updated. Most veNEAR balances grow over
/// time, so a balance is kept with its time.
#[derive(Clone, Copy, Debug)]
pub struct TimedBalance {
    /// The balance at the last update.
    pub balance: NearToken,
    /// When the balance was last updated, in nanoseconds.
    pub timestamp: TimestampNs,
}

impl Default for TimedBalance {
    fn default() -> (res: TimedBalance)
        ensures
            res.balance.0 == 0,
            res.timestamp == 0,
    {
        TimedBalance { balance: NearToken(0), timestamp: 0 }
    }
}

/// A balance of a fungible token.
#[derive(Clone, Debug)]
pub struct FtBalance {
    /// The token's contract.
    pub token_account_id: AccountId,
    pub balance: NearToken,
}

/// The metadata of a fungible token.
#[derive(Clone, Debug)]
pub struct FtMetadata {
    pub spec: String,
    pub name: String,
    pub symbol: String,
    pub icon: Option<String>,
    pub reference: Option<String>,
    pub reference_hash: Option<String>,
    pub decimals: u8,
}

} // verus!
