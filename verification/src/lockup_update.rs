//! What a lockup contract reports to the veNEAR contract.
use vstd::prelude::*;
use crate::token::{NearToken, TimestampNs};

verus! {

/// The update passed from the lockup contract to the veNEAR contract.
#[derive(Clone, Copy, Debug)]
pub struct LockupUpdateV1 {
    /// The amount of NEAR that is locked in the lockup contract.
    pub locked_near_balance: NearToken,
    /// The timestamp in nanoseconds when the update was created.
    pub timestamp: TimestampNs,
    /// The lockup's nonce for this update; it grows with every update.
    pub lockup_update_nonce: u64,
}

/// A versioned lockup update.
#[derive(Clone, Copy, Debug)]
pub enum VLockupUpdate {
    V1(LockupUpdateV1),
}

} // verus!
