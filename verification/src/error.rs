//! The reasons for which the contracts refuse a call.
use vstd::prelude::*;

verus! {

/// Why a call was refused. A refused call changes nothing.
#[derive(Clone, Copy, Debug, PartialEq, Eq, Structural)]
pub enum ContractError {
    /// The call must carry exactly one yoctoNEAR.
    RequiresOneYocto,
    /// Only the owner can call this method.
    NotOwner,
    /// Only a guardian or the owner can pause the contract.
    NotGuardian,
    /// The contract is paused.
    Paused,
    /// The account is already registered.
    AccountAlreadyExists,
    /// The account is not registered.
    AccountNotRegistered,
    /// The attached deposit does not cover what the call costs.
    InsufficientDeposit,
    /// No lockup contract code has been set.
    LockupCodeNotInitialized,
    /// No lockup contract code is stored under the given hash.
    LockupCodeNotFound,
    /// The lockup account ID built for the owner is not a valid account ID.
    InvalidLockupAccountId,
    /// The caller may not make this call.
    PermissionDenied,
    /// The lockup version does not match the registered one.
    InvalidLockupVersion,
    /// The update's nonce is not newer than the last one.
    InvalidNonce,
    /// An account cannot delegate to itself.
    SelfDelegation,
    /// The account has not delegated.
    NotDelegated,
    /// veNEAR cannot be transferred.
    NonTransferable,
    /// There is no snapshot at this block.
    SnapshotNotAvailable,
    /// A balance or time would leave its range: time going back, or an
    /// amount that overflows or goes below zero.
    BalanceOutOfRange,
    /// The Merkle tree holds as many accounts as it can.
    TreeFull,
    /// No more proposals or voters fit.
    CapacityExceeded,
    /// The proposal does not exist.
    ProposalNotFound,
    /// The proposal is not waiting for review.
    NotInCreatedStatus,
    /// Only the approver can call this method.
    NotApprover,
    /// The voting start time is in the past.
    VotingStartInPast,
    /// A proposal needs at least two voting options.
    TooFewOptions,
    /// The proposal has more voting options than allowed.
    TooManyOptions,
    /// A quorum percentage above 100.
    InvalidQuorumPercentage,
    /// A call that must carry a deposit carries none.
    RequiresDeposit,
    /// Voting has not started yet.
    VotingNotStarted,
    /// The proposal was rejected.
    ProposalRejected,
    /// Voting is over.
    VotingFinished,
    /// Voting is over and the votes did not reach the quorum.
    QuorumNotMet,
    /// The Merkle proof does not match the snapshot.
    InvalidMerkleProof,
    /// The account in the proof is not the caller.
    AccountMismatch,
    /// The account has no veNEAR.
    NoVenearBalance,
    /// The account already voted for this option.
    SameVote,
    /// The voting option does not exist.
    VoteOutOfBounds,
    /// The vote storage fee cannot change without an upgrade.
    FeeFixed,
    /// The amount is larger than what is available.
    InvalidAmount,
    /// The unlock period has not ended.
    InvalidUnlockTime,
    /// The owner's account ID is not valid.
    InvalidOwnerAccountId,
    /// The staking pool is not selected.
    StakingPoolNotSelected,
    /// The staking pool is already selected.
    StakingPoolAlreadySelected,
    /// The contract is busy with another operation.
    Busy,
    /// The liquid staking data is not newer than what is kept.
    StaleLstData,
    /// The liquid staking multiplier would go down.
    LstMultiplierDecreased,
}

} // verus!
