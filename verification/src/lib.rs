//! veNEAR: locked NEAR that grows into voting power, a Merkle tree of account
//! states that lets votes be checked against a snapshot, the lockup contract's
//! accounting, and the voting contract's proposal and vote book-keeping.

pub mod token;
pub mod wide;
pub mod fraction;
pub mod fraction_order;
pub mod venear;
pub mod account;
pub mod global_state;
pub mod lockup_update;
pub mod crypto;
pub mod encoding;
pub mod merkle_shape;
pub mod merkle;
pub mod merkle_tree;
pub mod account_id;
pub mod context;
pub mod error;
pub mod venear_contract;
pub mod voting;
pub mod lockup_contract;
pub mod types;
