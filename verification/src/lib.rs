//! A verified core for a Merkle-distributor program: eligibility is committed
//! to a single 32-byte root, each claimant supplies a sibling path proving
//! that their `(recipient, amount)` pair belongs under that root, and a
//! per-claimant record guards against double claims.

pub mod errors;
pub mod instructions;
pub mod pda;
pub mod processor;
pub mod states;
pub mod tree;
pub mod utils;
