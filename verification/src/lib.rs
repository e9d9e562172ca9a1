//! Decoding of upgradeable-loader deployment events from confirmed
//! transactions, and the decisions of the crawler that polls for them.
//!
//! The library computes on plain values only: whoever talks to the chain and
//! to the store hands it what they returned and carries out the actions it
//! asks for.

pub mod consts;
pub mod errors;
pub mod fetcher;
pub mod models;
pub mod mongo_repo;
pub mod pubkey;
pub mod scheduler;
