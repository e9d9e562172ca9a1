//! The queue entry of programs that are only known by their account.

use crate::models::object_id::ObjectId;
use crate::pubkey::AccountKey;
use vstd::prelude::*;

verus! {

/// Why a program has to be fetched again.
#[derive(Clone, Copy, Debug, PartialEq, Eq, Hash, Structural)]
pub enum FetchReason {
    Create,
    Update,
}

/// A program to fetch, as the queue stores it.
#[derive(Clone, Copy, Debug, PartialEq, Eq, Hash)]
pub struct Queue {
    /// Absent until the store has assigned one.
    pub id: Option<ObjectId>,
    pub program_account: AccountKey,
    pub fetch_reason: FetchReason,
}

} // verus!
