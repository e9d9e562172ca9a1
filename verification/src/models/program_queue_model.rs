//! Deployment events and the queue entries that carry them.

use crate::models::object_id::ObjectId;
use crate::pubkey::AccountKey;
use vstd::prelude::*;

verus! {

/// Why a program has to be fetched again.
#[derive(Clone, Copy, Debug, PartialEq, Eq, Hash, Structural)]
pub enum FetchReason {
    Create,
    Update,
    Close,
}

impl Default for FetchReason {
    fn default() -> (reason: FetchReason)
        ensures
            reason == FetchReason::Create,
    {
        FetchReason::Create
    }
}

/// One deployment event of a program.
#[derive(Clone, Copy, Debug, PartialEq, Eq, Hash)]
pub struct ProgramQueue {
    pub program_account: AccountKey,
    /// Absent where the event is no deployment or upgrade.
    pub program_data_account: Option<AccountKey>,
    /// Slot of the transaction that deployed or upgraded the program.
    pub deploy_slot: Option<u64>,
    pub fetch_reason: FetchReason,
}

impl ProgramQueue {
    /// A closed program has neither a data account nor a deploy slot.
    pub open spec fn well_formed(self) -> bool {
        self.fetch_reason == FetchReason::Close ==> self.program_data_account.is_none()
            && self.deploy_slot.is_none()
    }

    /// The event for a program that is only known to exist.
    pub open spec fn discovered(program_account: AccountKey) -> ProgramQueue {
        ProgramQueue {
            program_account,
            program_data_account: None,
            deploy_slot: None,
            fetch_reason: FetchReason::Create,
        }
    }
}

impl Default for ProgramQueue {
    /// The event that only says that the program with the all-zero key
    /// exists.
    fn default() -> (event: ProgramQueue)
        ensures
            event.program_account@ == Seq::new(32, |i: int| 0u8),
            event.program_data_account.is_none(),
            event.deploy_slot.is_none(),
            event.fetch_reason == FetchReason::Create,
            event.well_formed(),
    {
        ProgramQueue {
            program_account: AccountKey::default(),
            program_data_account: None,
            deploy_slot: None,
            fetch_reason: FetchReason::default(),
        }
    }
}

/// A deployment event as the queue stores it.
#[derive(Clone, Copy, Debug, PartialEq, Eq, Hash)]
pub struct ProgramQueueWrapper {
    /// Absent until the store has assigned one.
    pub id: Option<ObjectId>,
    pub program_queue: ProgramQueue,
}

impl Default for ProgramQueueWrapper {
    fn default() -> (entry: ProgramQueueWrapper)
        ensures
            entry.id.is_none(),
            entry.program_queue.program_account@ == Seq::new(32, |i: int| 0u8),
            entry.program_queue.program_data_account.is_none(),
            entry.program_queue.deploy_slot.is_none(),
            entry.program_queue.fetch_reason == FetchReason::Create,
    {
        ProgramQueueWrapper { id: None, program_queue: ProgramQueue::default() }
    }
}

} // verus!
