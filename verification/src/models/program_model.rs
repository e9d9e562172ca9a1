//! The materialised record of a program and of its bytecode.

use crate::models::object_id::ObjectId;
use crate::pubkey::AccountKey;
use vstd::prelude::*;

verus! {

/// A point in time as the store counts it: seconds, and a counter that
/// tells apart what happened within one second.
#[derive(Clone, Copy, Debug, PartialEq, Eq, Hash, Structural)]
pub struct Timestamp {
    pub time: u32,
    pub increment: u32,
}

impl Default for Timestamp {
    fn default() -> (timestamp: Timestamp)
        ensures
            timestamp.time == 0,
            timestamp.increment == 0,
    {
        Timestamp { time: 0, increment: 0 }
    }
}

/// The bytecode of a program as it was at one time.
#[derive(Clone, Debug, PartialEq, Eq)]
pub struct ProgramVersion {
    pub data: Vec<u8>,
    pub fetched_at: Timestamp,
}

impl Default for ProgramVersion {
    fn default() -> (version: ProgramVersion)
        ensures
            version.data@ == Seq::<u8>::empty(),
            version.fetched_at == (Timestamp { time: 0, increment: 0 }),
    {
        ProgramVersion { data: Vec::new(), fetched_at: Timestamp::default() }
    }
}

/// A program and the version of it that was fetched last.
#[derive(Clone, Debug, PartialEq, Eq)]
pub struct Program {
    pub pubkey: AccountKey,
    pub version: ProgramVersion,
}

impl Default for Program {
    fn default() -> (program: Program)
        ensures
            program.pubkey@ == Seq::new(32, |i: int| 0u8),
            program.version.data@ == Seq::<u8>::empty(),
            program.version.fetched_at == (Timestamp { time: 0, increment: 0 }),
    {
        Program { pubkey: AccountKey::default(), version: ProgramVersion::default() }
    }
}

/// A program as the store holds it.
#[derive(Clone, Debug, PartialEq, Eq)]
pub struct ProgramWrapper {
    /// Absent until the store has assigned one.
    pub id: Option<ObjectId>,
    pub program: Program,
}

impl Default for ProgramWrapper {
    fn default() -> (wrapper: ProgramWrapper)
        ensures
            wrapper.id.is_none(),
            wrapper.program.pubkey@ == Seq::new(32, |i: int| 0u8),
            wrapper.program.version.data@ == Seq::<u8>::empty(),
            wrapper.program.version.fetched_at == (Timestamp { time: 0, increment: 0 }),
    {
        ProgramWrapper { id: None, program: Program::default() }
    }
}

} // verus!
