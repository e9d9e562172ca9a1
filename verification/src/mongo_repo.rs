//! The documents that go to the store and what is read back from it.

use crate::models::cursor_model::CursorWrapper;
use crate::models::program_model::{Program, ProgramVersion, ProgramWrapper};
use crate::models::program_queue_model::{ProgramQueue, ProgramQueueWrapper};
use vstd::prelude::*;

verus! {

/// The queue entry for an event that the store has not seen yet.
pub open spec fn queue_entry(event: ProgramQueue) -> ProgramQueueWrapper {
    ProgramQueueWrapper { id: None, program_queue: event }
}

/// The documents for a batch of events: one entry per event, in the order
/// of the events, each still without an identity.
pub fn queue_documents(program_queues: &Vec<ProgramQueue>) -> (documents: Vec<ProgramQueueWrapper>)
    ensures
        documents@ == program_queues@.map_values(|event: ProgramQueue| queue_entry(event)),
{
    let mut documents: Vec<ProgramQueueWrapper> = Vec::new();
    let mut i: usize = 0;
    while i < program_queues.len()
        invariant
            i <= program_queues.len(),
            documents@ == program_queues@.take(i as int).map_values(
                |event: ProgramQueue| queue_entry(event),
            ),
        decreases program_queues.len() - i,
    {
        documents.push(ProgramQueueWrapper { id: None, program_queue: program_queues[i] });
        assert(documents@ =~= program_queues@.take(i + 1).map_values(
            |event: ProgramQueue| queue_entry(event),
        ));
        i += 1;
    }
    assert(program_queues@.take(i as int) =~= program_queues@);
    documents
}

/// The document for a program that the store has not seen yet.
pub fn program_document(program: &Program) -> (document: ProgramWrapper)
    ensures
        document.id.is_none(),
        document.program.pubkey == program.pubkey,
        document.program.version.data@ == program.version.data@,
        document.program.version.fetched_at == program.version.fetched_at,
{
    let data = program.version.data.clone();
    assert(data@ =~= program.version.data@);
    ProgramWrapper {
        id: None,
        program: Program {
            pubkey: program.pubkey,
            version: ProgramVersion { data, fetched_at: program.version.fetched_at },
        },
    }
}

/// The signature of the cursor that the store returned, if it returned
/// one.
pub fn stored_signature(found: Option<CursorWrapper>) -> (signature: Option<String>)
    ensures
        match signature {
            Some(text) => found.is_some() && text@ == found.unwrap().cursor@,
            None => found.is_none(),
        },
{
    match found {
        Some(wrapper) => Some(wrapper.cursor.signature),
        None => None,
    }
}

} // verus!
