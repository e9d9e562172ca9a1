//! What can go wrong while crawling, and what each failure means for the
//! crawler.

use vstd::prelude::*;

verus! {

/// The part of an instruction that a decode error is about.
#[derive(Clone, Copy, Debug, PartialEq, Eq, Hash, Structural)]
pub enum Field {
    ProgramId,
    InstructionType,
    ProgramAccount,
    ProgramDataAccount,
}

/// A transaction or instruction that does not have the expected shape.
#[derive(Clone, Copy, Debug, PartialEq, Eq, Hash, Structural)]
pub enum DecodeError {
    /// The payload has no member for the field.
    MissingField(Field),
    /// The member is there but does not hold text.
    MistypedField(Field),
    /// The text of the field is not an account key.
    InvalidKey(Field),
    /// The body of the transaction could not be decoded.
    UndecodedTransaction,
    /// The transaction came without execution metadata.
    MissingMeta,
}

/// A state of affairs that the crawler cannot go on from.
#[derive(Clone, Copy, Debug, PartialEq, Eq, Hash, Structural)]
pub enum Fault {
    /// The loader has no transaction history to start from.
    EmptyHistory,
    /// The store holds no cursor although one was saved at start-up.
    MissingCursor,
    /// The crawler was told of something that it had not asked for.
    UnexpectedEvent,
}

/// Everything that can end a crawl or spoil a part of it.
#[derive(Clone, Copy, Debug, PartialEq, Eq, Hash, Structural)]
pub enum ErrorKind {
    /// The chain could not be reached or answered out of protocol.
    Network,
    /// An operation on the store failed.
    Persistence,
    /// A transaction or instruction did not have the expected shape.
    Decode(DecodeError),
    /// Required configuration is missing.
    Config,
    /// The crawler itself is in a state from which it cannot go on.
    Internal(Fault),
}

/// What a failure calls for.
#[derive(Clone, Copy, Debug, PartialEq, Eq, Hash, Structural)]
pub enum Recovery {
    /// Try the operation again after a pause.
    Retry,
    /// Pass over the offending item and go on.
    Skip,
    /// Stop the crawler.
    Stop,
}

impl ErrorKind {
    /// What a failure of this kind calls for: transport and store failures
    /// are worth another try, a decode error only spoils the item it is
    /// about, and nothing helps against the rest.
    pub open spec fn spec_recovery(self) -> Recovery {
        match self {
            ErrorKind::Network => Recovery::Retry,
            ErrorKind::Persistence => Recovery::Retry,
            ErrorKind::Decode(_) => Recovery::Skip,
            ErrorKind::Config => Recovery::Stop,
            ErrorKind::Internal(_) => Recovery::Stop,
        }
    }

    #[verifier::when_used_as_spec(spec_recovery)]
    pub fn recovery(self) -> (recovery: Recovery)
        ensures
            recovery == self.spec_recovery(),
    {
        match self {
            ErrorKind::Network => Recovery::Retry,
            ErrorKind::Persistence => Recovery::Retry,
            ErrorKind::Decode(_) => Recovery::Skip,
            ErrorKind::Config => Recovery::Stop,
            ErrorKind::Internal(_) => Recovery::Stop,
        }
    }
}

} // verus!
