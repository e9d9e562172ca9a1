//! The decisions of the crawler: what to ask for next, given what came back.
//!
//! The scheduler never talks to the chain or to the store itself. It is
//! told what happened and answers with what is to be done; whoever drives
//! it carries that out and reports the result.

use crate::consts::{CADENCE_MILLIS, CADENCE_SECS};
use crate::errors::{DecodeError, ErrorKind, Fault};
use crate::fetcher::{discover, discovered_events, extract_into, extracted_errors, extracted_events};
use crate::models::program_queue_model::ProgramQueue;
use crate::models::transaction_model::{Transaction, TransactionView};
use crate::pubkey::AccountKey;
use vstd::prelude::*;

verus! {

/// The rest of a cadence interval after `elapsed` of it has gone by.
pub open spec fn pause_of(cadence: u64, elapsed: u64) -> u64 {
    if elapsed >= cadence {
        0
    } else {
        (cadence - elapsed) as u64
    }
}

/// How long to pause after a cycle that took `elapsed`, so that cycles
/// start `cadence` apart: the rest of the interval, or nothing when the
/// cycle overran it. Both are in the same unit, and so is the result.
pub fn pause_within(cadence: u64, elapsed: u64) -> (pause: u64)
    ensures
        pause == pause_of(cadence, elapsed),
        pause <= cadence,
        elapsed < cadence ==> pause + elapsed == cadence,
        elapsed >= cadence ==> pause == 0,
{
    if elapsed >= cadence {
        0
    } else {
        cadence - elapsed
    }
}

/// How long to pause after a cycle that took `elapsed` seconds.
pub fn pause_after(elapsed: u64) -> (pause: u64)
    ensures
        pause == pause_of(CADENCE_SECS, elapsed),
{
    pause_within(CADENCE_SECS, elapsed)
}

/// The cursor after a cycle that started from `cursor` and observed
/// `signatures`, newest first: the newest of them, or the old cursor where
/// there was none.
pub open spec fn advanced_cursor(cursor: Seq<char>, signatures: Seq<Seq<char>>) -> Seq<char> {
    if signatures.len() > 0 {
        signatures[0]
    } else {
        cursor
    }
}

/// The texts of a list of strings.
pub open spec fn texts(strings: Seq<String>) -> Seq<Seq<char>> {
    strings.map_values(|s: String| s@)
}

/// Computes the cursor to save at the end of a cycle.
pub fn advance_cursor(cursor: &String, signatures: &Vec<String>) -> (advanced: String)
    ensures
        advanced@ == advanced_cursor(cursor@, texts(signatures@)),
{
    if signatures.len() > 0 {
        signatures[0].clone()
    } else {
        cursor.clone()
    }
}

/// The four states of the crawler.
#[derive(Clone, Copy, Debug, PartialEq, Eq, Hash, Structural)]
pub enum Phase {
    Bootstrapping,
    Polling,
    Sleeping,
    Failed,
}

/// What the crawler is waiting for.
#[derive(Clone, Copy, Debug, PartialEq, Eq, Hash, Structural)]
pub enum Stage {
    /// Bootstrapping: nothing has been asked for yet.
    Idle,
    /// Bootstrapping: the newest signature of the loader.
    NewestSignature,
    /// Bootstrapping: the first cursor to be saved.
    CursorCreated,
    /// Bootstrapping: the accounts that the loader owns.
    Accounts,
    /// Bootstrapping: the discovered programs to be queued.
    Announced,
    /// Polling: the cursor.
    Cursor,
    /// Polling: the signatures newer than the cursor.
    Signatures,
    /// Polling: the next transaction of the cycle.
    Transaction,
    /// Polling: the events of the cycle to be queued.
    Appended,
    /// Polling: the advanced cursor to be saved.
    CursorAdvanced,
    /// Sleeping: how long the cycle took.
    Elapsed,
    /// Sleeping: the end of the pause.
    Timer,
    /// Failed, and why.
    Failed(ErrorKind),
}

impl Stage {
    /// The state that a stage belongs to.
    pub open spec fn spec_phase(self) -> Phase {
        match self {
            Stage::Idle => Phase::Bootstrapping,
            Stage::NewestSignature => Phase::Bootstrapping,
            Stage::CursorCreated => Phase::Bootstrapping,
            Stage::Accounts => Phase::Bootstrapping,
            Stage::Announced => Phase::Bootstrapping,
            Stage::Cursor => Phase::Polling,
            Stage::Signatures => Phase::Polling,
            Stage::Transaction => Phase::Polling,
            Stage::Appended => Phase::Polling,
            Stage::CursorAdvanced => Phase::Polling,
            Stage::Elapsed => Phase::Sleeping,
            Stage::Timer => Phase::Sleeping,
            Stage::Failed(_) => Phase::Failed,
        }
    }

    #[verifier::when_used_as_spec(spec_phase)]
    pub fn phase(self) -> (phase: Phase)
        ensures
            phase == self.spec_phase(),
    {
        match self {
            Stage::Idle => Phase::Bootstrapping,
            Stage::NewestSignature => Phase::Bootstrapping,
            Stage::CursorCreated => Phase::Bootstrapping,
            Stage::Accounts => Phase::Bootstrapping,
            Stage::Announced => Phase::Bootstrapping,
            Stage::Cursor => Phase::Polling,
            Stage::Signatures => Phase::Polling,
            Stage::Transaction => Phase::Polling,
            Stage::Appended => Phase::Polling,
            Stage::CursorAdvanced => Phase::Polling,
            Stage::Elapsed => Phase::Sleeping,
            Stage::Timer => Phase::Sleeping,
            Stage::Failed(_) => Phase::Failed,
        }
    }
}

/// What the driver reports to the crawler.
#[derive(Debug, PartialEq, Eq)]
pub enum Event {
    /// The process has started.
    Started,
    /// The newest signature of the loader, if it has any history.
    NewestSignature(Option<String>),
    /// The cursor has been saved.
    CursorSaved,
    /// The accounts that the loader owns.
    Accounts(Vec<AccountKey>),
    /// The batch has been appended to the queue.
    QueueAppended,
    /// The cursor as the store holds it, if it holds one.
    Cursor(Option<String>),
    /// The signatures newer than the cursor, newest first.
    Signatures(Vec<String>),
    /// The transaction that was asked for.
    Transaction(Transaction),
    /// Milliseconds since the cycle's cursor was asked for.
    Elapsed(u64),
    /// The pause is over.
    Woke,
    /// What was asked for could not be done.
    Failed(ErrorKind),
}

/// What an event holds, as mathematical values.
pub enum EventView {
    Started,
    NewestSignature(Option<Seq<char>>),
    CursorSaved,
    Accounts(Seq<AccountKey>),
    QueueAppended,
    Cursor(Option<Seq<char>>),
    Signatures(Seq<Seq<char>>),
    Transaction(TransactionView),
    Elapsed(u64),
    Woke,
    Failed(ErrorKind),
}

/// The text of a string that may be absent.
pub open spec fn text_of(text: Option<String>) -> Option<Seq<char>> {
    match text {
        Some(text) => Some(text@),
        None => None,
    }
}

impl View for Event {
    type V = EventView;

    open spec fn view(&self) -> EventView {
        match self {
            Event::Started => EventView::Started,
            Event::NewestSignature(signature) => EventView::NewestSignature(text_of(*signature)),
            Event::CursorSaved => EventView::CursorSaved,
            Event::Accounts(accounts) => EventView::Accounts(accounts@),
            Event::QueueAppended => EventView::QueueAppended,
            Event::Cursor(cursor) => EventView::Cursor(text_of(*cursor)),
            Event::Signatures(signatures) => EventView::Signatures(texts(signatures@)),
            Event::Transaction(transaction) => EventView::Transaction(transaction@),
            Event::Elapsed(millis) => EventView::Elapsed(*millis),
            Event::Woke => EventView::Woke,
            Event::Failed(kind) => EventView::Failed(*kind),
        }
    }
}

/// What the crawler asks its driver to do.
#[derive(Clone, Debug, PartialEq, Eq)]
pub enum Action {
    /// Look up the newest signature of the loader.
    FetchNewestSignature,
    /// Save this signature as the cursor.
    SaveCursor(String),
    /// List the accounts that the loader owns, without their data.
    FetchAccounts,
    /// Append these events to the queue as one batch, and report what was
    /// passed over.
    AppendQueue { events: Vec<ProgramQueue>, errors: Vec<DecodeError> },
    /// Read the cursor from the store, and note the time.
    ReadCursor,
    /// Look up the loader's signatures that are newer than `until`.
    FetchSignatures { until: String },
    /// Fetch the transaction with this signature.
    FetchTransaction(String),
    /// Report how long ago the cursor was read.
    ReadClock,
    /// Pause for this many milliseconds.
    Sleep(u64),
    /// Give up for this reason.
    Stop(ErrorKind),
}

/// What an action holds, as mathematical values.
pub enum ActionView {
    FetchNewestSignature,
    SaveCursor(Seq<char>),
    FetchAccounts,
    AppendQueue { events: Seq<ProgramQueue>, errors: Seq<DecodeError> },
    ReadCursor,
    FetchSignatures { until: Seq<char> },
    FetchTransaction(Seq<char>),
    ReadClock,
    Sleep(u64),
    Stop(ErrorKind),
}

impl View for Action {
    type V = ActionView;

    open spec fn view(&self) -> ActionView {
        match self {
            Action::FetchNewestSignature => ActionView::FetchNewestSignature,
            Action::SaveCursor(signature) => ActionView::SaveCursor(signature@),
            Action::FetchAccounts => ActionView::FetchAccounts,
            Action::AppendQueue { events, errors } => ActionView::AppendQueue {
                events: events@,
                errors: errors@,
            },
            Action::ReadCursor => ActionView::ReadCursor,
            Action::FetchSignatures { until } => ActionView::FetchSignatures { until: until@ },
            Action::FetchTransaction(signature) => ActionView::FetchTransaction(signature@),
            Action::ReadClock => ActionView::ReadClock,
            Action::Sleep(millis) => ActionView::Sleep(*millis),
            Action::Stop(kind) => ActionView::Stop(*kind),
        }
    }
}

/// The crawler's memory.
#[derive(Debug)]
pub struct Scheduler {
    stage: Stage,
    cursor: String,
    signatures: Vec<String>,
    next: usize,
    events: Vec<ProgramQueue>,
    errors: Vec<DecodeError>,
}

/// What the crawler remembers, as mathematical values.
pub struct SchedulerView {
    /// What the crawler is waiting for.
    pub stage: Stage,
    /// The cursor that the current cycle started from.
    pub cursor: Seq<char>,
    /// The signatures of the current cycle, newest first.
    pub signatures: Seq<Seq<char>>,
    /// How many of them have been dealt with.
    pub next: nat,
    /// The events found so far in the current cycle.
    pub events: Seq<ProgramQueue>,
    /// What was passed over so far in the current cycle.
    pub errors: Seq<DecodeError>,
}

impl View for Scheduler {
    type V = SchedulerView;

    closed spec fn view(&self) -> SchedulerView {
        SchedulerView {
            stage: self.stage,
            cursor: self.cursor@,
            signatures: texts(self.signatures@),
            next: self.next as nat,
            events: self.events@,
            errors: self.errors@,
        }
    }
}

impl SchedulerView {
    /// The crawler before it has been told anything.
    pub open spec fn initial() -> SchedulerView {
        SchedulerView {
            stage: Stage::Idle,
            cursor: Seq::empty(),
            signatures: Seq::empty(),
            next: 0,
            events: Seq::empty(),
            errors: Seq::empty(),
        }
    }

    /// What holds of every crawler that was made by `Scheduler::new` and
    /// driven by `Scheduler::manage`: it never counts more transactions than
    /// the cycle has signatures, it waits for a transaction only while one
    /// is outstanding, and it holds events only in the middle of a cycle.
    pub open spec fn well_formed(self) -> bool {
        &&& self.next <= self.signatures.len()
        &&& self.stage == Stage::Transaction ==> self.next < self.signatures.len()
        &&& self.stage != Stage::Transaction && self.stage.spec_phase() != Phase::Failed ==> {
            &&& self.events == Seq::<ProgramQueue>::empty()
            &&& self.errors == Seq::<DecodeError>::empty()
        }
    }

    /// This crawler at another stage.
    pub open spec fn at(self, stage: Stage) -> SchedulerView {
        SchedulerView { stage, ..self }
    }

    /// The crawler after it has failed, and the order to stop.
    pub open spec fn fail(self, kind: ErrorKind) -> (SchedulerView, ActionView) {
        (self.at(Stage::Failed(kind)), ActionView::Stop(kind))
    }

    /// The crawler after the events of a cycle have gone out to be queued.
    pub open spec fn flushed(self) -> SchedulerView {
        SchedulerView { stage: Stage::Appended, events: Seq::empty(), errors: Seq::empty(), ..self }
    }

    /// What the crawler does during start-up.
    pub open spec fn bootstrap(self, event: EventView) -> (SchedulerView, ActionView) {
        match (self.stage, event) {
            (Stage::Idle, EventView::Started) => (
                self.at(Stage::NewestSignature),
                ActionView::FetchNewestSignature,
            ),
            (Stage::NewestSignature, EventView::NewestSignature(Some(signature))) => (
                SchedulerView { stage: Stage::CursorCreated, cursor: signature, ..self },
                ActionView::SaveCursor(signature),
            ),
            (Stage::NewestSignature, EventView::NewestSignature(None)) => self.fail(
                ErrorKind::Internal(Fault::EmptyHistory),
            ),
            (Stage::CursorCreated, EventView::CursorSaved) => (
                self.at(Stage::Accounts),
                ActionView::FetchAccounts,
            ),
            (Stage::Accounts, EventView::Accounts(accounts)) => (
                self.at(Stage::Announced),
                ActionView::AppendQueue {
                    events: discovered_events(accounts),
                    errors: Seq::empty(),
                },
            ),
            (Stage::Announced, EventView::QueueAppended) => (
                self.at(Stage::Cursor),
                ActionView::ReadCursor,
            ),
            _ => self.fail(ErrorKind::Internal(Fault::UnexpectedEvent)),
        }
    }

    /// What the crawler does during a polling cycle.
    pub open spec fn poll(self, event: EventView) -> (SchedulerView, ActionView) {
        match (self.stage, event) {
            (Stage::Cursor, EventView::Cursor(Some(cursor))) => (
                SchedulerView { stage: Stage::Signatures, cursor, ..self },
                ActionView::FetchSignatures { until: cursor },
            ),
            (Stage::Cursor, EventView::Cursor(None)) => self.fail(
                ErrorKind::Internal(Fault::MissingCursor),
            ),
            (Stage::Signatures, EventView::Signatures(signatures)) => {
                let cycle = SchedulerView {
                    signatures,
                    next: 0,
                    events: Seq::empty(),
                    errors: Seq::empty(),
                    ..self
                };
                if signatures.len() > 0 {
                    (cycle.at(Stage::Transaction), ActionView::FetchTransaction(signatures[0]))
                } else {
                    (
                        cycle.flushed(),
                        ActionView::AppendQueue { events: Seq::empty(), errors: Seq::empty() },
                    )
                }
            },
            (Stage::Transaction, EventView::Transaction(transaction)) => {
                if self.next < self.signatures.len() {
                    let grown = SchedulerView {
                        next: self.next + 1,
                        events: self.events + extracted_events(transaction),
                        errors: self.errors + extracted_errors(transaction),
                        ..self
                    };
                    if grown.next < grown.signatures.len() {
                        (grown, ActionView::FetchTransaction(grown.signatures[grown.next as int]))
                    } else {
                        (
                            grown.flushed(),
                            ActionView::AppendQueue { events: grown.events, errors: grown.errors },
                        )
                    }
                } else {
                    self.fail(ErrorKind::Internal(Fault::UnexpectedEvent))
                }
            },
            (Stage::Appended, EventView::QueueAppended) => {
                let cursor = advanced_cursor(self.cursor, self.signatures);
                (
                    SchedulerView { stage: Stage::CursorAdvanced, cursor, ..self },
                    ActionView::SaveCursor(cursor),
                )
            },
            (Stage::CursorAdvanced, EventView::CursorSaved) => (
                self.at(Stage::Elapsed),
                ActionView::ReadClock,
            ),
            _ => self.fail(ErrorKind::Internal(Fault::UnexpectedEvent)),
        }
    }

    /// What the crawler does between two cycles.
    pub open spec fn pace(self, event: EventView) -> (SchedulerView, ActionView) {
        match (self.stage, event) {
            (Stage::Elapsed, EventView::Elapsed(millis)) => (
                self.at(Stage::Timer),
                ActionView::Sleep(pause_of(CADENCE_MILLIS, millis)),
            ),
            (Stage::Timer, EventView::Woke) => (self.at(Stage::Cursor), ActionView::ReadCursor),
            _ => self.fail(ErrorKind::Internal(Fault::UnexpectedEvent)),
        }
    }

    /// The crawler's answer to an event: its next state and what it asks
    /// for. A crawler that has failed stays as it is and repeats the order to
    /// stop; any reported failure makes it fail; otherwise the answer
    /// depends on the state it is in.
    pub open spec fn step(self, event: EventView) -> (SchedulerView, ActionView) {
        match self.stage {
            Stage::Failed(kind) => (self, ActionView::Stop(kind)),
            _ => match event {
                EventView::Failed(kind) => self.fail(kind),
                _ => match self.stage.spec_phase() {
                    Phase::Bootstrapping => self.bootstrap(event),
                    Phase::Polling => self.poll(event),
                    Phase::Sleeping => self.pace(event),
                    Phase::Failed => self.fail(ErrorKind::Internal(Fault::UnexpectedEvent)),
                },
            },
        }
    }
}

impl Scheduler {
    /// A crawler that has not been told anything yet.
    pub fn new() -> (scheduler: Scheduler)
        ensures
            scheduler@ == SchedulerView::initial(),
            scheduler@.well_formed(),
    {
        let scheduler = Scheduler {
            stage: Stage::Idle,
            cursor: String::new(),
            signatures: Vec::new(),
            next: 0,
            events: Vec::new(),
            errors: Vec::new(),
        };
        assert(texts(scheduler.signatures@) =~= Seq::empty());
        assert(scheduler@ =~~= SchedulerView::initial());
        scheduler
    }

    /// What the crawler is waiting for.
    pub fn stage(&self) -> (stage: Stage)
        ensures
            stage == self@.stage,
    {
        self.stage
    }

    /// The state that the crawler is in.
    pub fn phase(&self) -> (phase: Phase)
        ensures
            phase == self@.stage.spec_phase(),
    {
        self.stage.phase()
    }

    /// The cursor that the current cycle started from.
    pub fn cursor(&self) -> (cursor: &String)
        ensures
            cursor@ == self@.cursor,
    {
        &self.cursor
    }

    /// Makes the crawler fail.
    fn fail(&mut self, kind: ErrorKind) -> (action: Action)
        ensures
            final(self)@ == old(self)@.fail(kind).0,
            action@ == old(self)@.fail(kind).1,
    {
        self.stage = Stage::Failed(kind);
        Action::Stop(kind)
    }

    /// Hands out what the cycle has found, to be queued.
    fn flush(&mut self) -> (action: Action)
        ensures
            final(self)@ == old(self)@.flushed(),
            action@ == (ActionView::AppendQueue {
                events: old(self)@.events,
                errors: old(self)@.errors,
            }),
    {
        let mut events: Vec<ProgramQueue> = Vec::new();
        let mut errors: Vec<DecodeError> = Vec::new();
        std::mem::swap(&mut self.events, &mut events);
        std::mem::swap(&mut self.errors, &mut errors);
        self.stage = Stage::Appended;
        assert(self@ =~~= old(self)@.flushed());
        Action::AppendQueue { events, errors }
    }

    /// Start-up: saves the newest signature as the first cursor, then
    /// queues one event for each program that the loader owns, whatever
    /// the store already holds.
    pub fn init_db_with_programs(&mut self, event: Event) -> (action: Action)
        ensures
            final(self)@ == old(self)@.bootstrap(event@).0,
            action@ == old(self)@.bootstrap(event@).1,
    {
        match (self.stage, event) {
            (Stage::Idle, Event::Started) => {
                self.stage = Stage::NewestSignature;
                Action::FetchNewestSignature
            },
            (Stage::NewestSignature, Event::NewestSignature(Some(signature))) => {
                self.cursor = signature.clone();
                self.stage = Stage::CursorCreated;
                assert(self@ =~~= old(self)@.bootstrap(event@).0);
                Action::SaveCursor(signature)
            },
            (Stage::NewestSignature, Event::NewestSignature(None)) => self.fail(
                ErrorKind::Internal(Fault::EmptyHistory),
            ),
            (Stage::CursorCreated, Event::CursorSaved) => {
                self.stage = Stage::Accounts;
                Action::FetchAccounts
            },
            (Stage::Accounts, Event::Accounts(accounts)) => {
                let events = discover(&accounts);
                self.stage = Stage::Announced;
                Action::AppendQueue { events, errors: Vec::new() }
            },
            (Stage::Announced, Event::QueueAppended) => {
                self.stage = Stage::Cursor;
                Action::ReadCursor
            },
            _ => self.fail(ErrorKind::Internal(Fault::UnexpectedEvent)),
        }
    }

    /// One polling cycle: reads the cursor, looks up what is newer, decodes
    /// each transaction in the order in which the lookup returned them,
    /// queues the events as one batch and then saves the newest signature as
    /// the cursor.
    pub fn insert_last_programs(&mut self, event: Event) -> (action: Action)
        ensures
            final(self)@ == old(self)@.poll(event@).0,
            action@ == old(self)@.poll(event@).1,
    {
        match (self.stage, event) {
            (Stage::Cursor, Event::Cursor(Some(cursor))) => {
                self.cursor = cursor.clone();
                self.stage = Stage::Signatures;
                assert(self@ =~~= old(self)@.poll(event@).0);
                Action::FetchSignatures { until: cursor }
            },
            (Stage::Cursor, Event::Cursor(None)) => self.fail(
                ErrorKind::Internal(Fault::MissingCursor),
            ),
            (Stage::Signatures, Event::Signatures(signatures)) => {
                self.signatures = signatures;
                self.next = 0;
                self.events = Vec::new();
                self.errors = Vec::new();
                if self.signatures.len() > 0 {
                    self.stage = Stage::Transaction;
                    assert(self@ =~~= old(self)@.poll(event@).0);
                    Action::FetchTransaction(self.signatures[0].clone())
                } else {
                    let action = self.flush();
                    assert(self@ =~~= old(self)@.poll(event@).0);
                    action
                }
            },
            (Stage::Transaction, Event::Transaction(transaction)) => {
                if self.next < self.signatures.len() {
                    extract_into(&transaction, &mut self.events, &mut self.errors);
                    self.next = self.next + 1;
                    if self.next < self.signatures.len() {
                        assert(self@ =~~= old(self)@.poll(event@).0);
                        Action::FetchTransaction(self.signatures[self.next].clone())
                    } else {
                        let action = self.flush();
                        assert(self@ =~~= old(self)@.poll(event@).0);
                        action
                    }
                } else {
                    self.fail(ErrorKind::Internal(Fault::UnexpectedEvent))
                }
            },
            (Stage::Appended, Event::QueueAppended) => {
                let cursor = advance_cursor(&self.cursor, &self.signatures);
                self.cursor = cursor.clone();
                self.stage = Stage::CursorAdvanced;
                assert(self@ =~~= old(self)@.poll(event@).0);
                Action::SaveCursor(cursor)
            },
            (Stage::CursorAdvanced, Event::CursorSaved) => {
                self.stage = Stage::Elapsed;
                Action::ReadClock
            },
            _ => self.fail(ErrorKind::Internal(Fault::UnexpectedEvent)),
        }
    }

    /// Between two cycles: pauses for what is left of the cadence interval,
    /// then starts the next cycle.
    pub fn pace(&mut self, event: Event) -> (action: Action)
        ensures
            final(self)@ == old(self)@.pace(event@).0,
            action@ == old(self)@.pace(event@).1,
    {
        match (self.stage, event) {
            (Stage::Elapsed, Event::Elapsed(millis)) => {
                self.stage = Stage::Timer;
                Action::Sleep(pause_within(CADENCE_MILLIS, millis))
            },
            (Stage::Timer, Event::Woke) => {
                self.stage = Stage::Cursor;
                Action::ReadCursor
            },
            _ => self.fail(ErrorKind::Internal(Fault::UnexpectedEvent)),
        }
    }

    /// Tells the crawler what happened and returns what it asks for next.
    pub fn manage(&mut self, event: Event) -> (action: Action)
        ensures
            final(self)@ == old(self)@.step(event@).0,
            action@ == old(self)@.step(event@).1,
            old(self)@.well_formed() ==> final(self)@.well_formed(),
    {
        proof {
            if self@.well_formed() {
                lemma_step_keeps_well_formed(self@, event@);
            }
        }
        if let Stage::Failed(kind) = self.stage {
            return Action::Stop(kind);
        }
        if let Event::Failed(kind) = &event {
            let kind = *kind;
            return self.fail(kind);
        }
        match self.stage.phase() {
            Phase::Bootstrapping => self.init_db_with_programs(event),
            Phase::Polling => self.insert_last_programs(event),
            Phase::Sleeping => self.pace(event),
            Phase::Failed => self.fail(ErrorKind::Internal(Fault::UnexpectedEvent)),
        }
    }
}

/// The events of a run of transactions, in the order of the transactions.
pub open spec fn events_of_all(transactions: Seq<TransactionView>) -> Seq<ProgramQueue>
    decreases transactions.len(),
{
    if transactions.len() == 0 {
        Seq::empty()
    } else {
        events_of_all(transactions.drop_last()) + extracted_events(transactions.last())
    }
}

/// What was passed over in a run of transactions, in the order of the
/// transactions.
pub open spec fn errors_of_all(transactions: Seq<TransactionView>) -> Seq<DecodeError>
    decreases transactions.len(),
{
    if transactions.len() == 0 {
        Seq::empty()
    } else {
        errors_of_all(transactions.drop_last()) + extracted_errors(transactions.last())
    }
}

/// The crawler after it has been handed `transactions` one after the other.
pub open spec fn fed(state: SchedulerView, transactions: Seq<TransactionView>) -> SchedulerView
    decreases transactions.len(),
{
    if transactions.len() == 0 {
        state
    } else {
        fed(state, transactions.drop_last()).step(EventView::Transaction(transactions.last())).0
    }
}

/// Whether `newer` stands before `older` in a history that lists the newest
/// signature first.
pub open spec fn is_newer(history: Seq<Seq<char>>, newer: Seq<char>, older: Seq<char>) -> bool {
    exists|i: int, j: int|
        0 <= i < j < history.len() && #[trigger] history[i] == newer && #[trigger] history[j]
            == older
}

/// Pausing makes up the difference to the cadence: a cycle and its pause
/// together take exactly the cadence interval, unless the cycle alone took
/// that long or longer, in which case there is no pause at all.
pub proof fn lemma_pause(cadence: u64, elapsed: u64)
    ensures
        elapsed <= cadence ==> elapsed + pause_of(cadence, elapsed) == cadence,
        elapsed >= cadence ==> pause_of(cadence, elapsed) == 0,
        pause_of(cadence, elapsed) <= cadence,
{
}

/// No transition leaves the failed state: a crawler that has failed stays
/// exactly as it is and answers every event with the order to stop, for the
/// reason for which it failed.
pub proof fn lemma_failed_is_terminal(state: SchedulerView, event: EventView, kind: ErrorKind)
    requires
        state.stage == Stage::Failed(kind),
    ensures
        state.step(event).0 == state,
        state.step(event).1 == ActionView::Stop(kind),
{
}

/// Any reported failure is fatal: whatever the crawler was waiting for, it
/// fails for the reported reason and gives the order to stop. What the
/// cycle had found so far is not handed out, and the cursor is not moved.
pub proof fn lemma_failure_stops(state: SchedulerView, kind: ErrorKind)
    requires
        state.stage.spec_phase() != Phase::Failed,
    ensures
        state.step(EventView::Failed(kind)).0 == state.at(Stage::Failed(kind)),
        state.step(EventView::Failed(kind)).0.cursor == state.cursor,
        state.step(EventView::Failed(kind)).1 == ActionView::Stop(kind),
{
}

/// The crawler only moves between its states as follows: from
/// bootstrapping to polling, from polling to sleeping, from sleeping to
/// polling, and from any of them to failed. In particular it never returns
/// to bootstrapping, so start-up happens once.
pub proof fn lemma_phase_order(state: SchedulerView, event: EventView)
    ensures
        ({
            let before = state.stage.spec_phase();
            let after = state.step(event).0.stage.spec_phase();
            ||| after == before
            ||| after == Phase::Failed
            ||| before == Phase::Bootstrapping && after == Phase::Polling
            ||| before == Phase::Polling && after == Phase::Sleeping
            ||| before == Phase::Sleeping && after == Phase::Polling
        }),
        state.stage.spec_phase() != Phase::Bootstrapping ==> state.step(
            event,
        ).0.stage.spec_phase() != Phase::Bootstrapping,
{
}

/// Whatever it is told, a well-formed crawler stays well-formed, and as
/// long as it is told of what it asked for it does not fail by itself while
/// it gathers the transactions of a cycle.
pub proof fn lemma_step_keeps_well_formed(state: SchedulerView, event: EventView)
    requires
        state.well_formed(),
    ensures
        state.step(event).0.well_formed(),
        state.stage == Stage::Transaction && event is Transaction ==> state.step(
            event,
        ).0.stage.spec_phase() == Phase::Polling,
{
}

/// While transactions of a cycle are still outstanding, the crawler
/// gathers what each one gives, in the order in which they arrive, and
/// changes nothing else.
pub proof fn lemma_fed(state: SchedulerView, transactions: Seq<TransactionView>)
    requires
        state.stage == Stage::Transaction,
        state.next == 0,
        state.events == Seq::<ProgramQueue>::empty(),
        state.errors == Seq::<DecodeError>::empty(),
        transactions.len() < state.signatures.len(),
    ensures
        fed(state, transactions) == (SchedulerView {
            next: transactions.len(),
            events: events_of_all(transactions),
            errors: errors_of_all(transactions),
            ..state
        }),
    decreases transactions.len(),
{
    let expected = SchedulerView {
        next: transactions.len(),
        events: events_of_all(transactions),
        errors: errors_of_all(transactions),
        ..state
    };
    if transactions.len() == 0 {
        assert(fed(state, transactions) =~~= expected);
    } else {
        lemma_fed(state, transactions.drop_last());
        assert(fed(state, transactions) =~~= expected);
    }
}

/// A polling cycle that finds new signatures does what it should. It asks
/// for the signatures newer than the cursor it read, then for the
/// transaction of each signature in the order of the lookup, hands out the
/// events of all of them as one batch, in that order, together with what it
/// passed over, and once that batch is queued saves the newest signature
/// as the cursor before it goes to sleep.
pub proof fn lemma_cycle(
    start: SchedulerView,
    cursor: Seq<char>,
    signatures: Seq<Seq<char>>,
    transactions: Seq<TransactionView>,
)
    requires
        start.stage == Stage::Cursor,
        signatures.len() > 0,
        transactions.len() == signatures.len(),
    ensures
        ({
            let read = start.step(EventView::Cursor(Some(cursor)));
            let listed = read.0.step(EventView::Signatures(signatures));
            let last = fed(listed.0, transactions.drop_last()).step(
                EventView::Transaction(transactions.last()),
            );
            let queued = last.0.step(EventView::QueueAppended);
            let saved = queued.0.step(EventView::CursorSaved);
            &&& read.1 == ActionView::FetchSignatures { until: cursor }
            &&& listed.1 == ActionView::FetchTransaction(signatures[0])
            &&& forall|k: int|
                0 <= k < transactions.len() - 1 ==> (#[trigger] fed(
                    listed.0,
                    transactions.take(k),
                )).step(EventView::Transaction(transactions[k])).1 == ActionView::FetchTransaction(
                    signatures[k + 1],
                )
            &&& last.1 == ActionView::AppendQueue {
                events: events_of_all(transactions),
                errors: errors_of_all(transactions),
            }
            &&& queued.1 == ActionView::SaveCursor(signatures[0])
            &&& queued.0.cursor == signatures[0]
            &&& saved.1 == ActionView::ReadClock
            &&& saved.0.stage.spec_phase() == Phase::Sleeping
        }),
{
    let read = start.step(EventView::Cursor(Some(cursor)));
    let listed = read.0.step(EventView::Signatures(signatures));
    lemma_fed(listed.0, transactions.drop_last());
    assert forall|k: int| 0 <= k < transactions.len() - 1 implies (#[trigger] fed(
        listed.0,
        transactions.take(k),
    )).step(EventView::Transaction(transactions[k])).1 == ActionView::FetchTransaction(
        signatures[k + 1],
    ) by {
        lemma_fed(listed.0, transactions.take(k));
    }
}

/// A polling cycle that finds nothing new queues an empty batch and saves
/// the cursor it started from.
pub proof fn lemma_idle_cycle(start: SchedulerView, cursor: Seq<char>)
    requires
        start.stage == Stage::Cursor,
    ensures
        ({
            let read = start.step(EventView::Cursor(Some(cursor)));
            let listed = read.0.step(EventView::Signatures(Seq::empty()));
            let queued = listed.0.step(EventView::QueueAppended);
            &&& read.1 == ActionView::FetchSignatures { until: cursor }
            &&& listed.1 == ActionView::AppendQueue { events: Seq::empty(), errors: Seq::empty() }
            &&& queued.1 == ActionView::SaveCursor(cursor)
            &&& queued.0.cursor == cursor
        }),
{
}

/// The cursor makes progress. Let `history` list the loader's signatures,
/// newest first and each once, and let the cursor read at the start of a
/// cycle stand at position `at`. If the lookup returns at least one
/// signature, and returns the newest ones, all of them newer than the
/// cursor, then the cursor saved at the end of the cycle differs from the
/// one read at its start and is newer than it.
pub proof fn lemma_cursor_progress(
    start: SchedulerView,
    history: Seq<Seq<char>>,
    at: int,
    found: int,
    transactions: Seq<TransactionView>,
)
    requires
        start.stage == Stage::Cursor,
        history.no_duplicates(),
        0 <= at < history.len(),
        0 < found <= at,
        transactions.len() == found,
    ensures
        ({
            let cursor = history[at];
            let signatures = history.take(found);
            let read = start.step(EventView::Cursor(Some(cursor)));
            let listed = read.0.step(EventView::Signatures(signatures));
            let last = fed(listed.0, transactions.drop_last()).step(
                EventView::Transaction(transactions.last()),
            );
            let queued = last.0.step(EventView::QueueAppended);
            &&& queued.1 == ActionView::SaveCursor(queued.0.cursor)
            &&& queued.0.cursor == advanced_cursor(cursor, signatures)
            &&& queued.0.cursor != cursor
            &&& is_newer(history, queued.0.cursor, cursor)
        }),
{
    let cursor = history[at];
    let signatures = history.take(found);
    lemma_cycle(start, cursor, signatures, transactions);
    assert(signatures[0] == history[0]);
    assert(history[0] != history[at]);
    assert(0 <= 0 < at < history.len() && history[0] == signatures[0] && history[at] == cursor);
}

/// Start-up runs the same way whatever the store already holds: the newest
/// signature becomes the cursor, every account that the loader owns is
/// announced by one event, in the order of the accounts, and polling
/// begins once those events are queued.
pub proof fn lemma_bootstrap(newest: Seq<char>, accounts: Seq<AccountKey>)
    ensures
        ({
            let started = SchedulerView::initial().step(EventView::Started);
            let found = started.0.step(EventView::NewestSignature(Some(newest)));
            let created = found.0.step(EventView::CursorSaved);
            let listed = created.0.step(EventView::Accounts(accounts));
            let announced = listed.0.step(EventView::QueueAppended);
            &&& started.1 == ActionView::FetchNewestSignature
            &&& found.1 == ActionView::SaveCursor(newest)
            &&& created.1 == ActionView::FetchAccounts
            &&& listed.1 == ActionView::AppendQueue {
                events: discovered_events(accounts),
                errors: Seq::empty(),
            }
            &&& listed.0.stage.spec_phase() == Phase::Bootstrapping
            &&& announced.1 == ActionView::ReadCursor
            &&& announced.0.stage == Stage::Cursor
            &&& announced.0.cursor == newest
        }),
{
}

} // verus!
