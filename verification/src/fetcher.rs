//! Decoding of what the chain returned into deployment events.

use crate::consts::{
    BPF_LOADER, DEPLOY_WITH_MAX_DATA_LEN, INFO, INSTRUCTION_TYPE, PROGRAM_ACCOUNT,
    PROGRAM_DATA_ACCOUNT, UPGRADE,
};
use crate::errors::{DecodeError, Field};
use crate::models::program_queue_model::{FetchReason, ProgramQueue};
use crate::models::transaction_model::{
    InnerInstructions, InnerInstructionsView, Instruction, InstructionView, Json, JsonView,
    ParsedInstruction, ParsedInstructionView, Transaction, TransactionView,
};
use crate::pubkey::{pubkey_from_str, AccountKey};
use vstd::prelude::*;

verus! {

/// The kinds of loader instruction that the decoder tells apart.
#[derive(Clone, Copy, Debug, PartialEq, Eq, Hash, Structural)]
pub enum InstructionKind {
    /// First deployment of a program.
    DeployWithMaxDataLen,
    /// Replacement of a program's bytecode.
    Upgrade,
    /// Any other instruction: it produces no event.
    Unhandled,
}

impl InstructionKind {
    /// The kind that an instruction type names.
    pub open spec fn of(text: Seq<char>) -> InstructionKind {
        if text == DEPLOY_WITH_MAX_DATA_LEN@ {
            InstructionKind::DeployWithMaxDataLen
        } else if text == UPGRADE@ {
            InstructionKind::Upgrade
        } else {
            InstructionKind::Unhandled
        }
    }

    pub fn from_text(text: &String) -> (kind: InstructionKind)
        ensures
            kind == Self::of(text@),
    {
        let deploy = DEPLOY_WITH_MAX_DATA_LEN.to_owned();
        let upgrade = UPGRADE.to_owned();
        if *text == deploy {
            InstructionKind::DeployWithMaxDataLen
        } else if *text == upgrade {
            InstructionKind::Upgrade
        } else {
            InstructionKind::Unhandled
        }
    }
}

/// What one instruction amounts to.
#[derive(Clone, Copy, Debug, PartialEq, Eq, Hash)]
pub enum Decoded {
    /// A deployment or an upgrade.
    Event(ProgramQueue),
    /// Nothing of interest: another program, or another kind of instruction.
    Ignored,
    /// An instruction that does not have the expected shape.
    Malformed(DecodeError),
}

/// What an instruction of kind `kind` amounts to, given the slot of its
/// transaction and the two accounts that it names: a deployment is a
/// `Create`, an upgrade an `Update`, and anything else nothing.
pub open spec fn event_of(
    kind: InstructionKind,
    slot: u64,
    program_account: AccountKey,
    program_data_account: AccountKey,
) -> Decoded {
    match kind {
        InstructionKind::DeployWithMaxDataLen => Decoded::Event(
            ProgramQueue {
                program_account,
                program_data_account: Some(program_data_account),
                deploy_slot: Some(slot),
                fetch_reason: FetchReason::Create,
            },
        ),
        InstructionKind::Upgrade => Decoded::Event(
            ProgramQueue {
                program_account,
                program_data_account: Some(program_data_account),
                deploy_slot: Some(slot),
                fetch_reason: FetchReason::Update,
            },
        ),
        InstructionKind::Unhandled => Decoded::Ignored,
    }
}

/// The text of member `key` of `object`.
pub open spec fn text_field(object: Option<JsonView>, key: Seq<char>, field: Field) -> Result<
    Seq<char>,
    DecodeError,
> {
    match object {
        None => Err(DecodeError::MissingField(field)),
        Some(object) => match object.get(key) {
            None => Err(DecodeError::MissingField(field)),
            Some(value) => match value.text() {
                None => Err(DecodeError::MistypedField(field)),
                Some(text) => Ok(text),
            },
        },
    }
}

/// The account key that member `key` of `object` holds as text.
pub open spec fn key_field(object: Option<JsonView>, key: Seq<char>, field: Field) -> Result<
    AccountKey,
    DecodeError,
> {
    match text_field(object, key, field) {
        Err(error) => Err(error),
        Ok(text) => match AccountKey::decoded(text) {
            None => Err(DecodeError::InvalidKey(field)),
            Some(account) => Ok(account),
        },
    }
}

/// What the payload of a loader instruction amounts to.
pub open spec fn decode_payload(slot: u64, parsed: JsonView) -> Decoded {
    match text_field(Some(parsed), INSTRUCTION_TYPE@, Field::InstructionType) {
        Err(error) => Decoded::Malformed(error),
        Ok(text) => {
            let kind = InstructionKind::of(text);
            let info = parsed.get(INFO@);
            if kind == InstructionKind::Unhandled {
                Decoded::Ignored
            } else {
                match key_field(info, PROGRAM_ACCOUNT@, Field::ProgramAccount) {
                    Err(error) => Decoded::Malformed(error),
                    Ok(program_account) => match key_field(
                        info,
                        PROGRAM_DATA_ACCOUNT@,
                        Field::ProgramDataAccount,
                    ) {
                        Err(error) => Decoded::Malformed(error),
                        Ok(program_data_account) => event_of(
                            kind,
                            slot,
                            program_account,
                            program_data_account,
                        ),
                    },
                }
            }
        },
    }
}

/// What a parsed instruction amounts to: nothing unless it addresses the
/// upgradeable loader, else what its payload says.
pub open spec fn decode_instruction(slot: u64, instruction: ParsedInstructionView) -> Decoded {
    match pubkey_from_str(instruction.program_id) {
        None => Decoded::Malformed(DecodeError::InvalidKey(Field::ProgramId)),
        Some(program_id) => if program_id == BPF_LOADER@ {
            decode_payload(slot, instruction.parsed)
        } else {
            Decoded::Ignored
        },
    }
}

/// Decides what an instruction amounts to once its kind is known and its
/// accounts have been resolved.
pub fn deployment_event(
    kind: InstructionKind,
    slot: u64,
    program_account: AccountKey,
    program_data_account: AccountKey,
) -> (decoded: Decoded)
    ensures
        decoded == event_of(kind, slot, program_account, program_data_account),
        decoded matches Decoded::Event(event) ==> event.well_formed(),
{
    match kind {
        InstructionKind::DeployWithMaxDataLen => Decoded::Event(
            ProgramQueue {
                program_account,
                program_data_account: Some(program_data_account),
                deploy_slot: Some(slot),
                fetch_reason: FetchReason::Create,
            },
        ),
        InstructionKind::Upgrade => Decoded::Event(
            ProgramQueue {
                program_account,
                program_data_account: Some(program_data_account),
                deploy_slot: Some(slot),
                fetch_reason: FetchReason::Update,
            },
        ),
        InstructionKind::Unhandled => Decoded::Ignored,
    }
}

/// Reads the text of a member of a payload object.
pub fn text_member<'a>(object: Option<&'a Json>, key: &str, field: Field) -> (text: Result<
    &'a String,
    DecodeError,
>)
    ensures
        match text {
            Ok(t) => text_field(view_of(object), key@, field) == Ok::<Seq<char>, DecodeError>(t@),
            Err(e) => text_field(view_of(object), key@, field) == Err::<Seq<char>, DecodeError>(e),
        },
{
    match object {
        None => Err(DecodeError::MissingField(field)),
        Some(object) => match object.get(key) {
            None => Err(DecodeError::MissingField(field)),
            Some(value) => match value.as_str() {
                None => Err(DecodeError::MistypedField(field)),
                Some(text) => Ok(text),
            },
        },
    }
}

/// The view of a payload that may be absent.
pub open spec fn view_of(object: Option<&Json>) -> Option<JsonView> {
    match object {
        Some(object) => Some(object@),
        None => None,
    }
}

/// Reads the account key that a member of a payload object holds.
pub fn key_member(object: Option<&Json>, key: &str, field: Field) -> (account: Result<
    AccountKey,
    DecodeError,
>)
    ensures
        account == key_field(view_of(object), key@, field),
{
    match text_member(object, key, field) {
        Err(error) => Err(error),
        Ok(text) => match AccountKey::parse(text.as_str()) {
            None => Err(DecodeError::InvalidKey(field)),
            Some(account) => Ok(account),
        },
    }
}

/// Decodes one parsed instruction of a transaction processed in `slot`.
pub fn decode(slot: u64, instruction: &ParsedInstruction) -> (decoded: Decoded)
    ensures
        decoded == decode_instruction(slot, instruction@),
{
    let loader = AccountKey::new(BPF_LOADER);
    match AccountKey::parse(instruction.program_id.as_str()) {
        None => Decoded::Malformed(DecodeError::InvalidKey(Field::ProgramId)),
        Some(program_id) => {
            if !program_id.same(&loader) {
                return Decoded::Ignored;
            }
            let parsed = &instruction.parsed;
            match text_member(Some(parsed), INSTRUCTION_TYPE, Field::InstructionType) {
                Err(error) => Decoded::Malformed(error),
                Ok(text) => {
                    let kind = InstructionKind::from_text(text);
                    if kind == InstructionKind::Unhandled {
                        return Decoded::Ignored;
                    }
                    let info = parsed.get(INFO);
                    match key_member(info, PROGRAM_ACCOUNT, Field::ProgramAccount) {
                        Err(error) => Decoded::Malformed(error),
                        Ok(program_account) => match key_member(
                            info,
                            PROGRAM_DATA_ACCOUNT,
                            Field::ProgramDataAccount,
                        ) {
                            Err(error) => Decoded::Malformed(error),
                            Ok(program_data_account) => deployment_event(
                                kind,
                                slot,
                                program_account,
                                program_data_account,
                            ),
                        },
                    }
                },
            }
        },
    }
}

/// What one instruction of a tree amounts to. An instruction whose payload
/// is only there as raw bytes is passed over.
pub open spec fn outcome(slot: u64, instruction: InstructionView) -> Decoded {
    match instruction {
        InstructionView::Parsed(parsed) => decode_instruction(slot, parsed),
        InstructionView::Raw => Decoded::Ignored,
    }
}

/// The event of an outcome, as a sequence of at most one.
pub open spec fn event_part(decoded: Decoded) -> Seq<ProgramQueue> {
    match decoded {
        Decoded::Event(event) => seq![event],
        _ => Seq::empty(),
    }
}

/// The error of an outcome, as a sequence of at most one.
pub open spec fn error_part(decoded: Decoded) -> Seq<DecodeError> {
    match decoded {
        Decoded::Malformed(error) => seq![error],
        _ => Seq::empty(),
    }
}

/// The instructions of all trees, one tree after the other.
pub open spec fn flatten(trees: Seq<InnerInstructionsView>) -> Seq<InstructionView>
    decreases trees.len(),
{
    if trees.len() == 0 {
        Seq::empty()
    } else {
        flatten(trees.drop_last()) + trees.last().instructions
    }
}

/// The events of a run of instructions, in the order of the instructions.
pub open spec fn events_of(slot: u64, instructions: Seq<InstructionView>) -> Seq<ProgramQueue>
    decreases instructions.len(),
{
    if instructions.len() == 0 {
        Seq::empty()
    } else {
        events_of(slot, instructions.drop_last()) + event_part(outcome(slot, instructions.last()))
    }
}

/// The decode errors of a run of instructions, in the order of the
/// instructions.
pub open spec fn errors_of(slot: u64, instructions: Seq<InstructionView>) -> Seq<DecodeError>
    decreases instructions.len(),
{
    if instructions.len() == 0 {
        Seq::empty()
    } else {
        errors_of(slot, instructions.drop_last()) + error_part(outcome(slot, instructions.last()))
    }
}

/// The views of a list of trees.
pub open spec fn trees_view(trees: Seq<InnerInstructions>) -> Seq<InnerInstructionsView> {
    trees.map_values(|tree: InnerInstructions| tree@)
}

/// Decodes one parsed instruction and appends its event, if it has one, to
/// `programs`. Returns how many events were appended, or the reason why the
/// instruction could not be decoded; `programs` is then left as it was.
pub fn parse_bpf_loader_compiled_instruction(
    slot: u64,
    instruction: &ParsedInstruction,
    programs: &mut Vec<ProgramQueue>,
) -> (added: Result<u64, DecodeError>)
    ensures
        added == match decode_instruction(slot, instruction@) {
            Decoded::Event(event) => Ok::<u64, DecodeError>(1),
            Decoded::Ignored => Ok::<u64, DecodeError>(0),
            Decoded::Malformed(error) => Err::<u64, DecodeError>(error),
        },
        final(programs)@ == old(programs)@ + event_part(decode_instruction(slot, instruction@)),
{
    match decode(slot, instruction) {
        Decoded::Event(event) => {
            programs.push(event);
            Ok(1)
        },
        Decoded::Ignored => Ok(0),
        Decoded::Malformed(error) => Err(error),
    }
}

/// Goes through the trees of inner instructions of a transaction processed
/// in `slot`, in order. The event of each instruction that has one is
/// appended to `programs`; an instruction that cannot be decoded is passed
/// over and the reason appended to `errors`. Returns how many events were
/// appended.
pub fn parse_bpf_upgradable_loader_inner_instructions(
    slot: u64,
    inner_instructions: &Vec<InnerInstructions>,
    programs: &mut Vec<ProgramQueue>,
    errors: &mut Vec<DecodeError>,
) -> (added: u64)
    ensures
        final(programs)@ == old(programs)@ + events_of(
            slot,
            flatten(trees_view(inner_instructions@)),
        ),
        final(errors)@ == old(errors)@ + errors_of(
            slot,
            flatten(trees_view(inner_instructions@)),
        ),
        added == events_of(slot, flatten(trees_view(inner_instructions@))).len(),
{
    let before = programs.len();
    let ghost trees = trees_view(inner_instructions@);
    let mut i: usize = 0;
    assert(trees.take(0) =~= Seq::empty());
    while i < inner_instructions.len()
        invariant
            i <= inner_instructions.len(),
            trees == trees_view(inner_instructions@),
            programs@ == old(programs)@ + events_of(slot, flatten(trees.take(i as int))),
            errors@ == old(errors)@ + errors_of(slot, flatten(trees.take(i as int))),
        decreases inner_instructions.len() - i,
    {
        let tree = &inner_instructions[i];
        let ghost done = flatten(trees.take(i as int));
        let ghost branch = trees[i as int].instructions;
        let mut j: usize = 0;
        assert(done + branch.take(0) =~= done);
        while j < tree.instructions.len()
            invariant
                j <= tree.instructions.len(),
                branch == tree.instructions@.map_values(|x: Instruction| x@),
                programs@ == old(programs)@ + events_of(slot, done + branch.take(j as int)),
                errors@ == old(errors)@ + errors_of(slot, done + branch.take(j as int)),
            decreases tree.instructions.len() - j,
        {
            let ghost seen = done + branch.take(j as int);
            let ghost next = done + branch.take(j + 1);
            assert(next.drop_last() =~= seen);
            assert(next.last() == tree.instructions@[j as int]@);
            match &tree.instructions[j] {
                Instruction::Parsed(parsed) => {
                    match parse_bpf_loader_compiled_instruction(slot, parsed, programs) {
                        Ok(_) => {},
                        Err(error) => {
                            errors.push(error);
                        },
                    }
                },
                Instruction::Raw => {},
            }
            assert(programs@ =~= old(programs)@ + events_of(slot, next));
            assert(errors@ =~= old(errors)@ + errors_of(slot, next));
            j += 1;
        }
        assert(branch.take(j as int) =~= branch);
        assert(trees.take(i + 1).drop_last() =~= trees.take(i as int));
        assert(trees.take(i + 1).last() == trees[i as int]);
        i += 1;
    }
    assert(trees.take(i as int) =~= trees);
    (programs.len() - before) as u64
}

/// The events that a transaction gives rise to: none unless it could be
/// decoded, ran without error and recorded its inner instructions.
pub open spec fn extracted_events(transaction: TransactionView) -> Seq<ProgramQueue> {
    if !transaction.decoded {
        Seq::empty()
    } else {
        match transaction.meta {
            None => Seq::empty(),
            Some(meta) => if meta.failed {
                Seq::empty()
            } else {
                match meta.inner_instructions {
                    None => Seq::empty(),
                    Some(trees) => events_of(transaction.slot, flatten(trees)),
                }
            },
        }
    }
}

/// What could not be decoded of a transaction: the transaction as a whole,
/// or single instructions of one that ran without error.
pub open spec fn extracted_errors(transaction: TransactionView) -> Seq<DecodeError> {
    if !transaction.decoded {
        seq![DecodeError::UndecodedTransaction]
    } else {
        match transaction.meta {
            None => seq![DecodeError::MissingMeta],
            Some(meta) => if meta.failed {
                Seq::empty()
            } else {
                match meta.inner_instructions {
                    None => Seq::empty(),
                    Some(trees) => errors_of(transaction.slot, flatten(trees)),
                }
            },
        }
    }
}

/// What the decoder made of one or more transactions.
#[derive(Clone, Debug, PartialEq, Eq)]
pub struct Extraction {
    /// The deployment events, in the order in which they were found.
    pub events: Vec<ProgramQueue>,
    /// What was passed over because it could not be decoded.
    pub errors: Vec<DecodeError>,
}

/// Decodes one transaction and appends its events to `programs` and what
/// could not be decoded to `errors`.
pub fn extract_into(
    transaction: &Transaction,
    programs: &mut Vec<ProgramQueue>,
    errors: &mut Vec<DecodeError>,
)
    ensures
        final(programs)@ == old(programs)@ + extracted_events(transaction@),
        final(errors)@ == old(errors)@ + extracted_errors(transaction@),
{
    if !transaction.decoded {
        errors.push(DecodeError::UndecodedTransaction);
        assert(errors@ =~= old(errors)@ + extracted_errors(transaction@));
        assert(programs@ =~= old(programs)@ + extracted_events(transaction@));
        return ;
    }
    match &transaction.meta {
        None => {
            errors.push(DecodeError::MissingMeta);
        },
        Some(meta) => {
            if !meta.failed {
                match &meta.inner_instructions {
                    None => {},
                    Some(trees) => {
                        parse_bpf_upgradable_loader_inner_instructions(
                            transaction.slot,
                            trees,
                            programs,
                            errors,
                        );
                    },
                }
            }
        },
    }
    assert(errors@ =~= old(errors)@ + extracted_errors(transaction@));
    assert(programs@ =~= old(programs)@ + extracted_events(transaction@));
}

/// Decodes one transaction into its deployment events.
pub fn extract(transaction: &Transaction) -> (extraction: Extraction)
    ensures
        extraction.events@ == extracted_events(transaction@),
        extraction.errors@ == extracted_errors(transaction@),
        transaction@.meta matches Some(meta) && meta.failed ==> extraction.events@.len() == 0,
{
    let mut events: Vec<ProgramQueue> = Vec::new();
    let mut errors: Vec<DecodeError> = Vec::new();
    extract_into(transaction, &mut events, &mut errors);
    assert(events@ =~= extracted_events(transaction@));
    assert(errors@ =~= extracted_errors(transaction@));
    Extraction { events, errors }
}

/// The events that announce the programs found at start-up: one per
/// account, in the order of the accounts.
pub open spec fn discovered_events(accounts: Seq<AccountKey>) -> Seq<ProgramQueue> {
    accounts.map_values(|account: AccountKey| ProgramQueue::discovered(account))
}

/// Turns the accounts that the loader owns into the events that announce
/// them.
pub fn discover(accounts: &Vec<AccountKey>) -> (events: Vec<ProgramQueue>)
    ensures
        events@ == discovered_events(accounts@),
{
    let mut events: Vec<ProgramQueue> = Vec::new();
    let mut i: usize = 0;
    while i < accounts.len()
        invariant
            i <= accounts.len(),
            events@ == discovered_events(accounts@.take(i as int)),
        decreases accounts.len() - i,
    {
        events.push(
            ProgramQueue {
                program_account: accounts[i],
                program_data_account: None,
                deploy_slot: None,
                fetch_reason: FetchReason::Create,
            },
        );
        assert(events@ =~= discovered_events(accounts@.take(i + 1)));
        i += 1;
    }
    assert(accounts@.take(i as int) =~= accounts@);
    events
}

/// The newest of the signatures that a lookup returned, which lists the
/// newest first.
pub fn newest_signature(signatures: &Vec<String>) -> (newest: Option<String>)
    ensures
        match newest {
            Some(signature) => signatures@.len() > 0 && signature@ == signatures@[0]@,
            None => signatures@.len() == 0,
        },
{
    if signatures.len() > 0 {
        Some(signatures[0].clone())
    } else {
        None
    }
}

/// Start-up loses and merges nothing: it announces exactly one program per
/// account, in the order of the accounts, each as a `Create` without data
/// account and slot, and different accounts are announced by different
/// events.
pub proof fn lemma_bootstrap_complete(accounts: Seq<AccountKey>)
    ensures
        discovered_events(accounts).len() == accounts.len(),
        forall|i: int|
            0 <= i < accounts.len() ==> {
                let event = #[trigger] discovered_events(accounts)[i];
                &&& event.program_account == accounts[i]
                &&& event.program_data_account.is_none()
                &&& event.deploy_slot.is_none()
                &&& event.fetch_reason == FetchReason::Create
                &&& event.well_formed()
            },
        forall|i: int, j: int|
            0 <= i < accounts.len() && 0 <= j < accounts.len() && accounts[i] != accounts[j]
                ==> discovered_events(accounts)[i] != discovered_events(accounts)[j],
{
}

/// Replaying start-up over an unchanged set of accounts announces the same
/// set of programs, in whatever order and how often the accounts are
/// listed.
pub proof fn lemma_bootstrap_replay(first: Seq<AccountKey>, second: Seq<AccountKey>)
    requires
        first.to_set() == second.to_set(),
    ensures
        discovered_events(first).to_set() == discovered_events(second).to_set(),
{
    let a = discovered_events(first);
    let b = discovered_events(second);
    assert forall|event: ProgramQueue| a.to_set().contains(event) implies b.to_set().contains(
        event,
    ) by {
        let i = choose|i: int| 0 <= i < a.len() && a[i] == event;
        assert(first.to_set().contains(first[i]));
        assert(second.contains(first[i]));
        let j = choose|j: int| 0 <= j < second.len() && second[j] == first[i];
        assert(b[j] == event);
    }
    assert forall|event: ProgramQueue| b.to_set().contains(event) implies a.to_set().contains(
        event,
    ) by {
        let i = choose|i: int| 0 <= i < b.len() && b[i] == event;
        assert(second.to_set().contains(second[i]));
        assert(first.contains(second[i]));
        let j = choose|j: int| 0 <= j < first.len() && first[j] == second[i];
        assert(a[j] == event);
    }
    assert(a.to_set() =~= b.to_set());
}

/// Extraction is a function of what the transaction holds: two
/// transactions that hold the same give the same events and the same
/// errors, in the same order.
pub proof fn lemma_extraction_deterministic(first: Transaction, second: Transaction)
    requires
        first@ == second@,
    ensures
        extracted_events(first@) == extracted_events(second@),
        extracted_errors(first@) == extracted_errors(second@),
{
}

/// A transaction whose execution reported an error gives no events and no
/// decode errors, whatever its instructions look like.
pub proof fn lemma_failed_transaction_is_skipped(transaction: TransactionView)
    requires
        transaction.meta matches Some(meta) && meta.failed,
    ensures
        extracted_events(transaction) == Seq::<ProgramQueue>::empty(),
        transaction.decoded ==> extracted_errors(transaction) == Seq::<DecodeError>::empty(),
{
}

/// Whether `instruction` addresses the upgradeable loader, declares the
/// type `kind` and names both accounts in its info.
pub open spec fn names_accounts(
    instruction: ParsedInstructionView,
    kind: Seq<char>,
    program_account: AccountKey,
    program_data_account: AccountKey,
) -> bool {
    &&& pubkey_from_str(instruction.program_id) == Some(BPF_LOADER@)
    &&& text_field(Some(instruction.parsed), INSTRUCTION_TYPE@, Field::InstructionType) == Ok::<
        Seq<char>,
        DecodeError,
    >(kind)
    &&& key_field(instruction.parsed.get(INFO@), PROGRAM_ACCOUNT@, Field::ProgramAccount) == Ok::<
        AccountKey,
        DecodeError,
    >(program_account)
    &&& key_field(
        instruction.parsed.get(INFO@),
        PROGRAM_DATA_ACCOUNT@,
        Field::ProgramDataAccount,
    ) == Ok::<AccountKey, DecodeError>(program_data_account)
}

/// A loader instruction of type `deployWithMaxDataLen` whose info names
/// both accounts becomes a `Create` that carries exactly those accounts and
/// the slot of the transaction.
pub proof fn lemma_deploy_is_create(
    slot: u64,
    instruction: ParsedInstructionView,
    program_account: AccountKey,
    program_data_account: AccountKey,
)
    ensures
        names_accounts(
            instruction,
            DEPLOY_WITH_MAX_DATA_LEN@,
            program_account,
            program_data_account,
        ) ==> decode_instruction(slot, instruction) == Decoded::Event(
            ProgramQueue {
                program_account,
                program_data_account: Some(program_data_account),
                deploy_slot: Some(slot),
                fetch_reason: FetchReason::Create,
            },
        ),
{
}

/// A loader instruction of type `upgrade` whose info names both accounts
/// becomes an `Update` that carries exactly those accounts and the slot of
/// the transaction.
pub proof fn lemma_upgrade_is_update(
    slot: u64,
    instruction: ParsedInstructionView,
    program_account: AccountKey,
    program_data_account: AccountKey,
)
    ensures
        names_accounts(instruction, UPGRADE@, program_account, program_data_account)
            ==> decode_instruction(slot, instruction) == Decoded::Event(
            ProgramQueue {
                program_account,
                program_data_account: Some(program_data_account),
                deploy_slot: Some(slot),
                fetch_reason: FetchReason::Update,
            },
        ),
{
    reveal_strlit("upgrade");
    reveal_strlit("deployWithMaxDataLen");
    assert(UPGRADE@.len() != DEPLOY_WITH_MAX_DATA_LEN@.len());
}

/// A loader instruction of any other type gives no event and no error,
/// whatever its info holds.
pub proof fn lemma_other_kind_is_ignored(
    slot: u64,
    instruction: ParsedInstructionView,
    kind: Seq<char>,
)
    ensures
        pubkey_from_str(instruction.program_id) == Some(BPF_LOADER@) && text_field(
            Some(instruction.parsed),
            INSTRUCTION_TYPE@,
            Field::InstructionType,
        ) == Ok::<Seq<char>, DecodeError>(kind) && kind != DEPLOY_WITH_MAX_DATA_LEN@ && kind
            != UPGRADE@ ==> decode_instruction(slot, instruction) == Decoded::Ignored,
{
}

/// An instruction that addresses another program than the upgradeable
/// loader gives no event and no error, whatever its payload holds.
pub proof fn lemma_other_program_is_ignored(
    slot: u64,
    instruction: ParsedInstructionView,
    program_id: Seq<u8>,
)
    ensures
        pubkey_from_str(instruction.program_id) == Some(program_id) && program_id != BPF_LOADER@
            ==> decode_instruction(slot, instruction) == Decoded::Ignored,
{
}

/// Every event that the decoder produces comes from a loader instruction
/// of one of the two handled types, carries the slot it was given and both
/// accounts, and is never a `Close`.
pub proof fn lemma_event_shape(slot: u64, instruction: ParsedInstructionView)
    ensures
        decode_instruction(slot, instruction) matches Decoded::Event(event) ==> {
            &&& pubkey_from_str(instruction.program_id) == Some(BPF_LOADER@)
            &&& event.deploy_slot == Some(slot)
            &&& event.program_data_account.is_some()
            &&& event.fetch_reason != FetchReason::Close
            &&& event.well_formed()
            &&& key_field(
                instruction.parsed.get(INFO@),
                PROGRAM_ACCOUNT@,
                Field::ProgramAccount,
            ) == Ok::<AccountKey, DecodeError>(event.program_account)
            &&& key_field(
                instruction.parsed.get(INFO@),
                PROGRAM_DATA_ACCOUNT@,
                Field::ProgramDataAccount,
            ) == Ok::<AccountKey, DecodeError>(event.program_data_account.unwrap())
        },
{
}

/// The events of two runs of instructions, one after the other, are the
/// events of the first followed by those of the second; likewise the
/// errors. So events keep the order in which their instructions stand.
pub proof fn lemma_events_of_concat(
    slot: u64,
    first: Seq<InstructionView>,
    second: Seq<InstructionView>,
)
    ensures
        events_of(slot, first + second) == events_of(slot, first) + events_of(slot, second),
        errors_of(slot, first + second) == errors_of(slot, first) + errors_of(slot, second),
    decreases second.len(),
{
    if second.len() == 0 {
        assert(first + second =~= first);
        assert(events_of(slot, first) + events_of(slot, second) =~= events_of(slot, first));
        assert(errors_of(slot, first) + errors_of(slot, second) =~= errors_of(slot, first));
    } else {
        lemma_events_of_concat(slot, first, second.drop_last());
        assert((first + second).drop_last() =~= first + second.drop_last());
        assert((first + second).last() == second.last());
        assert(events_of(slot, first + second) =~= events_of(slot, first) + events_of(
            slot,
            second,
        ));
        assert(errors_of(slot, first + second) =~= errors_of(slot, first) + errors_of(
            slot,
            second,
        ));
    }
}

/// Every event of a run of instructions carries the slot that the run was
/// decoded for and a data account, and none is a `Close`.
pub proof fn lemma_events_carry_slot(slot: u64, instructions: Seq<InstructionView>)
    ensures
        forall|i: int|
            0 <= i < events_of(slot, instructions).len() ==> {
                let event = #[trigger] events_of(slot, instructions)[i];
                &&& event.deploy_slot == Some(slot)
                &&& event.program_data_account.is_some()
                &&& event.fetch_reason != FetchReason::Close
                &&& event.well_formed()
            },
        events_of(slot, instructions).len() + errors_of(slot, instructions).len()
            <= instructions.len(),
    decreases instructions.len(),
{
    if instructions.len() > 0 {
        lemma_events_carry_slot(slot, instructions.drop_last());
        match instructions.last() {
            InstructionView::Parsed(parsed) => lemma_event_shape(slot, parsed),
            InstructionView::Raw => {},
        }
    }
}

/// Every event of a transaction carries the slot of that transaction and a
/// data account, and none is a `Close`.
pub proof fn lemma_extracted_events_carry_slot(transaction: TransactionView)
    ensures
        forall|i: int|
            0 <= i < extracted_events(transaction).len() ==> {
                let event = #[trigger] extracted_events(transaction)[i];
                &&& event.deploy_slot == Some(transaction.slot)
                &&& event.program_data_account.is_some()
                &&& event.fetch_reason != FetchReason::Close
                &&& event.well_formed()
            },
{
    if transaction.decoded {
        if let Some(meta) = transaction.meta {
            if !meta.failed {
                if let Some(trees) = meta.inner_instructions {
                    lemma_events_carry_slot(transaction.slot, flatten(trees));
                }
            }
        }
    }
}

} // verus!
