use pgm_monit::consts::BPF_LOADER;
use pgm_monit::errors::{DecodeError, Field};
use pgm_monit::fetcher::{
    decode, deployment_event, discover, extract, extract_into, key_member, newest_signature,
    parse_bpf_loader_compiled_instruction, parse_bpf_upgradable_loader_inner_instructions,
    text_member, Decoded, InstructionKind,
};
use pgm_monit::models::program_queue_model::{FetchReason, ProgramQueue};
use pgm_monit::models::transaction_model::{
    InnerInstructions, Instruction, Json, Member, ParsedInstruction, Transaction, TransactionMeta,
};
use pgm_monit::pubkey::AccountKey;

const LOADER: &str = "BPFLoaderUpgradeab1e11111111111111111111111";
const TOKEN: &str = "TokenkegQfeZyiNwAJbNbGKPFXCWuBvf9Ss623VQ5DA";
const VOTE: &str = "Vote111111111111111111111111111111111111111";
const STAKE: &str = "Stake11111111111111111111111111111111111111";
const RENT: &str = "SysvarRent111111111111111111111111111111111";
const CLOCK: &str = "SysvarC1ock11111111111111111111111111111111";

const VOTE_BYTES: [u8; 32] = [
    7, 97, 72, 29, 53, 116, 116, 187, 124, 77, 118, 36, 235, 211, 189, 179, 216, 53, 94, 115, 209,
    16, 67, 252, 13, 163, 83, 128, 0, 0, 0, 0,
];
const STAKE_BYTES: [u8; 32] = [
    6, 161, 216, 23, 145, 55, 84, 42, 152, 52, 55, 189, 254, 42, 122, 178, 85, 127, 83, 92, 138,
    120, 114, 43, 104, 164, 157, 192, 0, 0, 0, 0,
];
const RENT_BYTES: [u8; 32] = [
    6, 167, 213, 23, 25, 44, 92, 81, 33, 140, 201, 76, 61, 74, 241, 127, 88, 218, 238, 8, 155,
    161, 253, 68, 227, 219, 217, 138, 0, 0, 0, 0,
];
const CLOCK_BYTES: [u8; 32] = [
    6, 167, 213, 23, 24, 199, 116, 201, 40, 86, 99, 152, 105, 29, 94, 182, 139, 94, 184, 163, 155,
    75, 109, 92, 115, 85, 91, 33, 0, 0, 0, 0,
];

fn text(value: &str) -> Json {
    Json::Text(value.to_string())
}

fn member(key: &str, value: Json) -> Member {
    Member { key: key.to_string(), value }
}

fn accounts(program: &str, data: &str) -> Json {
    Json::Object(vec![
        member("programDataAccount", text(data)),
        member("programAccount", text(program)),
        member("bufferAccount", text(RENT)),
        member("maxDataLen", Json::Other),
    ])
}

fn payload(kind: &str, program: &str, data: &str) -> Json {
    Json::Object(vec![member("info", accounts(program, data)), member("instruction_type", text(kind))])
}

fn instruction(program_id: &str, parsed: Json) -> ParsedInstruction {
    ParsedInstruction {
        program: "bpf-upgradeable-loader".to_string(),
        program_id: program_id.to_string(),
        parsed,
    }
}

fn loader_instruction(kind: &str, program: &str, data: &str) -> ParsedInstruction {
    instruction(LOADER, payload(kind, program, data))
}

fn event(program: [u8; 32], data: [u8; 32], slot: u64, reason: FetchReason) -> ProgramQueue {
    ProgramQueue {
        program_account: AccountKey::new(program),
        program_data_account: Some(AccountKey::new(data)),
        deploy_slot: Some(slot),
        fetch_reason: reason,
    }
}

fn tree(index: u8, instructions: Vec<Instruction>) -> InnerInstructions {
    InnerInstructions { index, instructions }
}

fn transaction(slot: u64, failed: bool, trees: Vec<InnerInstructions>) -> Transaction {
    Transaction {
        slot,
        decoded: true,
        meta: Some(TransactionMeta { failed, inner_instructions: Some(trees) }),
    }
}

#[test]
fn deploy_becomes_create_with_both_accounts_and_the_slot() {
    let decoded = decode(42, &loader_instruction("deployWithMaxDataLen", VOTE, STAKE));
    assert_eq!(decoded, Decoded::Event(event(VOTE_BYTES, STAKE_BYTES, 42, FetchReason::Create)));
}

#[test]
fn upgrade_becomes_update_with_both_accounts_and_the_slot() {
    let decoded = decode(u64::MAX, &loader_instruction("upgrade", RENT, CLOCK));
    assert_eq!(
        decoded,
        Decoded::Event(event(RENT_BYTES, CLOCK_BYTES, u64::MAX, FetchReason::Update))
    );
}

#[test]
fn accounts_are_taken_by_name_not_by_position() {
    let parsed = Json::Object(vec![
        member("instruction_type", text("upgrade")),
        member(
            "info",
            Json::Object(vec![
                member("programAccount", text(VOTE)),
                member("programDataAccount", text(STAKE)),
            ]),
        ),
    ]);
    let decoded = decode(7, &instruction(LOADER, parsed));
    assert_eq!(decoded, Decoded::Event(event(VOTE_BYTES, STAKE_BYTES, 7, FetchReason::Update)));
}

#[test]
fn authority_change_gives_no_event() {
    assert_eq!(decode(1, &loader_instruction("setAuthority", VOTE, STAKE)), Decoded::Ignored);
}

#[test]
fn close_and_other_kinds_give_no_event() {
    for kind in ["close", "write", "initializeBuffer", "extendProgram", "finalize", "", "Upgrade"] {
        assert_eq!(decode(1, &loader_instruction(kind, VOTE, STAKE)), Decoded::Ignored);
    }
}

#[test]
fn unhandled_kind_is_ignored_whatever_its_accounts() {
    let parsed = Json::Object(vec![member("instruction_type", text("close"))]);
    assert_eq!(decode(1, &instruction(LOADER, parsed)), Decoded::Ignored);
}

#[test]
fn instruction_of_another_program_is_ignored() {
    let other = instruction(TOKEN, payload("upgrade", VOTE, STAKE));
    assert_eq!(decode(1, &other), Decoded::Ignored);
    let empty = instruction(STAKE, Json::Other);
    assert_eq!(decode(1, &empty), Decoded::Ignored);
}

#[test]
fn program_id_that_is_no_key_is_a_decode_error() {
    for bad in ["", "not a key", "0", "BPFLoaderUpgradeab1e1111111111111111111111", "1"] {
        let decoded = decode(1, &instruction(bad, payload("upgrade", VOTE, STAKE)));
        assert_eq!(decoded, Decoded::Malformed(DecodeError::InvalidKey(Field::ProgramId)));
    }
}

#[test]
fn missing_instruction_type_is_a_decode_error() {
    let parsed = Json::Object(vec![member("info", accounts(VOTE, STAKE))]);
    assert_eq!(
        decode(1, &instruction(LOADER, parsed)),
        Decoded::Malformed(DecodeError::MissingField(Field::InstructionType))
    );
    assert_eq!(
        decode(1, &instruction(LOADER, Json::Other)),
        Decoded::Malformed(DecodeError::MissingField(Field::InstructionType))
    );
    assert_eq!(
        decode(1, &instruction(LOADER, text("upgrade"))),
        Decoded::Malformed(DecodeError::MissingField(Field::InstructionType))
    );
}

#[test]
fn instruction_type_under_another_name_is_missing() {
    let parsed =
        Json::Object(vec![member("type", text("upgrade")), member("info", accounts(VOTE, STAKE))]);
    assert_eq!(
        decode(1, &instruction(LOADER, parsed)),
        Decoded::Malformed(DecodeError::MissingField(Field::InstructionType))
    );
}

#[test]
fn mistyped_instruction_type_is_a_decode_error() {
    let parsed = Json::Object(vec![
        member("instruction_type", Json::Other),
        member("info", accounts(VOTE, STAKE)),
    ]);
    assert_eq!(
        decode(1, &instruction(LOADER, parsed)),
        Decoded::Malformed(DecodeError::MistypedField(Field::InstructionType))
    );
    let nested = Json::Object(vec![member("instruction_type", Json::Object(vec![]))]);
    assert_eq!(
        decode(1, &instruction(LOADER, nested)),
        Decoded::Malformed(DecodeError::MistypedField(Field::InstructionType))
    );
}

#[test]
fn missing_info_or_program_account_is_a_decode_error() {
    let no_info = Json::Object(vec![member("instruction_type", text("upgrade"))]);
    assert_eq!(
        decode(1, &instruction(LOADER, no_info)),
        Decoded::Malformed(DecodeError::MissingField(Field::ProgramAccount))
    );
    let info_is_text = Json::Object(vec![
        member("instruction_type", text("deployWithMaxDataLen")),
        member("info", text(VOTE)),
    ]);
    assert_eq!(
        decode(1, &instruction(LOADER, info_is_text)),
        Decoded::Malformed(DecodeError::MissingField(Field::ProgramAccount))
    );
    let no_program = Json::Object(vec![
        member("instruction_type", text("upgrade")),
        member("info", Json::Object(vec![member("programDataAccount", text(STAKE))])),
    ]);
    assert_eq!(
        decode(1, &instruction(LOADER, no_program)),
        Decoded::Malformed(DecodeError::MissingField(Field::ProgramAccount))
    );
}

#[test]
fn mistyped_or_invalid_program_account_is_a_decode_error() {
    let mistyped = Json::Object(vec![
        member("instruction_type", text("upgrade")),
        member(
            "info",
            Json::Object(vec![
                member("programAccount", Json::Other),
                member("programDataAccount", text(STAKE)),
            ]),
        ),
    ]);
    assert_eq!(
        decode(1, &instruction(LOADER, mistyped)),
        Decoded::Malformed(DecodeError::MistypedField(Field::ProgramAccount))
    );
    assert_eq!(
        decode(1, &loader_instruction("upgrade", "l0l", STAKE)),
        Decoded::Malformed(DecodeError::InvalidKey(Field::ProgramAccount))
    );
}

#[test]
fn missing_mistyped_or_invalid_data_account_is_a_decode_error() {
    let missing = Json::Object(vec![
        member("instruction_type", text("deployWithMaxDataLen")),
        member("info", Json::Object(vec![member("programAccount", text(VOTE))])),
    ]);
    assert_eq!(
        decode(1, &instruction(LOADER, missing)),
        Decoded::Malformed(DecodeError::MissingField(Field::ProgramDataAccount))
    );
    let mistyped = Json::Object(vec![
        member("instruction_type", text("deployWithMaxDataLen")),
        member(
            "info",
            Json::Object(vec![
                member("programAccount", text(VOTE)),
                member("programDataAccount", Json::Object(vec![])),
            ]),
        ),
    ]);
    assert_eq!(
        decode(1, &instruction(LOADER, mistyped)),
        Decoded::Malformed(DecodeError::MistypedField(Field::ProgramDataAccount))
    );
    assert_eq!(
        decode(1, &loader_instruction("deployWithMaxDataLen", VOTE, "")),
        Decoded::Malformed(DecodeError::InvalidKey(Field::ProgramDataAccount))
    );
}

#[test]
fn program_account_is_checked_before_data_account() {
    assert_eq!(
        decode(1, &loader_instruction("upgrade", "?", "?")),
        Decoded::Malformed(DecodeError::InvalidKey(Field::ProgramAccount))
    );
}

#[test]
fn compiled_instruction_appends_one_event_and_counts_it() {
    let before = event(RENT_BYTES, CLOCK_BYTES, 1, FetchReason::Create);
    let mut programs = vec![before];
    let added = parse_bpf_loader_compiled_instruction(
        9,
        &loader_instruction("upgrade", VOTE, STAKE),
        &mut programs,
    );
    assert_eq!(added, Ok(1));
    assert_eq!(programs, vec![before, event(VOTE_BYTES, STAKE_BYTES, 9, FetchReason::Update)]);
}

#[test]
fn compiled_instruction_leaves_programs_alone_when_nothing_is_found() {
    let before = event(RENT_BYTES, CLOCK_BYTES, 1, FetchReason::Create);
    let mut programs = vec![before];
    let ignored = parse_bpf_loader_compiled_instruction(
        9,
        &loader_instruction("setAuthority", VOTE, STAKE),
        &mut programs,
    );
    assert_eq!(ignored, Ok(0));
    let malformed = parse_bpf_loader_compiled_instruction(
        9,
        &loader_instruction("upgrade", VOTE, "x"),
        &mut programs,
    );
    assert_eq!(malformed, Err(DecodeError::InvalidKey(Field::ProgramDataAccount)));
    assert_eq!(programs, vec![before]);
}

#[test]
fn inner_instructions_keep_the_order_of_discovery() {
    let trees = vec![
        tree(
            0,
            vec![
                Instruction::Parsed(loader_instruction("upgrade", VOTE, STAKE)),
                Instruction::Raw,
                Instruction::Parsed(loader_instruction("setAuthority", VOTE, STAKE)),
            ],
        ),
        tree(1, vec![]),
        tree(
            3,
            vec![
                Instruction::Parsed(instruction(TOKEN, payload("upgrade", RENT, CLOCK))),
                Instruction::Parsed(loader_instruction("deployWithMaxDataLen", RENT, CLOCK)),
                Instruction::Parsed(loader_instruction("upgrade", STAKE, VOTE)),
            ],
        ),
    ];
    let first = event(CLOCK_BYTES, RENT_BYTES, 5, FetchReason::Update);
    let mut programs = vec![first];
    let mut errors = Vec::new();
    let added = parse_bpf_upgradable_loader_inner_instructions(77, &trees, &mut programs, &mut errors);
    assert_eq!(added, 3);
    assert_eq!(
        programs,
        vec![
            first,
            event(VOTE_BYTES, STAKE_BYTES, 77, FetchReason::Update),
            event(RENT_BYTES, CLOCK_BYTES, 77, FetchReason::Create),
            event(STAKE_BYTES, VOTE_BYTES, 77, FetchReason::Update),
        ]
    );
    assert!(errors.is_empty());
}

#[test]
fn malformed_instruction_is_skipped_and_reported_and_the_rest_goes_on() {
    let trees = vec![tree(
        0,
        vec![
            Instruction::Parsed(loader_instruction("upgrade", "oops", STAKE)),
            Instruction::Parsed(loader_instruction("upgrade", VOTE, STAKE)),
            Instruction::Parsed(instruction("", Json::Other)),
            Instruction::Parsed(loader_instruction("deployWithMaxDataLen", RENT, CLOCK)),
        ],
    )];
    let mut programs = Vec::new();
    let mut errors = vec![DecodeError::MissingMeta];
    let added = parse_bpf_upgradable_loader_inner_instructions(8, &trees, &mut programs, &mut errors);
    assert_eq!(added, 2);
    assert_eq!(
        programs,
        vec![
            event(VOTE_BYTES, STAKE_BYTES, 8, FetchReason::Update),
            event(RENT_BYTES, CLOCK_BYTES, 8, FetchReason::Create),
        ]
    );
    assert_eq!(
        errors,
        vec![
            DecodeError::MissingMeta,
            DecodeError::InvalidKey(Field::ProgramAccount),
            DecodeError::InvalidKey(Field::ProgramId),
        ]
    );
}

#[test]
fn no_trees_give_nothing() {
    let mut programs = Vec::new();
    let mut errors = Vec::new();
    let added = parse_bpf_upgradable_loader_inner_instructions(8, &vec![], &mut programs, &mut errors);
    assert_eq!(added, 0);
    assert!(programs.is_empty());
    assert!(errors.is_empty());
}

#[test]
fn failed_transaction_yields_no_events() {
    for kind in ["deployWithMaxDataLen", "upgrade"] {
        let failed = transaction(
            3,
            true,
            vec![tree(0, vec![Instruction::Parsed(loader_instruction(kind, VOTE, STAKE))])],
        );
        let extraction = extract(&failed);
        assert!(extraction.events.is_empty());
        assert!(extraction.errors.is_empty());
    }
    let failed_and_malformed = transaction(
        3,
        true,
        vec![tree(0, vec![Instruction::Parsed(loader_instruction("upgrade", "x", "y"))])],
    );
    let extraction = extract(&failed_and_malformed);
    assert!(extraction.events.is_empty());
    assert!(extraction.errors.is_empty());
}

#[test]
fn successful_transaction_yields_its_events_at_its_slot() {
    let upgraded = transaction(
        123_456,
        false,
        vec![
            tree(0, vec![Instruction::Parsed(loader_instruction("deployWithMaxDataLen", VOTE, STAKE))]),
            tree(2, vec![Instruction::Parsed(loader_instruction("upgrade", RENT, CLOCK))]),
        ],
    );
    let extraction = extract(&upgraded);
    assert_eq!(
        extraction.events,
        vec![
            event(VOTE_BYTES, STAKE_BYTES, 123_456, FetchReason::Create),
            event(RENT_BYTES, CLOCK_BYTES, 123_456, FetchReason::Update),
        ]
    );
    assert!(extraction.errors.is_empty());
}

#[test]
fn extraction_of_the_same_transaction_is_the_same() {
    let build = || {
        transaction(
            55,
            false,
            vec![tree(
                0,
                vec![
                    Instruction::Parsed(loader_instruction("upgrade", VOTE, STAKE)),
                    Instruction::Parsed(loader_instruction("upgrade", VOTE, "bad")),
                    Instruction::Parsed(loader_instruction("deployWithMaxDataLen", RENT, CLOCK)),
                ],
            )],
        )
    };
    let once = extract(&build());
    let twice = extract(&build());
    assert_eq!(once, twice);
    assert_eq!(once.events.len(), 2);
    assert_eq!(once.errors, vec![DecodeError::InvalidKey(Field::ProgramDataAccount)]);
    let again = extract(&build());
    assert_eq!(once, again);
}

#[test]
fn transaction_without_inner_instructions_yields_nothing() {
    let bare = Transaction {
        slot: 1,
        decoded: true,
        meta: Some(TransactionMeta { failed: false, inner_instructions: None }),
    };
    let extraction = extract(&bare);
    assert!(extraction.events.is_empty());
    assert!(extraction.errors.is_empty());
    let empty = extract(&transaction(1, false, vec![]));
    assert!(empty.events.is_empty());
    assert!(empty.errors.is_empty());
}

#[test]
fn transaction_without_metadata_is_reported() {
    let bare = Transaction { slot: 1, decoded: true, meta: None };
    let extraction = extract(&bare);
    assert!(extraction.events.is_empty());
    assert_eq!(extraction.errors, vec![DecodeError::MissingMeta]);
}

#[test]
fn undecoded_transaction_is_reported() {
    let mut opaque = transaction(
        1,
        false,
        vec![tree(0, vec![Instruction::Parsed(loader_instruction("upgrade", VOTE, STAKE))])],
    );
    opaque.decoded = false;
    let extraction = extract(&opaque);
    assert!(extraction.events.is_empty());
    assert_eq!(extraction.errors, vec![DecodeError::UndecodedTransaction]);
}

#[test]
fn extract_into_appends_to_what_is_there() {
    let first = event(CLOCK_BYTES, RENT_BYTES, 5, FetchReason::Update);
    let mut programs = vec![first];
    let mut errors = vec![DecodeError::UndecodedTransaction];
    let upgraded = transaction(
        6,
        false,
        vec![tree(
            0,
            vec![
                Instruction::Parsed(loader_instruction("upgrade", VOTE, STAKE)),
                Instruction::Parsed(instruction(LOADER, Json::Other)),
            ],
        )],
    );
    extract_into(&upgraded, &mut programs, &mut errors);
    assert_eq!(programs, vec![first, event(VOTE_BYTES, STAKE_BYTES, 6, FetchReason::Update)]);
    assert_eq!(
        errors,
        vec![
            DecodeError::UndecodedTransaction,
            DecodeError::MissingField(Field::InstructionType),
        ]
    );
}

#[test]
fn kinds_are_told_apart_by_their_exact_name() {
    assert_eq!(
        InstructionKind::from_text(&"deployWithMaxDataLen".to_string()),
        InstructionKind::DeployWithMaxDataLen
    );
    assert_eq!(InstructionKind::from_text(&"upgrade".to_string()), InstructionKind::Upgrade);
    assert_eq!(InstructionKind::from_text(&"upgrade ".to_string()), InstructionKind::Unhandled);
    assert_eq!(InstructionKind::from_text(&"close".to_string()), InstructionKind::Unhandled);
    assert_eq!(InstructionKind::from_text(&String::new()), InstructionKind::Unhandled);
}

#[test]
fn deployment_event_for_each_kind() {
    let program = AccountKey::new(VOTE_BYTES);
    let data = AccountKey::new(STAKE_BYTES);
    assert_eq!(
        deployment_event(InstructionKind::DeployWithMaxDataLen, 0, program, data),
        Decoded::Event(event(VOTE_BYTES, STAKE_BYTES, 0, FetchReason::Create))
    );
    assert_eq!(
        deployment_event(InstructionKind::Upgrade, 17, program, data),
        Decoded::Event(event(VOTE_BYTES, STAKE_BYTES, 17, FetchReason::Update))
    );
    assert_eq!(deployment_event(InstructionKind::Unhandled, 17, program, data), Decoded::Ignored);
}

#[test]
fn first_member_of_a_name_wins() {
    let object = Json::Object(vec![
        member("a", text("first")),
        member("b", Json::Other),
        member("a", text("second")),
    ]);
    assert_eq!(object.get("a"), Some(&text("first")));
    assert_eq!(object.get("b"), Some(&Json::Other));
    assert_eq!(object.get("c"), None);
    assert_eq!(object.get(""), None);
    assert_eq!(text("a").get("a"), None);
    assert_eq!(Json::Other.get("a"), None);
    assert_eq!(Json::Object(vec![]).get("a"), None);
}

#[test]
fn only_text_has_text() {
    assert_eq!(text("abc").as_str(), Some(&"abc".to_string()));
    assert_eq!(Json::Other.as_str(), None);
    assert_eq!(Json::Object(vec![member("a", text("b"))]).as_str(), None);
}

#[test]
fn text_member_tells_missing_from_mistyped() {
    let object = Json::Object(vec![member("a", text("x")), member("b", Json::Other)]);
    assert_eq!(text_member(Some(&object), "a", Field::ProgramAccount), Ok(&"x".to_string()));
    assert_eq!(
        text_member(Some(&object), "b", Field::ProgramAccount),
        Err(DecodeError::MistypedField(Field::ProgramAccount))
    );
    assert_eq!(
        text_member(Some(&object), "c", Field::ProgramDataAccount),
        Err(DecodeError::MissingField(Field::ProgramDataAccount))
    );
    assert_eq!(
        text_member(None, "a", Field::InstructionType),
        Err(DecodeError::MissingField(Field::InstructionType))
    );
}

#[test]
fn key_member_decodes_the_text_of_a_member() {
    let object = Json::Object(vec![member("a", text(VOTE)), member("b", text("nope"))]);
    assert_eq!(key_member(Some(&object), "a", Field::ProgramAccount), Ok(AccountKey::new(VOTE_BYTES)));
    assert_eq!(
        key_member(Some(&object), "b", Field::ProgramAccount),
        Err(DecodeError::InvalidKey(Field::ProgramAccount))
    );
    assert_eq!(
        key_member(Some(&object), "z", Field::ProgramAccount),
        Err(DecodeError::MissingField(Field::ProgramAccount))
    );
}

#[test]
fn newest_signature_is_the_first() {
    assert_eq!(newest_signature(&vec![]), None);
    assert_eq!(newest_signature(&vec!["s3".to_string()]), Some("s3".to_string()));
    assert_eq!(
        newest_signature(&vec!["s3".to_string(), "s2".to_string(), "s1".to_string()]),
        Some("s3".to_string())
    );
}

#[test]
fn bootstrap_makes_one_create_per_account_and_replays_the_same() {
    let found = vec![
        AccountKey::new(VOTE_BYTES),
        AccountKey::new(STAKE_BYTES),
        AccountKey::new(VOTE_BYTES),
    ];
    let events = discover(&found);
    assert_eq!(events.len(), 3);
    for (account, event) in found.iter().zip(events.iter()) {
        assert_eq!(
            *event,
            ProgramQueue {
                program_account: *account,
                program_data_account: None,
                deploy_slot: None,
                fetch_reason: FetchReason::Create,
            }
        );
    }
    assert_eq!(discover(&found), events);
    assert!(discover(&vec![]).is_empty());
}

#[test]
fn loader_key_is_the_upgradeable_loader() {
    assert_eq!(AccountKey::parse(LOADER), Some(AccountKey::new(BPF_LOADER)));
    assert_eq!(solana_program::bpf_loader_upgradeable::id().to_bytes(), BPF_LOADER);
    assert_ne!(solana_program::bpf_loader::id().to_bytes(), BPF_LOADER);
}
