//! A confirmed transaction as the decoder sees it: the slot, whether it
//! succeeded, and the trees of inner instructions with their payloads.

use vstd::prelude::*;

verus! {

/// The payload of a parsed instruction: a tree of named members whose
/// leaves hold text. Whatever else a payload may hold (numbers, lists,
/// nothing) is of no interest to the decoder and stands as `Other`.
#[derive(Debug, PartialEq, Eq)]
pub enum Json {
    Text(String),
    Object(Vec<Member>),
    Other,
}

/// One named member of an object.
#[derive(Debug, PartialEq, Eq)]
pub struct Member {
    pub key: String,
    pub value: Json,
}

/// What a payload holds, as mathematical values.
pub enum JsonView {
    Text(Seq<char>),
    Object(Seq<MemberView>),
    Other,
}

/// What a member holds.
pub struct MemberView {
    pub key: Seq<char>,
    pub value: JsonView,
}

impl View for Json {
    type V = JsonView;

    open spec fn view(&self) -> JsonView
        decreases self,
    {
        match self {
            Json::Text(text) => JsonView::Text(text@),
            Json::Object(members) => JsonView::Object(
                Seq::new(
                    members@.len(),
                    |i: int|
                        if 0 <= i < members@.len() {
                            MemberView { key: members@[i].key@, value: members@[i].value@ }
                        } else {
                            MemberView { key: Seq::empty(), value: JsonView::Other }
                        },
                ),
            ),
            Json::Other => JsonView::Other,
        }
    }
}

/// The value of the first of `members` that is named `key`.
pub open spec fn find_member(members: Seq<MemberView>, key: Seq<char>) -> Option<JsonView>
    decreases members.len(),
{
    if members.len() == 0 {
        None
    } else if members[0].key == key {
        Some(members[0].value)
    } else {
        find_member(members.drop_first(), key)
    }
}

impl JsonView {
    /// The member named `key`: there is none unless this is an object that
    /// has a member of that name.
    pub open spec fn get(self, key: Seq<char>) -> Option<JsonView> {
        match self {
            JsonView::Object(members) => find_member(members, key),
            _ => None,
        }
    }

    /// The text that this value holds, if it is text.
    pub open spec fn text(self) -> Option<Seq<char>> {
        match self {
            JsonView::Text(text) => Some(text),
            _ => None,
        }
    }
}

impl Json {
    /// Looks up a member of an object by its name.
    pub fn get(&self, key: &str) -> (found: Option<&Json>)
        ensures
            match found {
                Some(value) => self@.get(key@) == Some(value@),
                None => self@.get(key@).is_none(),
            },
    {
        match self {
            Json::Object(members) => {
                let wanted = key.to_owned();
                let ghost all = self@->Object_0;
                let mut i: usize = 0;
                assert(all.skip(0) =~= all);
                while i < members.len()
                    invariant
                        i <= members.len(),
                        wanted@ == key@,
                        self@.get(key@) == find_member(all, key@),
                        all.len() == members@.len(),
                        forall|j: int| 0 <= j < members@.len() ==> all[j] == (MemberView {
                            key: (#[trigger] members@[j]).key@,
                            value: members@[j].value@,
                        }),
                        find_member(all, key@) == find_member(all.skip(i as int), key@),
                    decreases members.len() - i,
                {
                    assert(all.skip(i as int)[0] == all[i as int]);
                    if members[i].key == wanted {
                        return Some(&members[i].value);
                    }
                    assert(all.skip(i as int).drop_first() =~= all.skip(i + 1));
                    i += 1;
                }
                None
            },
            _ => None,
        }
    }

    /// The text of a value that holds text.
    pub fn as_str(&self) -> (text: Option<&String>)
        ensures
            match text {
                Some(t) => self@.text() == Some(t@),
                None => self@.text().is_none(),
            },
    {
        match self {
            Json::Text(text) => Some(text),
            _ => None,
        }
    }
}

/// An instruction whose payload was decoded into named members.
#[derive(Debug, PartialEq, Eq)]
pub struct ParsedInstruction {
    /// Name of the program that the instruction addresses.
    pub program: String,
    /// Key of that program, in base 58.
    pub program_id: String,
    /// The decoded payload.
    pub parsed: Json,
}

/// What a parsed instruction holds, as mathematical values.
pub struct ParsedInstructionView {
    pub program: Seq<char>,
    pub program_id: Seq<char>,
    pub parsed: JsonView,
}

impl View for ParsedInstruction {
    type V = ParsedInstructionView;

    open spec fn view(&self) -> ParsedInstructionView {
        ParsedInstructionView {
            program: self.program@,
            program_id: self.program_id@,
            parsed: self.parsed@,
        }
    }
}

/// One instruction of an inner-instruction tree.
#[derive(Debug, PartialEq, Eq)]
pub enum Instruction {
    /// The payload is available in structured form.
    Parsed(ParsedInstruction),
    /// The payload is only available as raw bytes.
    Raw,
}

/// What an instruction holds, as mathematical values.
pub enum InstructionView {
    Parsed(ParsedInstructionView),
    Raw,
}

impl View for Instruction {
    type V = InstructionView;

    open spec fn view(&self) -> InstructionView {
        match self {
            Instruction::Parsed(parsed) => InstructionView::Parsed(parsed@),
            Instruction::Raw => InstructionView::Raw,
        }
    }
}

/// The instructions that one top-level instruction invoked.
#[derive(Debug, PartialEq, Eq)]
pub struct InnerInstructions {
    /// Index of the top-level instruction in its transaction.
    pub index: u8,
    /// What it invoked, in order.
    pub instructions: Vec<Instruction>,
}

/// What a tree of inner instructions holds, as mathematical values.
pub struct InnerInstructionsView {
    pub index: u8,
    pub instructions: Seq<InstructionView>,
}

impl View for InnerInstructions {
    type V = InnerInstructionsView;

    open spec fn view(&self) -> InnerInstructionsView {
        InnerInstructionsView {
            index: self.index,
            instructions: self.instructions@.map_values(|i: Instruction| i@),
        }
    }
}

/// What is known of how a transaction ran.
#[derive(Debug, PartialEq, Eq)]
pub struct TransactionMeta {
    /// Whether execution reported an error.
    pub failed: bool,
    /// The inner-instruction trees, where they were recorded.
    pub inner_instructions: Option<Vec<InnerInstructions>>,
}

/// What the metadata of a transaction holds, as mathematical values.
pub struct TransactionMetaView {
    pub failed: bool,
    pub inner_instructions: Option<Seq<InnerInstructionsView>>,
}

impl View for TransactionMeta {
    type V = TransactionMetaView;

    open spec fn view(&self) -> TransactionMetaView {
        TransactionMetaView {
            failed: self.failed,
            inner_instructions: match self.inner_instructions {
                Some(trees) => Some(trees@.map_values(|t: InnerInstructions| t@)),
                None => None,
            },
        }
    }
}

/// A confirmed transaction as it was fetched.
#[derive(Debug, PartialEq, Eq)]
pub struct Transaction {
    /// The slot in which the transaction was processed.
    pub slot: u64,
    /// Whether the body of the transaction could be decoded.
    pub decoded: bool,
    /// Execution metadata, where the node returned it.
    pub meta: Option<TransactionMeta>,
}

/// What a transaction holds, as mathematical values.
pub struct TransactionView {
    pub slot: u64,
    pub decoded: bool,
    pub meta: Option<TransactionMetaView>,
}

impl View for Transaction {
    type V = TransactionView;

    open spec fn view(&self) -> TransactionView {
        TransactionView {
            slot: self.slot,
            decoded: self.decoded,
            meta: match self.meta {
                Some(meta) => Some(meta@),
                None => None,
            },
        }
    }
}

} // verus!
