//! Constants of the crawler: the tracked loader, the payload keys that the
//! decoder reads, and the polling cadence.

use vstd::prelude::*;

verus! {

/// Bytes of the upgradeable loader's program id,
/// `BPFLoaderUpgradeab1e11111111111111111111111`.
pub const BPF_LOADER: [u8; 32] = [
    2, 168, 246, 145, 78, 136, 161, 176, 226, 16, 21, 62, 247, 99, 174, 43,
    0, 194, 185, 61, 22, 193, 36, 210, 192, 83, 122, 16, 4, 128, 0, 0,
];

/// Payload member that names the kind of a parsed instruction.
pub const INSTRUCTION_TYPE: &'static str = "instruction_type";

/// Payload member that holds the accounts of a parsed instruction.
pub const INFO: &'static str = "info";

/// Member of `info` that holds the program account.
pub const PROGRAM_ACCOUNT: &'static str = "programAccount";

/// Member of `info` that holds the program data account.
pub const PROGRAM_DATA_ACCOUNT: &'static str = "programDataAccount";

/// Instruction type of a first deployment.
pub const DEPLOY_WITH_MAX_DATA_LEN: &'static str = "deployWithMaxDataLen";

/// Instruction type of an upgrade.
pub const UPGRADE: &'static str = "upgrade";

/// Target interval between the starts of two polling cycles, in seconds.
pub const CADENCE_SECS: u64 = 10;

/// The same interval in milliseconds.
pub const CADENCE_MILLIS: u64 = 10_000;

} // verus!
