//! Registers of the AES/SHA-256 engine, the accesses to them that the
//! driver asks for, and the bits of the registers of both engines.

use vstd::prelude::*;

verus! {

/// A register of the AES/SHA-256 engine.
#[derive(Debug, Clone, Copy, PartialEq, Eq, Structural)]
pub enum AesReg {
    DmacCh0Ctrl,
    DmacCh0Extaddr,
    DmacCh0Dmalength,
    DmacCh1Ctrl,
    DmacCh1Extaddr,
    DmacCh1Dmalength,
    KeyStoreWriteArea,
    KeyStoreWrittenArea,
    KeyStoreSize,
    KeyStoreReadArea,
    AesIv0,
    AesIv1,
    AesIv2,
    AesIv3,
    AesCtrl,
    AesCLength0,
    AesCLength1,
    AesAuthLength,
    AesTagOut0,
    AesTagOut1,
    AesTagOut2,
    AesTagOut3,
    HashIoBufCtrl,
    HashModeIn,
    HashLengthInL,
    HashLengthInH,
    HashDigestA,
    HashDigestB,
    HashDigestC,
    HashDigestD,
    HashDigestE,
    HashDigestF,
    HashDigestG,
    HashDigestH,
    CtrlAlgSel,
    CtrlIntCfg,
    CtrlIntEn,
    CtrlIntClr,
    CtrlIntStat,
}

/// A buffer in memory that a DMA channel of the engine reads or fills.
#[derive(Debug, Clone, Copy, PartialEq, Eq, Structural)]
pub enum DmaBuffer {
    /// The key material of a key load.
    Keys,
    /// The associated data of an authenticated operation.
    AuthData,
    /// The input of a cipher operation.
    Input,
    /// The output of a cipher operation.
    Output,
    /// The pending block of a hash.
    Block,
    /// The 32 bytes that receive the digest of a new hash.
    Digest,
}

/// One access to the engine. A list of them is performed in order.
#[derive(Debug, Clone, Copy, PartialEq, Eq, Structural)]
pub enum AesCommand {
    /// Store `value` in `reg`.
    Write { reg: AesReg, value: u32 },
    /// Replace `reg` by `(reg & !clear) | set`.
    Modify { reg: AesReg, clear: u32, set: u32 },
    /// Store the address of `buffer` in `reg`.
    Point { reg: AesReg, buffer: DmaBuffer },
    /// Read `reg` until one of the bits of `mask` is set.
    WaitSet { reg: AesReg, mask: u32 },
    /// Read `reg` until no bit of `mask` is set.
    WaitClear { reg: AesReg, mask: u32 },
    /// Read `reg` and report its value.
    Read { reg: AesReg },
    /// Report the 32-bit word at index `word` of `buffer`.
    Fetch { buffer: DmaBuffer, word: u8 },
}

/// How an operation goes on once a list of accesses was performed.
#[derive(Debug, Clone, Copy, PartialEq, Eq, Structural)]
pub enum Progress {
    /// The operation goes on with what the accesses reported.
    Pending,
    /// The operation is complete.
    Done,
    /// The operation ended with an error.
    Failed(crate::crypto::CryptoError),
}

/// A step of an operation: the accesses to perform now, in order, and how
/// the operation goes on after them.
#[derive(Debug, PartialEq, Eq)]
pub struct AesStep {
    pub commands: Vec<AesCommand>,
    pub progress: Progress,
}

/// Whether the engine lets `reg` be read.
pub open spec fn spec_readable(reg: AesReg) -> bool {
    !(reg is AesCLength1 || reg is AesAuthLength || reg is HashModeIn || reg is HashLengthInL
        || reg is HashLengthInH || reg is CtrlIntClr)
}

/// Whether the engine lets `reg` be written.
pub open spec fn spec_writable(reg: AesReg) -> bool {
    !(reg is AesTagOut0 || reg is AesTagOut1 || reg is AesTagOut2 || reg is AesTagOut3
        || reg is CtrlIntStat)
}

/// Whether the engine can be asked for `command`: it writes a register
/// that can be written, reads one that can be read, and fetches a word that
/// a digest has.
pub open spec fn spec_valid(command: AesCommand) -> bool {
    match command {
        AesCommand::Write { reg, .. } => spec_writable(reg),
        AesCommand::Modify { reg, .. } => spec_readable(reg) && spec_writable(reg),
        AesCommand::Point { reg, .. } => spec_writable(reg),
        AesCommand::WaitSet { reg, .. } => spec_readable(reg),
        AesCommand::WaitClear { reg, .. } => spec_readable(reg),
        AesCommand::Read { reg } => spec_readable(reg),
        AesCommand::Fetch { buffer, word } => buffer is Digest && word < 8,
    }
}

/// Whether the engine can be asked for every command of `commands`.
pub open spec fn spec_all_valid(commands: Seq<AesCommand>) -> bool {
    forall|i: int| 0 <= i < commands.len() ==> spec_valid(#[trigger] commands[i])
}

/// Two lists can be asked of the engine one after the other where each of
/// them can.
pub proof fn lemma_all_valid_concat(a: Seq<AesCommand>, b: Seq<AesCommand>)
    ensures
        spec_all_valid(a + b) <==> spec_all_valid(a) && spec_all_valid(b),
{
    if spec_all_valid(a + b) {
        assert forall|i: int| 0 <= i < a.len() implies spec_valid(#[trigger] a[i]) by {
            assert((a + b)[i] == a[i]);
        }
        assert forall|i: int| 0 <= i < b.len() implies spec_valid(#[trigger] b[i]) by {
            assert((a + b)[a.len() + i] == b[i]);
        }
    }
}

/// Whether `command` reports a value.
pub open spec fn spec_reports(command: AesCommand) -> bool {
    command is Read || command is Fetch
}

/// Number of values that `commands` report when they are performed.
pub open spec fn spec_report_count(commands: Seq<AesCommand>) -> nat
    decreases commands.len(),
{
    if commands.len() == 0 {
        0
    } else {
        spec_report_count(commands.drop_last()) + if spec_reports(commands.last()) {
            1nat
        } else {
            0nat
        }
    }
}

/// Two lists report, one after the other, what each of them reports.
pub proof fn lemma_report_count_concat(a: Seq<AesCommand>, b: Seq<AesCommand>)
    ensures
        spec_report_count(a + b) == spec_report_count(a) + spec_report_count(b),
    decreases b.len(),
{
    if b.len() == 0 {
        assert(a + b =~= a);
    } else {
        lemma_report_count_concat(a, b.drop_last());
        assert((a + b).drop_last() =~= a + b.drop_last());
        assert((a + b).last() == b.last());
    }
}

impl AesReg {
    /// Whether the engine lets the register be read.
    pub fn readable(&self) -> (readable: bool)
        ensures
            readable == spec_readable(*self),
    {
        match self {
            AesReg::AesCLength1
            | AesReg::AesAuthLength
            | AesReg::HashModeIn
            | AesReg::HashLengthInL
            | AesReg::HashLengthInH
            | AesReg::CtrlIntClr => false,
            _ => true,
        }
    }

    /// Whether the engine lets the register be written.
    pub fn writable(&self) -> (writable: bool)
        ensures
            writable == spec_writable(*self),
    {
        match self {
            AesReg::AesTagOut0
            | AesReg::AesTagOut1
            | AesReg::AesTagOut2
            | AesReg::AesTagOut3
            | AesReg::CtrlIntStat => false,
            _ => true,
        }
    }
}

impl AesCommand {
    /// Whether the engine can be asked for the command.
    pub fn is_valid(&self) -> (valid: bool)
        ensures
            valid == spec_valid(*self),
    {
        match self {
            AesCommand::Write { reg, .. } => reg.writable(),
            AesCommand::Modify { reg, .. } => reg.readable() && reg.writable(),
            AesCommand::Point { reg, .. } => reg.writable(),
            AesCommand::WaitSet { reg, .. } => reg.readable(),
            AesCommand::WaitClear { reg, .. } => reg.readable(),
            AesCommand::Read { reg } => reg.readable(),
            AesCommand::Fetch { buffer, word } => match buffer {
                DmaBuffer::Digest => *word < 8,
                _ => false,
            },
        }
    }
}

// CTRL_ALG_SEL: the algorithm that the DMA path serves.
pub const ALG_SEL_KEYSTORE: u32 = 0x0000_0001;
pub const ALG_SEL_AES: u32 = 0x0000_0002;
pub const ALG_SEL_HASH: u32 = 0x0000_0004;
pub const ALG_SEL_TAG: u32 = 0x8000_0000;

// CTRL_INT_CFG
pub const INT_CFG_LEVEL: u32 = 0x0000_0001;

// CTRL_INT_EN, CTRL_INT_CLR and CTRL_INT_STAT share their layout.
pub const INT_RESULT_AV: u32 = 0x0000_0001;
pub const INT_DMA_IN_DONE: u32 = 0x0000_0002;
pub const INT_KEY_ST_RD_ERR: u32 = 0x2000_0000;
pub const INT_KEY_ST_WR_ERR: u32 = 0x4000_0000;
pub const INT_DMA_BUS_ERR: u32 = 0x8000_0000;

// DMAC_CHx_CTRL and DMAC_CHx_DMALENGTH
pub const DMAC_CH_CTRL_EN: u32 = 0x0000_0001;
pub const DMAC_DMALENGTH_MASK: u32 = 0x0000_ffff;

// KEY_STORE_SIZE and KEY_STORE_READ_AREA
pub const KEY_STORE_SIZE_MASK: u32 = 0x0000_0003;
pub const KEY_STORE_READ_AREA_BUSY: u32 = 0x8000_0000;

// AES_CTRL
pub const AES_CTRL_DIRECTION: u32 = 0x0000_0004;
pub const AES_CTRL_CTR: u32 = 0x0000_0040;
pub const AES_CTRL_CTR_WIDTH_MASK: u32 = 0x0000_0180;
pub const AES_CTRL_CCM: u32 = 0x0004_0000;
pub const AES_CTRL_CCM_L_MASK: u32 = 0x0038_0000;
pub const AES_CTRL_CCM_M_MASK: u32 = 0x01c0_0000;
pub const AES_CTRL_SAVE_CONTEXT: u32 = 0x2000_0000;

// HASH_MODE_IN and HASH_IO_BUF_CTRL
pub const HASH_MODE_NEW_HASH: u32 = 0x0000_0001;
pub const HASH_MODE_SHA256: u32 = 0x0000_0008;
pub const HASH_IO_BUF_OUTPUT_FULL: u32 = 0x0000_0001;
pub const HASH_IO_BUF_PAD_DMA_MESSAGE: u32 = 0x0000_0080;

// PKA_FUNCTION
pub const PKA_FUNCTION_MULTIPLY: u32 = 0x0000_0001;
pub const PKA_FUNCTION_ADDSUB: u32 = 0x0000_0002;
pub const PKA_FUNCTION_ADD: u32 = 0x0000_0010;
pub const PKA_FUNCTION_SUBTRACT: u32 = 0x0000_0020;
pub const PKA_FUNCTION_MODULO: u32 = 0x0000_0200;
pub const PKA_FUNCTION_COMPARE: u32 = 0x0000_0400;
pub const PKA_FUNCTION_RUN: u32 = 0x0000_8000;
/// Sequencer operation: modular exponentiation.
pub const PKA_SEQ_EXP: u32 = 0x0000_2000;
/// Sequencer operation: addition of two points of a curve.
pub const PKA_SEQ_ECC_ADD: u32 = 0x0000_3000;
/// Sequencer operation: product of a scalar and a point of a curve.
pub const PKA_SEQ_ECC_MUL: u32 = 0x0000_5000;
/// Sequencer operation: modular inverse.
pub const PKA_SEQ_INV_MOD: u32 = 0x0000_7000;

// PKA_MSW and PKA_COMPARE
pub const PKA_MSW_ADDRESS_MASK: u32 = 0x0000_07ff;
pub const PKA_MSW_RESULT_IS_ZERO: u32 = 0x0000_8000;
pub const PKA_COMPARE_A_EQUALS_B: u32 = 0x0000_0001;
pub const PKA_COMPARE_A_LESS_THAN_B: u32 = 0x0000_0002;
pub const PKA_COMPARE_A_GREATER_THAN_B: u32 = 0x0000_0004;

} // verus!
