//! The AES engine: key storage and the cipher modes.
//!
//! An operation is a short exchange with the engine. A function of this
//! module starts it, and a step function goes on with it, each time from
//! what the engine reported at the end of the accesses of the step before.

use core::marker::PhantomData;
use vstd::prelude::*;

pub mod ccm;
pub mod ctr;
pub mod keys;

use crate::crypto::aes_engine::ccm::AesCcm;
use crate::crypto::aes_engine::ctr::AesCtr;
use crate::crypto::aes_engine::keys::{spec_key_size_bits, AesKeys};
use crate::crypto::regs::{
    lemma_all_valid_concat, lemma_report_count_concat, spec_all_valid, spec_report_count,
    spec_reports, AesCommand, AesReg, AesStep, DmaBuffer, Progress,
    AES_CTRL_CCM, AES_CTRL_CCM_L_MASK,
    AES_CTRL_CCM_M_MASK, AES_CTRL_CTR, AES_CTRL_CTR_WIDTH_MASK, AES_CTRL_DIRECTION,
    AES_CTRL_SAVE_CONTEXT, ALG_SEL_AES, ALG_SEL_HASH, ALG_SEL_KEYSTORE, ALG_SEL_TAG,
    DMAC_CH_CTRL_EN, DMAC_DMALENGTH_MASK, INT_CFG_LEVEL, INT_DMA_BUS_ERR, INT_DMA_IN_DONE,
    INT_KEY_ST_RD_ERR, INT_KEY_ST_WR_ERR, INT_RESULT_AV, KEY_STORE_READ_AREA_BUSY,
    KEY_STORE_SIZE_MASK,
};
use crate::crypto::words::{copy_bytes, spec_word_at, spec_words_bytes, word_at, words_to_bytes};
use crate::crypto::{
    spec_ctr_width_bits, Crypto, CryptoError, CryptoMode, CtrWidth, NotSpecified,
};

verus! {

/// State of an engine that was selected for AES, in the mode `Type`.
pub struct AesEngine<Type> {
    _type: PhantomData<Type>,
}

pub struct AesCbc {}

pub struct AesCbcMac {}

pub struct AesEcb {}

pub struct AesGcm {}

/// How the control register of the engine is set for an operation.
#[derive(Debug, Clone, Copy, PartialEq, Eq, Structural)]
pub enum AesControl {
    /// Counter mode, with the width of the counter as its field takes it.
    Ctr { width: u8, encrypt: bool },
    /// CCM, with the sizes of the authentication field and of the length
    /// field as their fields take them. The counter has the width
    /// [`CtrWidth::Width128`].
    Ccm { m: u8, l: u8, encrypt: bool },
}

/// Where an operation of the cipher stands.
#[derive(Debug, Clone, Copy, PartialEq, Eq, Structural)]
pub enum AuthStage {
    /// The key is on its way from the key store to the engine.
    KeyLoad,
    /// The associated data is on its way to the engine.
    AuthData,
    /// The operation has ended and the engine has the data.
    Done,
    /// The operation has ended with an error.
    Failed(CryptoError),
}

/// An operation of the cipher in progress.
#[derive(Debug, Clone, Copy)]
pub struct AuthCrypt {
    pub control: AesControl,
    /// The initialization vector, if the mode takes one.
    pub iv: Option<[u8; 16]>,
    /// Number of bytes of associated data.
    pub auth_len: usize,
    /// Number of bytes of input.
    pub in_len: usize,
    /// Number of bytes of output.
    pub out_len: usize,
    pub stage: AuthStage,
}

/// Where a key load stands.
#[derive(Debug, Clone, Copy, PartialEq, Eq, Structural)]
pub enum KeyLoadStage {
    /// The keys are on their way to the key store.
    Transfer,
    /// The key store is asked which areas it has written.
    Verify,
    /// The load has ended and the key store holds the keys.
    Done,
    /// The load has ended with an error.
    Failed(CryptoError),
}

/// A key load in progress.
#[derive(Debug, Clone, Copy)]
pub struct KeyLoad {
    /// The areas of the key store that the keys go to, one bit each.
    pub areas: u32,
    pub stage: KeyLoadStage,
}

/// The value of the algorithm selection register for `mode`.
pub open spec fn spec_mode_alg_sel(mode: CryptoMode) -> u32 {
    match mode {
        CryptoMode::StoreKeys => ALG_SEL_KEYSTORE,
        CryptoMode::HashAndTag => ALG_SEL_TAG | ALG_SEL_HASH,
        CryptoMode::Tag => ALG_SEL_TAG,
        CryptoMode::Hash => ALG_SEL_HASH,
        CryptoMode::Aes => ALG_SEL_AES,
    }
}

/// The areas `start .. start + count` of the key store, one bit each.
pub open spec fn spec_areas(count: u8, start: u8) -> u32 {
    (((1u32 << (count as u32)) - 1) as u32) << (start as u32)
}

/// The accesses that set up the interrupts of the engine.
pub open spec fn spec_workaround_commands() -> Seq<AesCommand> {
    seq![
        AesCommand::Write { reg: AesReg::CtrlIntCfg, value: INT_CFG_LEVEL },
        AesCommand::Write { reg: AesReg::CtrlIntEn, value: INT_DMA_IN_DONE | INT_RESULT_AV },
    ]
}

/// The access that sets the size of the keys in the key store, where the
/// store holds keys of another size.
pub open spec fn spec_key_size_commands(key_store_size: u32, keys: AesKeys) -> Seq<AesCommand> {
    if key_store_size & KEY_STORE_SIZE_MASK != spec_key_size_bits(keys.sizes) {
        seq![
            AesCommand::Modify {
                reg: AesReg::KeyStoreSize,
                clear: KEY_STORE_SIZE_MASK,
                set: spec_key_size_bits(keys.sizes),
            },
        ]
    } else {
        seq![]
    }
}

/// The accesses that free the areas `areas` of the key store and send
/// `count` areas of key material to them.
pub open spec fn spec_key_transfer_commands(areas: u32, count: u8) -> Seq<AesCommand> {
    seq![
        AesCommand::Write { reg: AesReg::KeyStoreWrittenArea, value: areas },
        AesCommand::Write { reg: AesReg::KeyStoreWriteArea, value: areas },
        AesCommand::Write { reg: AesReg::DmacCh0Ctrl, value: DMAC_CH_CTRL_EN },
        AesCommand::Point { reg: AesReg::DmacCh0Extaddr, buffer: DmaBuffer::Keys },
        AesCommand::Write { reg: AesReg::DmacCh0Dmalength, value: (16 * count) as u32 },
        AesCommand::WaitSet { reg: AesReg::CtrlIntStat, mask: INT_RESULT_AV },
        AesCommand::Read { reg: AesReg::CtrlIntStat },
    ]
}

/// The accesses that send `keys` to the key store, which holds keys of the
/// size that `key_store_size` tells.
pub open spec fn spec_load_key_commands(key_store_size: u32, keys: AesKeys) -> Seq<AesCommand> {
    spec_workaround_commands() + seq![
        AesCommand::Write { reg: AesReg::CtrlAlgSel, value: ALG_SEL_KEYSTORE },
        AesCommand::Write { reg: AesReg::CtrlIntClr, value: INT_RESULT_AV },
    ] + spec_key_size_commands(key_store_size, keys) + spec_key_transfer_commands(
        spec_areas(keys.count, keys.start_area),
        keys.count,
    )
}

/// What a step of a key load gives: the stage after it, the accesses, and
/// how the load goes on. A load that has ended stays as it ended: a step on
/// it asks for nothing and reports the same end, success or error, again.
pub open spec fn spec_load_key_step(job: KeyLoad, reading: u32) -> (
    KeyLoadStage,
    Seq<AesCommand>,
    Progress,
) {
    match job.stage {
        KeyLoadStage::Transfer => {
            if reading & INT_DMA_BUS_ERR != 0 {
                (
                    KeyLoadStage::Failed(CryptoError::DmaError),
                    seq![AesCommand::Write { reg: AesReg::CtrlIntClr, value: INT_DMA_BUS_ERR }],
                    Progress::Failed(CryptoError::DmaError),
                )
            } else if reading & INT_KEY_ST_WR_ERR != 0 {
                (
                    KeyLoadStage::Failed(CryptoError::KeyStoreError),
                    seq![AesCommand::Write { reg: AesReg::CtrlIntClr, value: INT_KEY_ST_WR_ERR }],
                    Progress::Failed(CryptoError::KeyStoreError),
                )
            } else {
                (
                    KeyLoadStage::Verify,
                    seq![
                        AesCommand::Write {
                            reg: AesReg::CtrlIntClr,
                            value: INT_DMA_IN_DONE | INT_RESULT_AV,
                        },
                        AesCommand::Write { reg: AesReg::CtrlAlgSel, value: 0 },
                        AesCommand::Read { reg: AesReg::KeyStoreWrittenArea },
                    ],
                    Progress::Pending,
                )
            }
        },
        KeyLoadStage::Verify => {
            if reading & job.areas != job.areas {
                (
                    KeyLoadStage::Failed(CryptoError::KeyStoreError),
                    Seq::empty(),
                    Progress::Failed(CryptoError::KeyStoreError),
                )
            } else {
                (KeyLoadStage::Done, Seq::empty(), Progress::Done)
            }
        },
        KeyLoadStage::Done => (KeyLoadStage::Done, Seq::empty(), Progress::Done),
        KeyLoadStage::Failed(e) => (KeyLoadStage::Failed(e), Seq::empty(), Progress::Failed(e)),
    }
}

/// The accesses that store the 16 bytes of `iv` in the registers of the
/// initialization vector, as four words.
pub open spec fn spec_write_iv(iv: Seq<u8>) -> Seq<AesCommand> {
    seq![
        AesCommand::Write { reg: AesReg::AesIv0, value: spec_word_at(iv, 0) },
        AesCommand::Write { reg: AesReg::AesIv1, value: spec_word_at(iv, 4) },
        AesCommand::Write { reg: AesReg::AesIv2, value: spec_word_at(iv, 8) },
        AesCommand::Write { reg: AesReg::AesIv3, value: spec_word_at(iv, 12) },
    ]
}

/// The fields of the control register that a CCM operation sets.
pub open spec fn spec_ccm_fields() -> u32 {
    AES_CTRL_SAVE_CONTEXT | AES_CTRL_CCM_M_MASK | AES_CTRL_CCM_L_MASK | AES_CTRL_CCM
        | AES_CTRL_CTR_WIDTH_MASK | AES_CTRL_CTR | AES_CTRL_DIRECTION
}

/// The direction bit of the control register.
pub open spec fn spec_direction(encrypt: bool) -> u32 {
    if encrypt {
        AES_CTRL_DIRECTION
    } else {
        0
    }
}

/// The access that sets the control register for `control`.
pub open spec fn spec_control_command(control: AesControl) -> AesCommand {
    match control {
        AesControl::Ctr { width, encrypt } => AesCommand::Write {
            reg: AesReg::AesCtrl,
            value: (((width as u32) << 7) & AES_CTRL_CTR_WIDTH_MASK) | AES_CTRL_CTR
                | spec_direction(encrypt),
        },
        AesControl::Ccm { m, l, encrypt } => AesCommand::Modify {
            reg: AesReg::AesCtrl,
            clear: spec_ccm_fields(),
            set: AES_CTRL_SAVE_CONTEXT | (((m as u32) << 22) & AES_CTRL_CCM_M_MASK) | (((l as u32)
                << 19) & AES_CTRL_CCM_L_MASK) | AES_CTRL_CCM | (((spec_ctr_width_bits(
                CtrWidth::Width128,
            ) as u32) << 7) & AES_CTRL_CTR_WIDTH_MASK) | AES_CTRL_CTR | spec_direction(encrypt),
        },
    }
}

/// Whether the mode of `control` takes associated data.
pub open spec fn spec_authenticated(control: AesControl) -> bool {
    control is Ccm
}

/// Whether an operation under `control` leaves an authentication tag to
/// read.
pub open spec fn spec_gives_tag(control: AesControl) -> bool {
    control matches AesControl::Ccm { encrypt, .. } && encrypt
}

/// The low 32 bits of a length.
pub open spec fn spec_low32(len: usize) -> u32 {
    (len as nat % 0x1_0000_0000) as u32
}

/// The low 16 bits of a length.
pub open spec fn spec_low16(len: usize) -> u32 {
    (len as nat % 0x1_0000) as u32
}

/// The accesses that send `len` bytes of `buffer` through DMA channel 0 and
/// wait for the end of the transfer.
pub open spec fn spec_write_dma0(buffer: DmaBuffer, len: usize) -> Seq<AesCommand> {
    seq![
        AesCommand::Modify { reg: AesReg::DmacCh0Ctrl, clear: 0, set: DMAC_CH_CTRL_EN },
        AesCommand::Point { reg: AesReg::DmacCh0Extaddr, buffer: buffer },
        AesCommand::Modify {
            reg: AesReg::DmacCh0Dmalength,
            clear: DMAC_DMALENGTH_MASK,
            set: spec_low16(len),
        },
        AesCommand::WaitSet { reg: AesReg::CtrlIntStat, mask: INT_DMA_IN_DONE },
    ]
}

/// The accesses that let DMA channel 1 fill `len` bytes of `buffer`.
pub open spec fn spec_write_dma1(buffer: DmaBuffer, len: usize) -> Seq<AesCommand> {
    seq![
        AesCommand::Modify { reg: AesReg::DmacCh1Ctrl, clear: 0, set: DMAC_CH_CTRL_EN },
        AesCommand::Point { reg: AesReg::DmacCh1Extaddr, buffer: buffer },
        AesCommand::Modify {
            reg: AesReg::DmacCh1Dmalength,
            clear: DMAC_DMALENGTH_MASK,
            set: spec_low16(len),
        },
        AesCommand::WaitSet { reg: AesReg::CtrlIntStat, mask: INT_DMA_IN_DONE },
    ]
}

/// The accesses that select the AES engine and the key of area `key_index`,
/// wait until the key is loaded and read the interrupt status.
pub open spec fn spec_auth_begin_commands(key_index: u32) -> Seq<AesCommand> {
    seq![
        AesCommand::Modify { reg: AesReg::CtrlAlgSel, clear: 0, set: ALG_SEL_AES },
        AesCommand::Write { reg: AesReg::CtrlIntClr, value: INT_DMA_IN_DONE | INT_RESULT_AV },
        AesCommand::Write { reg: AesReg::KeyStoreReadArea, value: key_index },
        AesCommand::WaitClear { reg: AesReg::KeyStoreReadArea, mask: KEY_STORE_READ_AREA_BUSY },
        AesCommand::Read { reg: AesReg::CtrlIntStat },
    ]
}

/// The accesses that store the initialization vector of `job`, if it has
/// one.
pub open spec fn spec_iv_commands(job: AuthCrypt) -> Seq<AesCommand> {
    match job.iv {
        Some(iv) => spec_write_iv(iv@),
        None => Seq::empty(),
    }
}

/// The access that tells the engine the length of the associated data, in
/// the modes that take any.
pub open spec fn spec_auth_length_commands(job: AuthCrypt) -> Seq<AesCommand> {
    if spec_authenticated(job.control) {
        seq![AesCommand::Write { reg: AesReg::AesAuthLength, value: spec_low32(job.auth_len) }]
    } else {
        seq![]
    }
}

/// The accesses that set the engine up for `job`: the initialization
/// vector, the control register and the lengths.
pub open spec fn spec_setup_commands(job: AuthCrypt) -> Seq<AesCommand> {
    spec_iv_commands(job) + seq![
        spec_control_command(job.control),
        AesCommand::Write { reg: AesReg::AesCLength0, value: spec_low32(job.in_len) },
        AesCommand::Write { reg: AesReg::AesCLength1, value: 0 },
    ] + spec_auth_length_commands(job)
}

/// Whether `job` sends associated data to the engine.
pub open spec fn spec_sends_auth_data(job: AuthCrypt) -> bool {
    spec_authenticated(job.control) && job.auth_len > 0
}

/// The accesses that send the associated data and read the interrupt
/// status after it.
pub open spec fn spec_auth_data_commands(job: AuthCrypt) -> Seq<AesCommand> {
    spec_write_dma0(DmaBuffer::AuthData, job.auth_len) + seq![
        AesCommand::Read { reg: AesReg::CtrlIntStat },
    ]
}

/// The accesses that send the input, if there is any, and take the output,
/// if there is any of both.
pub open spec fn spec_transfer_commands(job: AuthCrypt) -> Seq<AesCommand> {
    if job.in_len > 0 {
        spec_write_dma0(DmaBuffer::Input, job.in_len) + if job.out_len > 0 {
            spec_write_dma1(DmaBuffer::Output, job.out_len)
        } else {
            Seq::empty()
        }
    } else {
        Seq::empty()
    }
}

/// The accesses that read the authentication tag, where the operation
/// leaves one.
pub open spec fn spec_tag_commands(job: AuthCrypt) -> Seq<AesCommand> {
    if spec_gives_tag(job.control) {
        seq![
            AesCommand::Read { reg: AesReg::AesTagOut0 },
            AesCommand::Read { reg: AesReg::AesTagOut1 },
            AesCommand::Read { reg: AesReg::AesTagOut2 },
            AesCommand::Read { reg: AesReg::AesTagOut3 },
        ]
    } else {
        seq![]
    }
}

/// The accesses that move the data of `job`, wait for the engine to end,
/// with a result or with an error, and read the tag if there is one.
pub open spec fn spec_payload_commands(job: AuthCrypt) -> Seq<AesCommand> {
    spec_transfer_commands(job) + seq![
        AesCommand::WaitSet {
            reg: AesReg::CtrlIntStat,
            mask: INT_DMA_BUS_ERR | INT_KEY_ST_RD_ERR | INT_KEY_ST_WR_ERR | INT_RESULT_AV,
        },
    ] + spec_tag_commands(job)
}

/// What a step of a cipher operation gives: the stage after it, the
/// accesses, and how the operation goes on. An operation that has ended
/// stays as it ended: a step on it asks for nothing and reports the same
/// end, success or error, again.
pub open spec fn spec_auth_crypt_step(job: AuthCrypt, reading: u32) -> (
    AuthStage,
    Seq<AesCommand>,
    Progress,
) {
    match job.stage {
        AuthStage::KeyLoad => {
            if reading & INT_KEY_ST_RD_ERR != 0 {
                (
                    AuthStage::Failed(CryptoError::KeyStoreError),
                    Seq::empty(),
                    Progress::Failed(CryptoError::KeyStoreError),
                )
            } else if spec_sends_auth_data(job) {
                (
                    AuthStage::AuthData,
                    spec_setup_commands(job) + spec_auth_data_commands(job),
                    Progress::Pending,
                )
            } else {
                (
                    AuthStage::Done,
                    spec_setup_commands(job) + spec_payload_commands(job),
                    Progress::Done,
                )
            }
        },
        AuthStage::AuthData => {
            if reading & INT_DMA_BUS_ERR != 0 {
                (
                    AuthStage::Failed(CryptoError::DmaError),
                    Seq::empty(),
                    Progress::Failed(CryptoError::DmaError),
                )
            } else {
                (
                    AuthStage::Done,
                    seq![AesCommand::Write { reg: AesReg::CtrlIntClr, value: INT_DMA_IN_DONE }]
                        + spec_payload_commands(job),
                    Progress::Done,
                )
            }
        },
        AuthStage::Done => (AuthStage::Done, Seq::empty(), Progress::Done),
        AuthStage::Failed(e) => (AuthStage::Failed(e), Seq::empty(), Progress::Failed(e)),
    }
}

/// What the start of a cipher operation gives. Where `alg_sel` shows that
/// the engine is in use, the start is refused with `AesBusy`, and there is
/// no operation and nothing to ask of the engine. Otherwise the operation
/// holds what it was started with and waits for its key, and the accesses
/// are those that select the engine and the key.
pub open spec fn spec_auth_crypt(
    r: Result<(AuthCrypt, AesStep), CryptoError>,
    alg_sel: u32,
    control: AesControl,
    key_index: u32,
    iv: Option<Seq<u8>>,
    auth_len: nat,
    in_len: nat,
    out_len: nat,
) -> bool {
    if alg_sel != 0 {
        r matches Err(e) && e == CryptoError::AesBusy
    } else {
        r matches Ok(started) && {
            &&& started.0.control == control
            &&& match iv {
                Some(iv) => started.0.iv matches Some(a) && a@ == iv,
                None => started.0.iv is None,
            }
            &&& started.0.auth_len == auth_len
            &&& started.0.in_len == in_len
            &&& started.0.out_len == out_len
            &&& started.0.stage == AuthStage::KeyLoad
            &&& started.1.progress == Progress::Pending
            &&& started.1.commands@ == spec_auth_begin_commands(key_index)
        }
    }
}

/// The engine can be asked for every access of a key load.
pub proof fn lemma_load_key_commands_valid(key_store_size: u32, keys: AesKeys, job: KeyLoad, reading: u32)
    ensures
        spec_all_valid(spec_load_key_commands(key_store_size, keys)),
        spec_all_valid(spec_load_key_step(job, reading).1),
{
    let head = spec_workaround_commands() + seq![
        AesCommand::Write { reg: AesReg::CtrlAlgSel, value: ALG_SEL_KEYSTORE },
        AesCommand::Write { reg: AesReg::CtrlIntClr, value: INT_RESULT_AV },
    ];
    let size = spec_key_size_commands(key_store_size, keys);
    let transfer = spec_key_transfer_commands(spec_areas(keys.count, keys.start_area), keys.count);
    lemma_all_valid_concat(
        spec_workaround_commands(),
        seq![
            AesCommand::Write { reg: AesReg::CtrlAlgSel, value: ALG_SEL_KEYSTORE },
            AesCommand::Write { reg: AesReg::CtrlIntClr, value: INT_RESULT_AV },
        ],
    );
    lemma_all_valid_concat(head, size);
    lemma_all_valid_concat(head + size, transfer);
}

/// The engine can be asked for every access of a cipher operation.
pub proof fn lemma_auth_crypt_commands_valid(key_index: u32, job: AuthCrypt, reading: u32)
    ensures
        spec_all_valid(spec_auth_begin_commands(key_index)),
        spec_all_valid(spec_auth_crypt_step(job, reading).1),
{
    let iv = spec_iv_commands(job);
    let middle = seq![
        spec_control_command(job.control),
        AesCommand::Write { reg: AesReg::AesCLength0, value: spec_low32(job.in_len) },
        AesCommand::Write { reg: AesReg::AesCLength1, value: 0 },
    ];
    let auth_length = spec_auth_length_commands(job);
    lemma_all_valid_concat(iv, middle);
    lemma_all_valid_concat(iv + middle, auth_length);
    let setup = spec_setup_commands(job);
    assert(spec_all_valid(setup));

    let dma0_auth = spec_write_dma0(DmaBuffer::AuthData, job.auth_len);
    let read = seq![AesCommand::Read { reg: AesReg::CtrlIntStat }];
    lemma_all_valid_concat(dma0_auth, read);
    lemma_all_valid_concat(setup, spec_auth_data_commands(job));

    let dma0 = spec_write_dma0(DmaBuffer::Input, job.in_len);
    let dma1 = spec_write_dma1(DmaBuffer::Output, job.out_len);
    lemma_all_valid_concat(dma0, dma1);
    lemma_all_valid_concat(dma0, Seq::empty());
    let transfer = spec_transfer_commands(job);
    assert(spec_all_valid(transfer));
    let wait = seq![
        AesCommand::WaitSet {
            reg: AesReg::CtrlIntStat,
            mask: INT_DMA_BUS_ERR | INT_KEY_ST_RD_ERR | INT_KEY_ST_WR_ERR | INT_RESULT_AV,
        },
    ];
    let tag = spec_tag_commands(job);
    lemma_all_valid_concat(transfer, wait);
    lemma_all_valid_concat(transfer + wait, tag);
    let payload = spec_payload_commands(job);
    assert(spec_all_valid(payload));
    lemma_all_valid_concat(setup, payload);
    lemma_all_valid_concat(
        seq![AesCommand::Write { reg: AesReg::CtrlIntClr, value: INT_DMA_IN_DONE }],
        payload,
    );
}

/// The accesses of a key load end with the reading that its next step
/// takes: every list of a step that goes on ends with a command that
/// reports a value.
pub proof fn lemma_load_key_reports(key_store_size: u32, keys: AesKeys, job: KeyLoad, reading: u32)
    ensures
        spec_reports(spec_load_key_commands(key_store_size, keys).last()),
        spec_load_key_step(job, reading).2 == Progress::Pending ==> spec_reports(
            spec_load_key_step(job, reading).1.last(),
        ),
{
}

/// The accesses that set the engine up for a cipher operation report
/// nothing.
proof fn lemma_setup_reports_nothing(job: AuthCrypt)
    ensures
        spec_report_count(spec_setup_commands(job)) == 0,
{
    let iv = spec_iv_commands(job);
    let middle = seq![
        spec_control_command(job.control),
        AesCommand::Write { reg: AesReg::AesCLength0, value: spec_low32(job.in_len) },
        AesCommand::Write { reg: AesReg::AesCLength1, value: 0 },
    ];
    let auth_length = spec_auth_length_commands(job);
    assert(spec_report_count(iv) == 0) by {
        reveal_with_fuel(spec_report_count, 5);
    }
    assert(spec_report_count(middle) == 0) by {
        reveal_with_fuel(spec_report_count, 4);
    }
    assert(spec_report_count(auth_length) == 0) by {
        reveal_with_fuel(spec_report_count, 2);
    }
    lemma_report_count_concat(iv, middle);
    lemma_report_count_concat(iv + middle, auth_length);
}

/// The accesses of a DMA transfer report nothing.
proof fn lemma_dma_reports_nothing(buffer: DmaBuffer, len: usize)
    ensures
        spec_report_count(spec_write_dma0(buffer, len)) == 0,
        spec_report_count(spec_write_dma1(buffer, len)) == 0,
{
    reveal_with_fuel(spec_report_count, 5);
}

/// The accesses that move the data of a cipher operation and wait for the
/// engine report the four words of the tag where the operation leaves one,
/// and nothing otherwise.
proof fn lemma_payload_reports(job: AuthCrypt)
    ensures
        spec_report_count(spec_payload_commands(job)) == if spec_gives_tag(job.control) {
            4nat
        } else {
            0nat
        },
{
    let dma0 = spec_write_dma0(DmaBuffer::Input, job.in_len);
    let dma1 = spec_write_dma1(DmaBuffer::Output, job.out_len);
    lemma_dma_reports_nothing(DmaBuffer::Input, job.in_len);
    lemma_dma_reports_nothing(DmaBuffer::Output, job.out_len);
    lemma_report_count_concat(dma0, dma1);
    lemma_report_count_concat(dma0, Seq::empty());
    let transfer = spec_transfer_commands(job);
    assert(spec_report_count(transfer) == 0);
    let wait = seq![
        AesCommand::WaitSet {
            reg: AesReg::CtrlIntStat,
            mask: INT_DMA_BUS_ERR | INT_KEY_ST_RD_ERR | INT_KEY_ST_WR_ERR | INT_RESULT_AV,
        },
    ];
    let tag = spec_tag_commands(job);
    assert(spec_report_count(wait) == 0) by {
        reveal_with_fuel(spec_report_count, 2);
    }
    assert(spec_report_count(tag) == if spec_gives_tag(job.control) {
        4nat
    } else {
        0nat
    }) by {
        reveal_with_fuel(spec_report_count, 5);
    }
    lemma_report_count_concat(transfer, wait);
    lemma_report_count_concat(transfer + wait, tag);
}

/// The accesses of a cipher operation end with the reading that its next
/// step takes: every list of a step that goes on ends with a command that
/// reports a value. The list of the last step reports the four words of
/// the tag where the operation leaves one, and nothing otherwise.
pub proof fn lemma_auth_crypt_reports(key_index: u32, job: AuthCrypt, reading: u32)
    ensures
        spec_reports(spec_auth_begin_commands(key_index).last()),
        spec_auth_crypt_step(job, reading).2 == Progress::Pending ==> spec_reports(
            spec_auth_crypt_step(job, reading).1.last(),
        ),
        spec_auth_crypt_step(job, reading).2 == Progress::Done && !(job.stage is Done)
            ==> spec_report_count(spec_auth_crypt_step(job, reading).1) == if spec_gives_tag(
            job.control,
        ) {
            4nat
        } else {
            0nat
        },
{
    let setup = spec_setup_commands(job);
    let payload = spec_payload_commands(job);
    let clear = seq![AesCommand::Write { reg: AesReg::CtrlIntClr, value: INT_DMA_IN_DONE }];
    lemma_setup_reports_nothing(job);
    lemma_payload_reports(job);
    assert(spec_report_count(clear) == 0) by {
        reveal_with_fuel(spec_report_count, 2);
    }
    lemma_report_count_concat(setup, payload);
    lemma_report_count_concat(clear, payload);
}

/// The initialization vector of an operation, as bytes; none where the
/// operation has none.
pub open spec fn spec_iv(job: AuthCrypt) -> Seq<u8> {
    match job.iv {
        Some(iv) => iv@,
        None => Seq::empty(),
    }
}

/// What a counter puts out for `input`: every byte of the input combined
/// with the byte of `keystream` in its place by exclusive or.
pub open spec fn spec_counter_output(keystream: Seq<u8>, input: Seq<u8>) -> Seq<u8> {
    Seq::new(input.len(), |i: int| input[i] ^ keystream[i])
}

/// What an engine in a counter mode puts out for `input` in the operation
/// `job`, with `keystream` as the function that gives the key stream of a
/// key area, an initialization vector and the control of the counter. The
/// direction of the operation has no part in it.
pub open spec fn spec_engine_output(
    keystream: spec_fn(u32, Seq<u8>, AesControl) -> Seq<u8>,
    key_index: u32,
    job: AuthCrypt,
    input: Seq<u8>,
) -> Seq<u8> {
    spec_counter_output(keystream(key_index, spec_iv(job), spec_encrypting(job.control)), input)
}

/// The control of the encryption in the mode and with the parameters of
/// `control`.
pub open spec fn spec_encrypting(control: AesControl) -> AesControl {
    match control {
        AesControl::Ctr { width, .. } => AesControl::Ctr { width, encrypt: true },
        AesControl::Ccm { m, l, .. } => AesControl::Ccm { m, l, encrypt: true },
    }
}

/// A counter gives its input back where it is applied twice with the same
/// key stream.
pub proof fn lemma_counter_twice(keystream: Seq<u8>, input: Seq<u8>)
    ensures
        spec_counter_output(keystream, spec_counter_output(keystream, input)) == input,
{
    assert forall|i: int| 0 <= i < input.len() implies spec_counter_output(
        keystream,
        spec_counter_output(keystream, input),
    )[i] == input[i] by {
        let x = input[i];
        let k = keystream[i];
        assert((x ^ k) ^ k == x) by (bit_vector);
    }
    assert(spec_counter_output(keystream, spec_counter_output(keystream, input)) =~= input);
}

/// A decryption gives back what the encryption was given, where the engine
/// is one of a counter mode and both operations were started with the same
/// key area, the same initialization vector and the same parameters of the
/// mode: the driver then sets the engine up for the same key stream.
pub proof fn lemma_round_trip(
    keystream: spec_fn(u32, Seq<u8>, AesControl) -> Seq<u8>,
    key_index: u32,
    encrypt: AuthCrypt,
    decrypt: AuthCrypt,
    plaintext: Seq<u8>,
)
    requires
        spec_iv(encrypt) == spec_iv(decrypt),
        spec_encrypting(encrypt.control) == spec_encrypting(decrypt.control),
    ensures
        spec_engine_output(
            keystream,
            key_index,
            decrypt,
            spec_engine_output(keystream, key_index, encrypt, plaintext),
        ) == plaintext,
{
    lemma_counter_twice(
        keystream(key_index, spec_iv(encrypt), spec_encrypting(encrypt.control)),
        plaintext,
    );
}

/// The start of a cipher operation is determined by what it is started
/// with: two starts with the same arguments are both refused, or give
/// operations with the same control, initialization vector and lengths, in
/// the same stage, and the same accesses.
pub proof fn lemma_auth_crypt_determined(
    first: Result<(AuthCrypt, AesStep), CryptoError>,
    second: Result<(AuthCrypt, AesStep), CryptoError>,
    alg_sel: u32,
    control: AesControl,
    key_index: u32,
    iv: Option<Seq<u8>>,
    auth_len: nat,
    in_len: nat,
    out_len: nat,
)
    requires
        spec_auth_crypt(first, alg_sel, control, key_index, iv, auth_len, in_len, out_len),
        spec_auth_crypt(second, alg_sel, control, key_index, iv, auth_len, in_len, out_len),
    ensures
        match (first, second) {
            (Ok(first), Ok(second)) => {
                &&& first.0.control == second.0.control
                &&& spec_iv(first.0) == spec_iv(second.0)
                &&& (first.0.iv is Some <==> second.0.iv is Some)
                &&& first.0.auth_len == second.0.auth_len
                &&& first.0.in_len == second.0.in_len
                &&& first.0.out_len == second.0.out_len
                &&& first.0.stage == second.0.stage
                &&& first.1.progress == second.1.progress
                &&& first.1.commands@ == second.1.commands@
            },
            (Err(first), Err(second)) => first == second,
            _ => false,
        },
{
}

/// A failure is never taken back: a step on a key load or on a cipher
/// operation that has failed asks for no access, reports the same failure
/// again and leaves the job failed, whatever it is answered. No later step
/// of a failed job reports success.
pub proof fn lemma_failure_stays(load: KeyLoad, job: AuthCrypt, e: CryptoError, reading: u32)
    ensures
        load.stage == KeyLoadStage::Failed(e) ==> spec_load_key_step(load, reading) == (
            KeyLoadStage::Failed(e),
            Seq::<AesCommand>::empty(),
            Progress::Failed(e),
        ),
        job.stage == AuthStage::Failed(e) ==> spec_auth_crypt_step(job, reading) == (
            AuthStage::Failed(e),
            Seq::<AesCommand>::empty(),
            Progress::Failed(e),
        ),
{
}

/// The steps of two cipher operations that hold the same and are answered
/// the same are the same: they ask for the same accesses, among them those
/// that read the tag, and go on in the same way.
pub proof fn lemma_auth_crypt_step_determined(first: AuthCrypt, second: AuthCrypt, reading: u32)
    requires
        first.control == second.control,
        spec_iv(first) == spec_iv(second),
        first.iv is Some <==> second.iv is Some,
        first.auth_len == second.auth_len,
        first.in_len == second.in_len,
        first.out_len == second.out_len,
        first.stage == second.stage,
    ensures
        spec_auth_crypt_step(first, reading) == spec_auth_crypt_step(second, reading),
{
    assert(spec_iv_commands(first) == spec_iv_commands(second));
    assert(spec_setup_commands(first) == spec_setup_commands(second));
    assert(spec_auth_data_commands(first) == spec_auth_data_commands(second));
    assert(spec_transfer_commands(first) == spec_transfer_commands(second));
    assert(spec_tag_commands(first) == spec_tag_commands(second));
    assert(spec_payload_commands(first) == spec_payload_commands(second));
}

/// The low 32 bits of `len`.
fn low32(len: usize) -> (low: u32)
    ensures
        low == spec_low32(len),
{
    (len as u64 % 0x1_0000_0000) as u32
}

/// The low 16 bits of `len`.
fn low16(len: usize) -> (low: u32)
    ensures
        low == spec_low16(len),
{
    (len as u64 % 0x1_0000) as u32
}

/// The bit of the control register that tells the direction.
fn direction(encrypt: bool) -> (bits: u32)
    ensures
        bits == spec_direction(encrypt),
{
    if encrypt {
        AES_CTRL_DIRECTION
    } else {
        0
    }
}

/// The areas `start .. start + count` of the key store, one bit each.
fn areas(count: u8, start: u8) -> (areas: u32)
    requires
        count <= 8,
        start <= 8,
    ensures
        areas == spec_areas(count, start),
{
    let c: u32 = count as u32;
    let s: u32 = start as u32;
    assert((1u32 << c) >= 1) by (bit_vector)
        requires
            c <= 8,
    ;
    ((1u32 << c) - 1) << s
}

/// Bit `i` of the areas `start .. start + count` is set where
/// `start <= i < start + count`, and nowhere else.
pub proof fn lemma_areas_bits(count: u8, start: u8, i: u32)
    requires
        start + count <= 8,
        i < 32,
    ensures
        ((spec_areas(count, start) >> i) & 1 == 1) <==> (start <= i < start + count),
{
    let c: u32 = count as u32;
    let s: u32 = start as u32;
    assert((1u32 << c) >= 1) by (bit_vector)
        requires
            c <= 8,
    ;
    assert((((((1u32 << c) - 1) as u32) << s) >> i) & 1 == 1 <==> (s <= i && i < s + c))
        by (bit_vector)
        requires
            s + c <= 8,
            i < 32,
    ;
}

impl AuthCrypt {
    /// Appends the accesses that send `len` bytes of `buffer` through DMA
    /// channel 0.
    fn push_dma0(commands: &mut Vec<AesCommand>, buffer: DmaBuffer, len: usize)
        ensures
            final(commands)@ == old(commands)@ + spec_write_dma0(buffer, len),
    {
        commands.push(AesCommand::Modify { reg: AesReg::DmacCh0Ctrl, clear: 0, set: DMAC_CH_CTRL_EN });
        commands.push(AesCommand::Point { reg: AesReg::DmacCh0Extaddr, buffer });
        commands.push(
            AesCommand::Modify {
                reg: AesReg::DmacCh0Dmalength,
                clear: DMAC_DMALENGTH_MASK,
                set: low16(len),
            },
        );
        commands.push(AesCommand::WaitSet { reg: AesReg::CtrlIntStat, mask: INT_DMA_IN_DONE });
        assert(commands@ =~= old(commands)@ + spec_write_dma0(buffer, len));
    }

    /// Appends the accesses that let DMA channel 1 fill `len` bytes of
    /// `buffer`.
    fn push_dma1(commands: &mut Vec<AesCommand>, buffer: DmaBuffer, len: usize)
        ensures
            final(commands)@ == old(commands)@ + spec_write_dma1(buffer, len),
    {
        commands.push(AesCommand::Modify { reg: AesReg::DmacCh1Ctrl, clear: 0, set: DMAC_CH_CTRL_EN });
        commands.push(AesCommand::Point { reg: AesReg::DmacCh1Extaddr, buffer });
        commands.push(
            AesCommand::Modify {
                reg: AesReg::DmacCh1Dmalength,
                clear: DMAC_DMALENGTH_MASK,
                set: low16(len),
            },
        );
        commands.push(AesCommand::WaitSet { reg: AesReg::CtrlIntStat, mask: INT_DMA_IN_DONE });
        assert(commands@ =~= old(commands)@ + spec_write_dma1(buffer, len));
    }

    /// Whether the mode of the operation takes associated data.
    fn authenticated(&self) -> (b: bool)
        ensures
            b == spec_authenticated(self.control),
    {
        match self.control {
            AesControl::Ctr { .. } => false,
            AesControl::Ccm { .. } => true,
        }
    }

    /// Whether the operation leaves an authentication tag to read.
    pub fn gives_tag(&self) -> (b: bool)
        ensures
            b == spec_gives_tag(self.control),
    {
        match self.control {
            AesControl::Ctr { .. } => false,
            AesControl::Ccm { encrypt, .. } => encrypt,
        }
    }

    /// The access that sets the control register.
    fn control_command(&self) -> (command: AesCommand)
        ensures
            command == spec_control_command(self.control),
    {
        match self.control {
            AesControl::Ctr { width, encrypt } => AesCommand::Write {
                reg: AesReg::AesCtrl,
                value: (((width as u32) << 7) & AES_CTRL_CTR_WIDTH_MASK) | AES_CTRL_CTR
                    | direction(encrypt),
            },
            AesControl::Ccm { m, l, encrypt } => AesCommand::Modify {
                reg: AesReg::AesCtrl,
                clear: AES_CTRL_SAVE_CONTEXT | AES_CTRL_CCM_M_MASK | AES_CTRL_CCM_L_MASK
                    | AES_CTRL_CCM | AES_CTRL_CTR_WIDTH_MASK | AES_CTRL_CTR | AES_CTRL_DIRECTION,
                set: AES_CTRL_SAVE_CONTEXT | (((m as u32) << 22) & AES_CTRL_CCM_M_MASK) | (((
                l as u32) << 19) & AES_CTRL_CCM_L_MASK) | AES_CTRL_CCM | (((
                CtrWidth::Width128.bits() as u32) << 7) & AES_CTRL_CTR_WIDTH_MASK) | AES_CTRL_CTR
                    | direction(encrypt),
            },
        }
    }

    /// Appends the accesses that set the engine up for the operation.
    fn push_setup(&self, commands: &mut Vec<AesCommand>)
        ensures
            final(commands)@ == old(commands)@ + spec_setup_commands(*self),
    {
        match &self.iv {
            Some(iv) => {
                commands.push(AesCommand::Write { reg: AesReg::AesIv0, value: word_at(iv.as_slice(), 0) });
                commands.push(AesCommand::Write { reg: AesReg::AesIv1, value: word_at(iv.as_slice(), 4) });
                commands.push(AesCommand::Write { reg: AesReg::AesIv2, value: word_at(iv.as_slice(), 8) });
                commands.push(
                    AesCommand::Write { reg: AesReg::AesIv3, value: word_at(iv.as_slice(), 12) },
                );
            },
            None => {},
        }
        assert(commands@ =~= old(commands)@ + spec_iv_commands(*self));
        commands.push(self.control_command());
        commands.push(AesCommand::Write { reg: AesReg::AesCLength0, value: low32(self.in_len) });
        commands.push(AesCommand::Write { reg: AesReg::AesCLength1, value: 0 });
        if self.authenticated() {
            commands.push(
                AesCommand::Write { reg: AesReg::AesAuthLength, value: low32(self.auth_len) },
            );
        }
        assert(commands@ =~= old(commands)@ + spec_setup_commands(*self));
    }

    /// Appends the accesses that move the data and wait for the engine.
    fn push_payload(&self, commands: &mut Vec<AesCommand>)
        ensures
            final(commands)@ == old(commands)@ + spec_payload_commands(*self),
    {
        if self.in_len > 0 {
            Self::push_dma0(commands, DmaBuffer::Input, self.in_len);
            if self.out_len > 0 {
                Self::push_dma1(commands, DmaBuffer::Output, self.out_len);
            }
        }
        assert(commands@ =~= old(commands)@ + spec_transfer_commands(*self));
        commands.push(
            AesCommand::WaitSet {
                reg: AesReg::CtrlIntStat,
                mask: INT_DMA_BUS_ERR | INT_KEY_ST_RD_ERR | INT_KEY_ST_WR_ERR | INT_RESULT_AV,
            },
        );
        if self.gives_tag() {
            commands.push(AesCommand::Read { reg: AesReg::AesTagOut0 });
            commands.push(AesCommand::Read { reg: AesReg::AesTagOut1 });
            commands.push(AesCommand::Read { reg: AesReg::AesTagOut2 });
            commands.push(AesCommand::Read { reg: AesReg::AesTagOut3 });
        }
        assert(commands@ =~= old(commands)@ + spec_payload_commands(*self));
    }
}

impl Crypto<AesEngine<NotSpecified>> {
    /// Use the AES engine in counter mode.
    pub fn ctr_mode(self) -> (crypto: Crypto<AesEngine<AesCtr>>)
        ensures
            crypto@ == self@,
    {
        self.select()
    }

    /// Use the AES engine in CBC mode.
    pub fn cbc_mode(self) -> (crypto: Crypto<AesEngine<AesCbc>>)
        ensures
            crypto@ == self@,
    {
        self.select()
    }

    /// Use the AES engine in CBC-MAC mode.
    pub fn cbc_mac_mode(self) -> (crypto: Crypto<AesEngine<AesCbcMac>>)
        ensures
            crypto@ == self@,
    {
        self.select()
    }

    /// Use the AES engine in ECB mode.
    pub fn ecb_mode(self) -> (crypto: Crypto<AesEngine<AesEcb>>)
        ensures
            crypto@ == self@,
    {
        self.select()
    }

    /// Use the AES engine in GCM mode.
    pub fn gcm_mode(self) -> (crypto: Crypto<AesEngine<AesGcm>>)
        ensures
            crypto@ == self@,
    {
        self.select()
    }

    /// Use the AES engine in CCM mode.
    pub fn ccm_mode(self) -> (crypto: Crypto<AesEngine<AesCcm>>)
        ensures
            crypto@ == self@,
    {
        self.select()
    }
}

impl<Type> Crypto<AesEngine<Type>> {
    /// Workaround for AES registers not retained after PM2.
    pub fn workaround(&mut self) -> (commands: Vec<AesCommand>)
        ensures
            final(self)@ == old(self)@,
            commands@ == spec_workaround_commands(),
    {
        let mut commands: Vec<AesCommand> = Vec::new();
        commands.push(AesCommand::Write { reg: AesReg::CtrlIntCfg, value: INT_CFG_LEVEL });
        commands.push(
            AesCommand::Write { reg: AesReg::CtrlIntEn, value: INT_DMA_IN_DONE | INT_RESULT_AV },
        );
        assert(commands@ =~= spec_workaround_commands());
        commands
    }

    /// The access that selects the algorithm of `mode`.
    pub fn set_mode(&mut self, mode: CryptoMode) -> (command: AesCommand)
        ensures
            final(self)@ == old(self)@,
            command == (AesCommand::Write {
                reg: AesReg::CtrlAlgSel,
                value: spec_mode_alg_sel(mode),
            }),
    {
        let value: u32 = match mode {
            CryptoMode::StoreKeys => ALG_SEL_KEYSTORE,
            CryptoMode::HashAndTag => ALG_SEL_TAG | ALG_SEL_HASH,
            CryptoMode::Tag => ALG_SEL_TAG,
            CryptoMode::Hash => ALG_SEL_HASH,
            CryptoMode::Aes => ALG_SEL_AES,
        };
        AesCommand::Write { reg: AesReg::CtrlAlgSel, value }
    }

    /// Returns `true` when all keys are loaded into the AES engine, from
    /// the value of the register that selects the key.
    pub fn key_is_set(&self, key_store_read_area: u32) -> (set: bool)
        ensures
            set == (key_store_read_area & KEY_STORE_READ_AREA_BUSY == 0),
    {
        key_store_read_area & KEY_STORE_READ_AREA_BUSY == 0
    }

    /// Returns `true` when there was an error when loading the key to the
    /// AES engine, from the value of the interrupt status register.
    pub fn key_load_error(&self, int_stat: u32) -> (error: bool)
        ensures
            error == (int_stat & INT_KEY_ST_RD_ERR != 0),
    {
        int_stat & INT_KEY_ST_RD_ERR != 0
    }

    /// Lists the accesses that send `data` to the engine through DMA
    /// channel 0 and wait for the end of the transfer.
    pub fn write_dma0(&mut self, buffer: DmaBuffer, data: &[u8]) -> (commands: Vec<AesCommand>)
        ensures
            final(self)@ == old(self)@,
            commands@ == spec_write_dma0(buffer, data@.len() as usize),
    {
        let mut commands: Vec<AesCommand> = Vec::new();
        AuthCrypt::push_dma0(&mut commands, buffer, data.len());
        assert(commands@ =~= spec_write_dma0(buffer, data@.len() as usize));
        commands
    }

    /// Lists the accesses that let DMA channel 1 fill `data`.
    pub fn write_dma1(&mut self, buffer: DmaBuffer, data: &[u8]) -> (commands: Vec<AesCommand>)
        ensures
            final(self)@ == old(self)@,
            commands@ == spec_write_dma1(buffer, data@.len() as usize),
    {
        let mut commands: Vec<AesCommand> = Vec::new();
        AuthCrypt::push_dma1(&mut commands, buffer, data.len());
        assert(commands@ =~= spec_write_dma1(buffer, data@.len() as usize));
        commands
    }

    /// Set the IV in the AES engine: lists the accesses that store the 16
    /// bytes of `iv` in the registers of the initialization vector.
    pub fn write_iv(&mut self, iv: &[u8]) -> (commands: Vec<AesCommand>)
        requires
            iv@.len() == 16,
        ensures
            final(self)@ == old(self)@,
            commands@ == spec_write_iv(iv@),
    {
        let mut commands: Vec<AesCommand> = Vec::new();
        commands.push(AesCommand::Write { reg: AesReg::AesIv0, value: word_at(iv, 0) });
        commands.push(AesCommand::Write { reg: AesReg::AesIv1, value: word_at(iv, 4) });
        commands.push(AesCommand::Write { reg: AesReg::AesIv2, value: word_at(iv, 8) });
        commands.push(AesCommand::Write { reg: AesReg::AesIv3, value: word_at(iv, 12) });
        assert(commands@ =~= spec_write_iv(iv@));
        commands
    }

    /// Writes the authentication tag to `tag`, from the four words `words`
    /// that the tag registers gave.
    pub fn read_tag(&mut self, words: [u32; 4], tag: &mut [u8])
        requires
            old(tag)@.len() == 16,
        ensures
            final(self)@ == old(self)@,
            final(tag)@ == spec_words_bytes(words@),
    {
        words_to_bytes(words.as_slice(), tag);
    }

    /// Load a key into AES key RAM: starts the transfer of `aes_keys` to
    /// the key store.
    ///
    /// `alg_sel` is the value of the algorithm selection register and
    /// `key_store_size` that of the key size register. Where the engine is
    /// in use, the load is refused with `AesBusy` and nothing is asked of
    /// the engine. Where the key store holds keys of another size, the
    /// size is set, which erases the keys that the store holds.
    pub fn load_key(&mut self, alg_sel: u32, key_store_size: u32, aes_keys: &AesKeys) -> (r:
        Result<(KeyLoad, AesStep), CryptoError>)
        requires
            alg_sel == 0 ==> aes_keys.wf(),
        ensures
            final(self)@ == old(self)@,
            alg_sel != 0 ==> (r matches Err(e) && e == CryptoError::AesBusy),
            alg_sel == 0 ==> (r matches Ok(started) && {
                &&& started.0.areas == spec_areas(aes_keys.count, aes_keys.start_area)
                &&& started.0.stage == KeyLoadStage::Transfer
                &&& started.1.progress == Progress::Pending
                &&& started.1.commands@ == spec_load_key_commands(key_store_size, *aes_keys)
            }),
    {
        if self.is_aes_in_use(alg_sel) {
            return Err(CryptoError::AesBusy);
        }
        let areas = areas(aes_keys.count, aes_keys.start_area);
        let mut commands = self.workaround();
        // Configure the master module.
        let mode = self.set_mode(CryptoMode::StoreKeys);
        commands.push(mode);
        // Clear any outstanding events.
        commands.push(AesCommand::Write { reg: AesReg::CtrlIntClr, value: INT_RESULT_AV });
        let ghost head = commands@;
        // Writing to key_store_size deletes all keys.
        let bits = aes_keys.sizes.bits();
        if key_store_size & KEY_STORE_SIZE_MASK != bits {
            commands.push(
                AesCommand::Modify {
                    reg: AesReg::KeyStoreSize,
                    clear: KEY_STORE_SIZE_MASK,
                    set: bits,
                },
            );
        }
        let ghost sized = commands@;
        assert(sized =~= head + spec_key_size_commands(key_store_size, *aes_keys));
        // Free possibly already occupied key areas.
        commands.push(AesCommand::Write { reg: AesReg::KeyStoreWrittenArea, value: areas });
        // Enable key areas to write.
        commands.push(AesCommand::Write { reg: AesReg::KeyStoreWriteArea, value: areas });
        commands.push(AesCommand::Write { reg: AesReg::DmacCh0Ctrl, value: DMAC_CH_CTRL_EN });
        commands.push(AesCommand::Point { reg: AesReg::DmacCh0Extaddr, buffer: DmaBuffer::Keys });
        commands.push(
            AesCommand::Write { reg: AesReg::DmacCh0Dmalength, value: 16 * (aes_keys.count as u32) },
        );
        commands.push(AesCommand::WaitSet { reg: AesReg::CtrlIntStat, mask: INT_RESULT_AV });
        commands.push(AesCommand::Read { reg: AesReg::CtrlIntStat });
        proof {
            assert(commands@ =~= sized + spec_key_transfer_commands(areas, aes_keys.count));
            assert(commands@ =~= spec_load_key_commands(key_store_size, *aes_keys));
        }
        Ok(
            (
                KeyLoad { areas, stage: KeyLoadStage::Transfer },
                AesStep { commands, progress: Progress::Pending },
            ),
        )
    }

    /// Goes on with a key load from `reading`, the value that the last
    /// access of the step before reported: the interrupt status after the
    /// transfer, then the areas that the key store has written.
    ///
    /// An error of the transfer is cleared and ends the load. The load
    /// fails too where an area that the keys went to is not written.
    pub fn load_key_step(&mut self, job: &mut KeyLoad, reading: u32) -> (step: AesStep)
        ensures
            final(self)@ == old(self)@,
            final(job).areas == old(job).areas,
            final(job).stage == spec_load_key_step(*old(job), reading).0,
            step.commands@ == spec_load_key_step(*old(job), reading).1,
            step.progress == spec_load_key_step(*old(job), reading).2,
    {
        let mut commands: Vec<AesCommand> = Vec::new();
        match job.stage {
            KeyLoadStage::Transfer => {
                if reading & INT_DMA_BUS_ERR != 0 {
                    // Clear the error.
                    job.stage = KeyLoadStage::Failed(CryptoError::DmaError);
                    commands.push(AesCommand::Write { reg: AesReg::CtrlIntClr, value: INT_DMA_BUS_ERR });
                    assert(commands@ =~= spec_load_key_step(*old(job), reading).1);
                    AesStep { commands, progress: Progress::Failed(CryptoError::DmaError) }
                } else if reading & INT_KEY_ST_WR_ERR != 0 {
                    // Clear the error.
                    job.stage = KeyLoadStage::Failed(CryptoError::KeyStoreError);
                    commands.push(
                        AesCommand::Write { reg: AesReg::CtrlIntClr, value: INT_KEY_ST_WR_ERR },
                    );
                    assert(commands@ =~= spec_load_key_step(*old(job), reading).1);
                    AesStep { commands, progress: Progress::Failed(CryptoError::KeyStoreError) }
                } else {
                    commands.push(
                        AesCommand::Write {
                            reg: AesReg::CtrlIntClr,
                            value: INT_DMA_IN_DONE | INT_RESULT_AV,
                        },
                    );
                    commands.push(AesCommand::Write { reg: AesReg::CtrlAlgSel, value: 0 });
                    commands.push(AesCommand::Read { reg: AesReg::KeyStoreWrittenArea });
                    job.stage = KeyLoadStage::Verify;
                    assert(commands@ =~= spec_load_key_step(*old(job), reading).1);
                    AesStep { commands, progress: Progress::Pending }
                }
            },
            KeyLoadStage::Verify => {
                if reading & job.areas != job.areas {
                    job.stage = KeyLoadStage::Failed(CryptoError::KeyStoreError);
                    AesStep { commands, progress: Progress::Failed(CryptoError::KeyStoreError) }
                } else {
                    job.stage = KeyLoadStage::Done;
                    AesStep { commands, progress: Progress::Done }
                }
            },
            KeyLoadStage::Done => AesStep { commands, progress: Progress::Done },
            KeyLoadStage::Failed(e) => AesStep { commands, progress: Progress::Failed(e) },
        }
    }

    /// Starts an operation of the cipher under `control` with the key of
    /// area `key_index`: selects the engine and asks for the key, unless
    /// `alg_sel`, the value of the algorithm selection register, shows that
    /// the engine is in use.
    ///
    /// The associated data counts only in the modes that take any.
    pub fn auth_crypt(
        &mut self,
        alg_sel: u32,
        control: AesControl,
        key_index: u32,
        iv: Option<&[u8]>,
        adata: Option<&[u8]>,
        data_in: &[u8],
        data_out: &[u8],
    ) -> (r: Result<(AuthCrypt, AesStep), CryptoError>)
        requires
            alg_sel == 0 ==> (iv matches Some(iv) ==> iv@.len() == 16),
        ensures
            final(self)@ == old(self)@,
            spec_auth_crypt(
                r,
                alg_sel,
                control,
                key_index,
                match iv {
                    Some(iv) => Some(iv@),
                    None => None,
                },
                match adata {
                    Some(adata) => adata@.len(),
                    None => 0,
                },
                data_in@.len(),
                data_out@.len(),
            ),
    {
        if self.is_aes_in_use(alg_sel) {
            return Err(CryptoError::AesBusy);
        }
        let iv = match iv {
            Some(iv) => {
                let mut a = [0u8; 16];
                copy_bytes(&mut a, 0, iv);
                assert(a@ =~= iv@);
                Some(a)
            },
            None => None,
        };
        let auth_len = match adata {
            Some(adata) => adata.len(),
            None => 0,
        };
        let job = AuthCrypt {
            control,
            iv,
            auth_len,
            in_len: data_in.len(),
            out_len: data_out.len(),
            stage: AuthStage::KeyLoad,
        };
        let mut commands: Vec<AesCommand> = Vec::new();
        // Enable the DMA path to the AES engine.
        commands.push(AesCommand::Modify { reg: AesReg::CtrlAlgSel, clear: 0, set: ALG_SEL_AES });
        // Clear any outstanding events.
        commands.push(
            AesCommand::Write { reg: AesReg::CtrlIntClr, value: INT_DMA_IN_DONE | INT_RESULT_AV },
        );
        // Preload the key from the key RAM and wait until it is there.
        commands.push(AesCommand::Write { reg: AesReg::KeyStoreReadArea, value: key_index });
        commands.push(
            AesCommand::WaitClear { reg: AesReg::KeyStoreReadArea, mask: KEY_STORE_READ_AREA_BUSY },
        );
        commands.push(AesCommand::Read { reg: AesReg::CtrlIntStat });
        assert(commands@ =~= spec_auth_begin_commands(key_index));
        Ok((job, AesStep { commands, progress: Progress::Pending }))
    }

    /// Goes on with an operation of the cipher from `reading`, the
    /// interrupt status that the last access of the step before reported.
    ///
    /// Once the key is loaded, the engine is set up and the data is moved:
    /// the associated data first, where there is any, then the input and
    /// the output. An error in loading the key, or on the bus while the
    /// associated data is sent, ends the operation.
    pub fn auth_crypt_step(&mut self, job: &mut AuthCrypt, reading: u32) -> (step: AesStep)
        ensures
            final(self)@ == old(self)@,
            *final(job) == (AuthCrypt { stage: spec_auth_crypt_step(*old(job), reading).0, ..*old(job) }),
            step.commands@ == spec_auth_crypt_step(*old(job), reading).1,
            step.progress == spec_auth_crypt_step(*old(job), reading).2,
    {
        let mut commands: Vec<AesCommand> = Vec::new();
        match job.stage {
            AuthStage::KeyLoad => {
                if self.key_load_error(reading) {
                    job.stage = AuthStage::Failed(CryptoError::KeyStoreError);
                    return AesStep { commands, progress: Progress::Failed(CryptoError::KeyStoreError) };
                }
                job.stage = AuthStage::Done;
                job.push_setup(&mut commands);
                if job.authenticated() && job.auth_len > 0 {
                    AuthCrypt::push_dma0(&mut commands, DmaBuffer::AuthData, job.auth_len);
                    commands.push(AesCommand::Read { reg: AesReg::CtrlIntStat });
                    job.stage = AuthStage::AuthData;
                    assert(commands@ =~= spec_setup_commands(*old(job)) + spec_auth_data_commands(
                        *old(job),
                    ));
                    AesStep { commands, progress: Progress::Pending }
                } else {
                    job.push_payload(&mut commands);
                    assert(commands@ =~= spec_setup_commands(*old(job)) + spec_payload_commands(
                        *old(job),
                    ));
                    AesStep { commands, progress: Progress::Done }
                }
            },
            AuthStage::AuthData => {
                if reading & INT_DMA_BUS_ERR != 0 {
                    job.stage = AuthStage::Failed(CryptoError::DmaError);
                    return AesStep { commands, progress: Progress::Failed(CryptoError::DmaError) };
                }
                job.stage = AuthStage::Done;
                commands.push(AesCommand::Write { reg: AesReg::CtrlIntClr, value: INT_DMA_IN_DONE });
                job.push_payload(&mut commands);
                assert(commands@ =~= seq![
                    AesCommand::Write { reg: AesReg::CtrlIntClr, value: INT_DMA_IN_DONE },
                ] + spec_payload_commands(*old(job)));
                AesStep { commands, progress: Progress::Done }
            },
            AuthStage::Done => AesStep { commands, progress: Progress::Done },
            AuthStage::Failed(e) => AesStep { commands, progress: Progress::Failed(e) },
        }
    }
}

} // verus!
