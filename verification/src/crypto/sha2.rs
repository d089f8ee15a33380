//! SHA-256 on the hash engine.
//!
//! A message is hashed block by block. The engine hashes the first block in
//! a new session and every later block in a session that is resumed from the
//! digest of the blocks before it. With the last block the engine receives
//! the length of the whole message and pads the block itself.

use crate::crypto::regs::{
    lemma_all_valid_concat, lemma_report_count_concat, spec_all_valid, spec_report_count,
    AesCommand, AesReg, AesStep, DmaBuffer, Progress,
    ALG_SEL_HASH, ALG_SEL_TAG, DMAC_CH_CTRL_EN,
    HASH_IO_BUF_OUTPUT_FULL, HASH_IO_BUF_PAD_DMA_MESSAGE, HASH_MODE_NEW_HASH, HASH_MODE_SHA256,
    INT_CFG_LEVEL, INT_DMA_IN_DONE, INT_RESULT_AV,
};
use crate::crypto::words::{spec_words_bytes, words_to_bytes};
use crate::crypto::{Crypto, CryptoError};
use vstd::prelude::*;

verus! {

/// State of an engine that was selected for SHA-256.
pub struct Sha256Engine {}

/// Size of a block of the hash in bytes.
pub const BLOCK_SIZE: usize = 64;

/// Size of the digest in bytes.
pub const OUTPUT_LEN: usize = 32;

/// State of a hash between two blocks.
#[derive(Debug, Clone, Copy)]
pub struct Sha256State {
    length: u64,
    state: [u32; 8],
    curlen: u32,
    buf: [u8; 64],
    new_digest: bool,
    final_digest: bool,
}

/// What a [`Sha256State`] holds.
pub struct Sha256View {
    /// Number of bits of the message that the engine was told of.
    pub length: nat,
    /// The digest of the blocks hashed so far, as eight words.
    pub digest: Seq<u32>,
    /// The bytes of the block that waits for the engine.
    pub pending: Seq<u8>,
    /// No block was hashed yet.
    pub new_digest: bool,
    /// The pending block is the last one of the message.
    pub final_digest: bool,
}

/// Number of blocks in which a message of `len` bytes is hashed.
pub open spec fn spec_block_count(len: nat) -> int {
    (len as int + 63) / 64
}

/// Block `i` of the message `data`: 64 bytes, but for the last block, which
/// holds the 1 to 64 bytes that are left.
pub open spec fn spec_block(data: Seq<u8>, i: int) -> Seq<u8> {
    data.subrange(
        64 * i,
        if 64 * (i + 1) <= data.len() {
            64 * (i + 1)
        } else {
            data.len() as int
        },
    )
}

/// The low 32 bits of a length in bits.
pub open spec fn spec_length_low(length: nat) -> u32 {
    (length % 0x1_0000_0000) as u32
}

/// The bits 32 to 63 of a length in bits.
pub open spec fn spec_length_high(length: nat) -> u32 {
    ((length / 0x1_0000_0000) % 0x1_0000_0000) as u32
}

/// The accesses that tell the engine the length of the message.
pub open spec fn spec_length_commands(v: Sha256View) -> Seq<AesCommand> {
    if v.final_digest {
        seq![
            AesCommand::Write { reg: AesReg::HashLengthInL, value: spec_length_low(v.length) },
            AesCommand::Write { reg: AesReg::HashLengthInH, value: spec_length_high(v.length) },
        ]
    } else {
        seq![]
    }
}

/// The access that asks the engine to pad the block.
pub open spec fn spec_pad_commands(v: Sha256View) -> Seq<AesCommand> {
    if v.final_digest {
        seq![
            AesCommand::Write { reg: AesReg::HashIoBufCtrl, value: HASH_IO_BUF_PAD_DMA_MESSAGE },
        ]
    } else {
        seq![]
    }
}

/// The accesses that send the pending block through DMA channel 0.
pub open spec fn spec_block_commands(v: Sha256View) -> Seq<AesCommand> {
    seq![
        AesCommand::Write { reg: AesReg::DmacCh0Ctrl, value: DMAC_CH_CTRL_EN },
        AesCommand::Point { reg: AesReg::DmacCh0Extaddr, buffer: DmaBuffer::Block },
        AesCommand::Write {
            reg: AesReg::DmacCh0Dmalength,
            value: if v.final_digest {
                v.pending.len() as u32
            } else {
                64u32
            },
        },
    ]
}

/// The accesses that begin every hash operation: they set up the
/// interrupts, select the algorithm with `alg_sel`, clear what is pending
/// and set the hash mode to `mode`.
pub open spec fn spec_hash_begin_commands(alg_sel: u32, mode: u32) -> Seq<AesCommand> {
    seq![
        AesCommand::Write { reg: AesReg::CtrlIntCfg, value: INT_CFG_LEVEL },
        AesCommand::Write { reg: AesReg::CtrlIntEn, value: INT_DMA_IN_DONE | INT_RESULT_AV },
        AesCommand::Write { reg: AesReg::CtrlAlgSel, value: alg_sel },
        AesCommand::Write { reg: AesReg::CtrlIntClr, value: INT_RESULT_AV },
        AesCommand::Write { reg: AesReg::HashModeIn, value: mode },
    ]
}

/// The accesses that bring the digest out through DMA channel 1, wait for
/// the engine and report the digest word by word.
pub open spec fn spec_digest_dma_commands() -> Seq<AesCommand> {
    seq![
        AesCommand::Write { reg: AesReg::DmacCh1Ctrl, value: DMAC_CH_CTRL_EN },
        AesCommand::Point { reg: AesReg::DmacCh1Extaddr, buffer: DmaBuffer::Digest },
        AesCommand::Write { reg: AesReg::DmacCh1Dmalength, value: 32 },
        AesCommand::WaitSet { reg: AesReg::CtrlIntStat, mask: INT_RESULT_AV },
        AesCommand::Fetch { buffer: DmaBuffer::Digest, word: 0 },
        AesCommand::Fetch { buffer: DmaBuffer::Digest, word: 1 },
        AesCommand::Fetch { buffer: DmaBuffer::Digest, word: 2 },
        AesCommand::Fetch { buffer: DmaBuffer::Digest, word: 3 },
        AesCommand::Fetch { buffer: DmaBuffer::Digest, word: 4 },
        AesCommand::Fetch { buffer: DmaBuffer::Digest, word: 5 },
        AesCommand::Fetch { buffer: DmaBuffer::Digest, word: 6 },
        AesCommand::Fetch { buffer: DmaBuffer::Digest, word: 7 },
    ]
}

/// The accesses that store the digest `digest` in the digest registers.
pub open spec fn spec_digest_write_commands(digest: Seq<u32>) -> Seq<AesCommand> {
    seq![
        AesCommand::Write { reg: AesReg::HashDigestA, value: digest[0] },
        AesCommand::Write { reg: AesReg::HashDigestB, value: digest[1] },
        AesCommand::Write { reg: AesReg::HashDigestC, value: digest[2] },
        AesCommand::Write { reg: AesReg::HashDigestD, value: digest[3] },
        AesCommand::Write { reg: AesReg::HashDigestE, value: digest[4] },
        AesCommand::Write { reg: AesReg::HashDigestF, value: digest[5] },
        AesCommand::Write { reg: AesReg::HashDigestG, value: digest[6] },
        AesCommand::Write { reg: AesReg::HashDigestH, value: digest[7] },
    ]
}

/// The accesses that wait for the engine, read the digest registers and
/// acknowledge the reading.
pub open spec fn spec_digest_read_commands() -> Seq<AesCommand> {
    seq![
        AesCommand::WaitSet { reg: AesReg::CtrlIntStat, mask: INT_RESULT_AV },
        AesCommand::Read { reg: AesReg::HashDigestA },
        AesCommand::Read { reg: AesReg::HashDigestB },
        AesCommand::Read { reg: AesReg::HashDigestC },
        AesCommand::Read { reg: AesReg::HashDigestD },
        AesCommand::Read { reg: AesReg::HashDigestE },
        AesCommand::Read { reg: AesReg::HashDigestF },
        AesCommand::Read { reg: AesReg::HashDigestG },
        AesCommand::Read { reg: AesReg::HashDigestH },
        AesCommand::Write { reg: AesReg::HashIoBufCtrl, value: HASH_IO_BUF_OUTPUT_FULL },
    ]
}

/// The accesses that end every hash operation: they clear the interrupts,
/// deselect the algorithm and clear the mode.
pub open spec fn spec_hash_end_commands() -> Seq<AesCommand> {
    seq![
        AesCommand::Write { reg: AesReg::CtrlIntClr, value: INT_DMA_IN_DONE | INT_RESULT_AV },
        AesCommand::Write { reg: AesReg::CtrlAlgSel, value: 0 },
        AesCommand::Write { reg: AesReg::AesCtrl, value: 0 },
    ]
}

/// The accesses that hash the pending block in a new session. The digest
/// comes out through DMA channel 1.
pub open spec fn spec_new_hash(v: Sha256View) -> Seq<AesCommand> {
    spec_hash_begin_commands(ALG_SEL_TAG | ALG_SEL_HASH, HASH_MODE_SHA256 | HASH_MODE_NEW_HASH)
        + spec_length_commands(v) + spec_pad_commands(v) + spec_block_commands(v)
        + spec_digest_dma_commands() + spec_hash_end_commands()
}

/// The accesses that hash the pending block in a session resumed from the
/// digest in `v`. The new digest is read from the digest registers.
pub open spec fn spec_resume_hash(v: Sha256View) -> Seq<AesCommand> {
    spec_hash_begin_commands(ALG_SEL_HASH, HASH_MODE_SHA256) + spec_length_commands(v)
        + spec_digest_write_commands(v.digest) + spec_pad_commands(v) + spec_block_commands(v)
        + spec_digest_read_commands() + spec_hash_end_commands()
}

/// The accesses that hash the pending block: in a new session for the first
/// block of a message, in a resumed one for every other.
pub open spec fn spec_hash_commands(v: Sha256View) -> Seq<AesCommand> {
    if v.new_digest {
        spec_new_hash(v)
    } else {
        spec_resume_hash(v)
    }
}

/// The first `n` blocks of `data`, one after the other.
pub open spec fn spec_blocks(data: Seq<u8>, n: int) -> Seq<u8>
    decreases n,
{
    if n <= 0 {
        Seq::empty()
    } else {
        spec_blocks(data, n - 1) + spec_block(data, n - 1)
    }
}

/// The first `n` blocks of a message are its first `64 * n` bytes, or the
/// whole message where it is shorter.
pub proof fn lemma_blocks_prefix(data: Seq<u8>, n: int)
    requires
        0 <= n <= spec_block_count(data.len()),
    ensures
        spec_blocks(data, n) == data.subrange(
            0,
            if 64 * n <= data.len() {
                64 * n
            } else {
                data.len() as int
            },
        ),
    decreases n,
{
    if n > 0 {
        lemma_blocks_prefix(data, n - 1);
        assert(spec_blocks(data, n) =~= data.subrange(
            0,
            if 64 * n <= data.len() {
                64 * n
            } else {
                data.len() as int
            },
        ));
    } else {
        assert(spec_blocks(data, n) =~= data.subrange(0, 0));
    }
}

/// The blocks in which a message is hashed are the message: every byte is
/// in one block, in its place, and the last block is the only one that may
/// hold less than 64 bytes.
pub proof fn lemma_blocks_cover(data: Seq<u8>)
    ensures
        spec_blocks(data, spec_block_count(data.len())) == data,
        forall|i: int|
            0 <= i < spec_block_count(data.len()) - 1 ==> (#[trigger] spec_block(data, i)).len()
                == 64,
        data.len() > 0 ==> 1 <= spec_block(data, spec_block_count(data.len()) - 1).len() <= 64,
{
    lemma_blocks_prefix(data, spec_block_count(data.len()));
    assert(data.subrange(0, data.len() as int) =~= data);
}

/// The engine can be asked for every access of a hash operation.
pub proof fn lemma_hash_commands_valid(v: Sha256View)
    ensures
        spec_all_valid(spec_hash_commands(v)),
        spec_all_valid(spec_new_hash(v)),
        spec_all_valid(spec_resume_hash(v)),
{
    let begin_new = spec_hash_begin_commands(
        ALG_SEL_TAG | ALG_SEL_HASH,
        HASH_MODE_SHA256 | HASH_MODE_NEW_HASH,
    );
    let begin_resume = spec_hash_begin_commands(ALG_SEL_HASH, HASH_MODE_SHA256);
    let length = spec_length_commands(v);
    let pad = spec_pad_commands(v);
    let block = spec_block_commands(v);
    let dma = spec_digest_dma_commands();
    let write = spec_digest_write_commands(v.digest);
    let read = spec_digest_read_commands();
    let end = spec_hash_end_commands();
    lemma_all_valid_concat(begin_new, length);
    lemma_all_valid_concat(begin_new + length, pad);
    lemma_all_valid_concat(begin_new + length + pad, block);
    lemma_all_valid_concat(begin_new + length + pad + block, dma);
    lemma_all_valid_concat(begin_new + length + pad + block + dma, end);
    lemma_all_valid_concat(begin_resume, length);
    lemma_all_valid_concat(begin_resume + length, write);
    lemma_all_valid_concat(begin_resume + length + write, pad);
    lemma_all_valid_concat(begin_resume + length + write + pad, block);
    lemma_all_valid_concat(begin_resume + length + write + pad + block, read);
    lemma_all_valid_concat(begin_resume + length + write + pad + block + read, end);
}

/// The accesses that set a hash operation up report nothing.
proof fn lemma_hash_setup_reports_nothing(v: Sha256View, alg_sel: u32, mode: u32)
    ensures
        spec_report_count(spec_hash_begin_commands(alg_sel, mode)) == 0,
        spec_report_count(spec_length_commands(v)) == 0,
        spec_report_count(spec_pad_commands(v)) == 0,
        spec_report_count(spec_block_commands(v)) == 0,
        spec_report_count(spec_hash_end_commands()) == 0,
{
    reveal_with_fuel(spec_report_count, 6);
}

/// The accesses that store a digest in the digest registers report
/// nothing.
proof fn lemma_digest_write_reports_nothing(digest: Seq<u32>)
    ensures
        spec_report_count(spec_digest_write_commands(digest)) == 0,
{
    reveal_with_fuel(spec_report_count, 9);
}

/// The accesses that bring the digest out report its eight words.
proof fn lemma_digest_reports_eight()
    ensures
        spec_report_count(spec_digest_dma_commands()) == 8,
        spec_report_count(spec_digest_read_commands()) == 8,
{
    reveal_with_fuel(spec_report_count, 13);
}

/// A hash operation reports eight values, the words of the digest after
/// the block, whether it runs in a new session or in a resumed one.
pub proof fn lemma_hash_commands_report_the_digest(v: Sha256View)
    ensures
        spec_report_count(spec_hash_commands(v)) == 8,
        spec_report_count(spec_new_hash(v)) == 8,
        spec_report_count(spec_resume_hash(v)) == 8,
{
    let begin_new = spec_hash_begin_commands(
        ALG_SEL_TAG | ALG_SEL_HASH,
        HASH_MODE_SHA256 | HASH_MODE_NEW_HASH,
    );
    let begin_resume = spec_hash_begin_commands(ALG_SEL_HASH, HASH_MODE_SHA256);
    let length = spec_length_commands(v);
    let pad = spec_pad_commands(v);
    let block = spec_block_commands(v);
    let dma = spec_digest_dma_commands();
    let write = spec_digest_write_commands(v.digest);
    let read = spec_digest_read_commands();
    let end = spec_hash_end_commands();
    lemma_hash_setup_reports_nothing(
        v,
        ALG_SEL_TAG | ALG_SEL_HASH,
        HASH_MODE_SHA256 | HASH_MODE_NEW_HASH,
    );
    lemma_hash_setup_reports_nothing(v, ALG_SEL_HASH, HASH_MODE_SHA256);
    lemma_digest_write_reports_nothing(v.digest);
    lemma_digest_reports_eight();
    lemma_report_count_concat(begin_new, length);
    lemma_report_count_concat(begin_new + length, pad);
    lemma_report_count_concat(begin_new + length + pad, block);
    lemma_report_count_concat(begin_new + length + pad + block, dma);
    lemma_report_count_concat(begin_new + length + pad + block + dma, end);
    lemma_report_count_concat(begin_resume, length);
    lemma_report_count_concat(begin_resume + length, write);
    lemma_report_count_concat(begin_resume + length + write, pad);
    lemma_report_count_concat(begin_resume + length + write + pad, block);
    lemma_report_count_concat(begin_resume + length + write + pad + block, read);
    lemma_report_count_concat(begin_resume + length + write + pad + block + read, end);
}

/// Number of zero bytes in the padding of a message of `len` bytes: as few
/// as let the message, the byte 0x80, the zeros and the eight bytes of the
/// length fill whole blocks.
pub open spec fn spec_pad_zeros(len: nat) -> nat {
    ((119 - (len % 64)) % 64) as nat
}

/// The eight bytes of a length in bits, most significant byte first.
pub open spec fn spec_length_bytes(bits: nat) -> Seq<u8> {
    seq![
        (bits / 0x100_0000_0000_0000 % 256) as u8,
        (bits / 0x1_0000_0000_0000 % 256) as u8,
        (bits / 0x100_0000_0000 % 256) as u8,
        (bits / 0x1_0000_0000 % 256) as u8,
        (bits / 0x100_0000 % 256) as u8,
        (bits / 0x1_0000 % 256) as u8,
        (bits / 0x100 % 256) as u8,
        (bits % 256) as u8,
    ]
}

/// The padding that follows a message of `len` bytes in its hash: the byte
/// 0x80, zeros, and the length of the message in bits.
pub open spec fn spec_padding(len: nat) -> Seq<u8> {
    seq![0x80u8] + Seq::new(spec_pad_zeros(len), |i: int| 0u8) + spec_length_bytes(8 * len)
}

/// The digest after the blocks of 64 bytes of `bytes` were compressed into
/// `digest` one after the other by `compress`, the compression function of
/// the hash.
pub open spec fn spec_compress_all(
    compress: spec_fn(Seq<u32>, Seq<u8>) -> Seq<u32>,
    digest: Seq<u32>,
    bytes: Seq<u8>,
) -> Seq<u32>
    decreases bytes.len(),
{
    if bytes.len() < 64 {
        digest
    } else {
        spec_compress_all(
            compress,
            compress(digest, bytes.subrange(0, 64)),
            bytes.subrange(64, bytes.len() as int),
        )
    }
}

/// The hash of `data`: the message and its padding, compressed block by
/// block into the digest `initial`.
pub open spec fn spec_hash(
    compress: spec_fn(Seq<u32>, Seq<u8>) -> Seq<u32>,
    initial: Seq<u32>,
    data: Seq<u8>,
) -> Seq<u32> {
    spec_compress_all(compress, initial, data + spec_padding(data.len()))
}

/// The digest that an engine which hashes with `compress` answers to the
/// accesses of a hash operation in the state `v`. A new session starts
/// from the digest `initial`, a resumed one from the digest of the state.
/// The engine compresses the pending block; where the block is the last
/// one, it compresses the block and the padding of a message of the length
/// that it was told.
pub open spec fn spec_engine_digest(
    compress: spec_fn(Seq<u32>, Seq<u8>) -> Seq<u32>,
    initial: Seq<u32>,
    v: Sha256View,
) -> Seq<u32> {
    let from = if v.new_digest {
        initial
    } else {
        v.digest
    };
    if v.final_digest {
        spec_compress_all(compress, from, v.pending + spec_padding(v.length / 8))
    } else {
        compress(from, v.pending)
    }
}

/// The state in which block `i` of `data` is presented to the engine,
/// after the engine has answered the block before it with `digest`.
pub open spec fn spec_presented(data: Seq<u8>, i: int, digest: Seq<u32>) -> Sha256View {
    let last = i == spec_block_count(data.len()) - 1;
    Sha256View {
        length: if last {
            8 * data.len()
        } else {
            (512 * i) as nat
        },
        digest,
        pending: spec_block(data, i),
        new_digest: i == 0,
        final_digest: last,
    }
}

/// The digest that the engine answers to block `i` of `data`, where it has
/// answered every block before it as an engine that hashes with `compress`
/// does.
pub open spec fn spec_streamed_digest(
    compress: spec_fn(Seq<u32>, Seq<u8>) -> Seq<u32>,
    initial: Seq<u32>,
    data: Seq<u8>,
    i: int,
) -> Seq<u32>
    decreases i + 1,
{
    if i < 0 {
        initial
    } else {
        spec_engine_digest(
            compress,
            initial,
            spec_presented(data, i, spec_streamed_digest(compress, initial, data, i - 1)),
        )
    }
}

/// Blocks are compressed one after the other: compressing `a`, a whole
/// number of blocks, and then `b` is compressing `a` followed by `b`.
pub proof fn lemma_compress_all_split(
    compress: spec_fn(Seq<u32>, Seq<u8>) -> Seq<u32>,
    digest: Seq<u32>,
    a: Seq<u8>,
    b: Seq<u8>,
)
    requires
        a.len() % 64 == 0,
    ensures
        spec_compress_all(compress, digest, a + b) == spec_compress_all(
            compress,
            spec_compress_all(compress, digest, a),
            b,
        ),
    decreases a.len(),
{
    if a.len() == 0 {
        assert(a + b =~= b);
    } else {
        let rest = a.subrange(64, a.len() as int);
        assert((a + b).subrange(0, 64) =~= a.subrange(0, 64));
        assert((a + b).subrange(64, (a + b).len() as int) =~= rest + b);
        lemma_compress_all_split(compress, compress(digest, a.subrange(0, 64)), rest, b);
    }
}

/// The engine has compressed the first blocks of a message once it has
/// answered them: the digest after block `i`, which is not the last one,
/// is that of the first `64 * (i + 1)` bytes.
pub proof fn lemma_streamed_prefix(
    compress: spec_fn(Seq<u32>, Seq<u8>) -> Seq<u32>,
    initial: Seq<u32>,
    data: Seq<u8>,
    i: int,
)
    requires
        -1 <= i < spec_block_count(data.len()) - 1,
    ensures
        spec_streamed_digest(compress, initial, data, i) == spec_compress_all(
            compress,
            initial,
            data.subrange(0, 64 * (i + 1)),
        ),
    decreases i + 1,
{
    if i >= 0 {
        lemma_streamed_prefix(compress, initial, data, i - 1);
        let before = data.subrange(0, 64 * i);
        let block = spec_block(data, i);
        let digest = spec_streamed_digest(compress, initial, data, i - 1);
        assert(before + block =~= data.subrange(0, 64 * (i + 1)));
        lemma_compress_all_split(compress, initial, before, block);
        let rest = block.subrange(64, block.len() as int);
        assert(block.subrange(0, 64) =~= block);
        assert(rest.len() == 0);
        assert(spec_compress_all(compress, compress(digest, block), rest) == compress(
            digest,
            block,
        ));
        assert(spec_compress_all(compress, digest, block) == compress(digest, block));
    }
}

/// The digest that the steps of a message end with is the hash of the
/// message, where the engine answers every step as an engine that hashes
/// with `compress` does: the blocks that the driver presents one by one,
/// the digests that it carries from each step to the next, and the length
/// that it tells with the last block make up the hash of the whole
/// message.
pub proof fn lemma_streamed_digest_is_the_hash(
    compress: spec_fn(Seq<u32>, Seq<u8>) -> Seq<u32>,
    initial: Seq<u32>,
    data: Seq<u8>,
)
    requires
        data.len() > 0,
    ensures
        spec_streamed_digest(compress, initial, data, spec_block_count(data.len()) - 1)
            == spec_hash(compress, initial, data),
{
    let n = spec_block_count(data.len());
    let last = spec_block(data, n - 1);
    let before = data.subrange(0, 64 * (n - 1));
    let padding = spec_padding(data.len());
    lemma_streamed_prefix(compress, initial, data, n - 2);
    let digest = spec_streamed_digest(compress, initial, data, n - 2);
    assert(digest == spec_compress_all(compress, initial, before));
    let v = spec_presented(data, n - 1, digest);
    assert(v.length / 8 == data.len());
    if n == 1 {
        assert(before.len() == 0);
        assert(spec_compress_all(compress, initial, before) == initial);
    }
    assert(spec_engine_digest(compress, initial, v) == spec_compress_all(
        compress,
        digest,
        last + padding,
    ));
    lemma_compress_all_split(compress, initial, before, last + padding);
    assert(before + (last + padding) =~= data + padding);
}

/// A state in which block `i` of `data` waits for the engine presents the
/// engine with that block: the engine answers it as it answers block `i`
/// of the message, where the state holds the digest of the blocks before.
pub proof fn lemma_streaming_presents(
    compress: spec_fn(Seq<u32>, Seq<u8>) -> Seq<u32>,
    initial: Seq<u32>,
    data: Seq<u8>,
    i: int,
    v: Sha256View,
)
    requires
        0 <= i < spec_block_count(data.len()),
        v.pending == spec_block(data, i),
        v.new_digest == (i == 0),
        v.final_digest == (i == spec_block_count(data.len()) - 1),
        v.length == if v.final_digest {
            8 * data.len()
        } else {
            (512 * i) as nat
        },
        i > 0 ==> v.digest == spec_streamed_digest(compress, initial, data, i - 1),
    ensures
        spec_engine_digest(compress, initial, v) == spec_streamed_digest(compress, initial, data, i),
{
}

impl View for Sha256State {
    type V = Sha256View;

    closed spec fn view(&self) -> Sha256View {
        Sha256View {
            length: self.length as nat,
            digest: self.state@,
            pending: self.buf@.subrange(0, self.curlen as int),
            new_digest: self.new_digest,
            final_digest: self.final_digest,
        }
    }
}

impl Sha256State {
    /// At most one block is pending.
    pub closed spec fn wf(&self) -> bool {
        self.curlen <= 64
    }

    /// Block `i` of `data` waits for the engine and the blocks before it are
    /// hashed.
    pub open spec fn streaming(&self, data: Seq<u8>, i: int) -> bool {
        let last = i == spec_block_count(data.len()) - 1;
        &&& self.wf()
        &&& 0 <= i < spec_block_count(data.len())
        &&& self@.digest.len() == 8
        &&& self@.pending == spec_block(data, i)
        &&& self@.new_digest == (i == 0)
        &&& self@.final_digest == last
        &&& self@.length as int == if last {
            8 * data.len() as int
        } else {
            512 * i
        }
    }

    /// The index of the pending block while `data` is hashed.
    pub open spec fn spec_index(&self, data: Seq<u8>) -> int {
        if self@.final_digest {
            spec_block_count(data.len()) - 1
        } else {
            self@.length as int / 512
        }
    }

    /// Every block of `data` is hashed.
    pub open spec fn finished(&self, data: Seq<u8>) -> bool {
        &&& self.wf()
        &&& self@.digest.len() == 8
        &&& self@.pending.len() == 0
        &&& !self@.new_digest
        &&& !self@.final_digest
        &&& self@.length == 8 * data.len()
    }

    /// The state before the first block of a message.
    pub open spec fn spec_fresh(v: Sha256View) -> bool {
        &&& v.length == 0
        &&& v.digest == Seq::new(8, |i: int| 0u32)
        &&& v.pending.len() == 0
        &&& v.new_digest
        &&& !v.final_digest
    }

    /// The state before the first block of a message.
    pub fn new() -> (state: Self)
        ensures
            state.wf(),
            Self::spec_fresh(state@),
    {
        let state = Sha256State {
            length: 0,
            state: [0; 8],
            curlen: 0,
            buf: [0; 64],
            new_digest: true,
            final_digest: false,
        };
        assert(state@.digest =~= Seq::new(8, |i: int| 0u32));
        state
    }

    /// The bytes of the pending block, which DMA channel 0 sends to the
    /// engine.
    pub fn block(&self) -> (block: &[u8])
        requires
            self.wf(),
        ensures
            block@ == self@.pending,
    {
        vstd::slice::slice_subrange(self.buf.as_slice(), 0, self.curlen as usize)
    }

    /// Whether a block of `data` waits for the engine, as it does after
    /// [`Crypto::sha256`] and after every step that did not end the hash of
    /// `data`.
    pub fn awaits(&self, data: &[u8]) -> (awaits: bool)
        requires
            data@.len() * 8 <= u64::MAX,
        ensures
            awaits == self.streaming(data@, self.spec_index(data@)),
    {
        let len = data.len();
        if len == 0 || self.curlen > 64 {
            return false;
        }
        let count: usize = (len - 1) / 64 + 1;
        let index: usize = if self.final_digest {
            count - 1
        } else {
            if self.length / 512 >= count as u64 {
                return false;
            }
            (self.length / 512) as usize
        };
        let last = index == count - 1;
        let length: u64 = if last {
            8 * (len as u64)
        } else {
            512 * (index as u64)
        };
        if self.new_digest != (index == 0) || self.final_digest != last || self.length != length {
            return false;
        }
        let from = 64 * index;
        let n: usize = if len - from >= 64 {
            64
        } else {
            len - from
        };
        let ghost block = spec_block(data@, index as int);
        assert(block =~= data@.subrange(from as int, from + n));
        assert(self.spec_index(data@) == index);
        if self.curlen as usize != n {
            assert(self@.pending.len() != block.len());
            return false;
        }
        assert(self.streaming(data@, index as int) <==> self@.pending == block);
        let mut i: usize = 0;
        while i < n
            invariant
                i <= n <= 64,
                n == self.curlen,
                from + n <= len,
                len == data@.len(),
                block == data@.subrange(from as int, from + n),
                self.spec_index(data@) == index,
                self.streaming(data@, index as int) <==> self@.pending == block,
                forall|j: int| 0 <= j < i ==> self.buf@[j] == data@[from + j],
            decreases n - i,
        {
            if self.buf[i] != data[from + i] {
                assert(self@.pending[i as int] != block[i as int]);
                return false;
            }
            i = i + 1;
        }
        assert(self@.pending =~= block);
        true
    }

    /// Takes bytes `from .. from + n` of `data` as the pending block.
    fn load(&mut self, data: &[u8], from: usize, n: usize)
        requires
            n <= 64,
            from + n <= data@.len(),
        ensures
            final(self).wf(),
            final(self)@.pending == data@.subrange(from as int, from + n),
            final(self)@.length == old(self)@.length,
            final(self)@.digest == old(self)@.digest,
            final(self)@.new_digest == old(self)@.new_digest,
            final(self)@.final_digest == old(self)@.final_digest,
    {
        let total = data.len();
        let mut i: usize = 0;
        while i < n
            invariant
                i <= n <= 64,
                total == data@.len(),
                from + n <= total,
                self.length == old(self).length,
                self.state == old(self).state,
                self.new_digest == old(self).new_digest,
                self.final_digest == old(self).final_digest,
                forall|j: int| 0 <= j < i ==> self.buf@[j] == data@[from + j],
            decreases n - i,
        {
            self.buf[i] = data[from + i];
            i = i + 1;
        }
        self.curlen = n as u32;
        assert(self@.pending =~= data@.subrange(from as int, from + n));
    }

    /// Takes the digest that the engine gave for the pending block.
    fn absorb(&mut self, digest: [u32; 8])
        requires
            old(self).wf(),
            !old(self)@.final_digest ==> old(self)@.length + 512 <= u64::MAX,
        ensures
            final(self).wf(),
            final(self)@.digest == digest@,
            final(self)@.pending.len() == 0,
            !final(self)@.new_digest,
            !final(self)@.final_digest,
            final(self)@.length == if old(self)@.final_digest {
                old(self)@.length
            } else {
                old(self)@.length + 512
            },
    {
        self.state = digest;
        if self.final_digest {
            self.final_digest = false;
        } else {
            self.length = self.length + 512;
        }
        self.new_digest = false;
        self.curlen = 0;
    }

    /// Writes the digest of the message, 32 bytes, to `digest`, and clears
    /// the state.
    pub fn digest(&mut self, digest: &mut [u8])
        requires
            old(self)@.digest.len() == 8,
            old(digest)@.len() == OUTPUT_LEN,
        ensures
            final(digest)@ == spec_words_bytes(old(self)@.digest),
            final(self).wf(),
            Self::spec_fresh(final(self)@),
    {
        words_to_bytes(self.state.as_slice(), digest);
        *self = Sha256State::new();
    }
}

/// The low 32 bits of `length`.
fn length_low(length: u64) -> (low: u32)
    ensures
        low == spec_length_low(length as nat),
{
    (length % 0x1_0000_0000) as u32
}

/// The bits 32 to 63 of `length`.
fn length_high(length: u64) -> (high: u32)
    ensures
        high == spec_length_high(length as nat),
{
    (length / 0x1_0000_0000) as u32
}

/// Appends the accesses that tell the engine the length of the message.
fn push_length(commands: &mut Vec<AesCommand>, state: &Sha256State)
    ensures
        final(commands)@ == old(commands)@ + spec_length_commands(state@),
{
    if state.final_digest {
        commands.push(AesCommand::Write { reg: AesReg::HashLengthInL, value: length_low(state.length) });
        commands.push(
            AesCommand::Write { reg: AesReg::HashLengthInH, value: length_high(state.length) },
        );
    }
    assert(commands@ =~= old(commands)@ + spec_length_commands(state@));
}

/// Appends the access that asks the engine to pad the block.
fn push_pad(commands: &mut Vec<AesCommand>, state: &Sha256State)
    ensures
        final(commands)@ == old(commands)@ + spec_pad_commands(state@),
{
    if state.final_digest {
        commands.push(
            AesCommand::Write { reg: AesReg::HashIoBufCtrl, value: HASH_IO_BUF_PAD_DMA_MESSAGE },
        );
    }
    assert(commands@ =~= old(commands)@ + spec_pad_commands(state@));
}

/// Appends the accesses that send the pending block through DMA channel 0.
fn push_block(commands: &mut Vec<AesCommand>, state: &Sha256State)
    requires
        state.wf(),
    ensures
        final(commands)@ == old(commands)@ + spec_block_commands(state@),
{
    commands.push(AesCommand::Write { reg: AesReg::DmacCh0Ctrl, value: DMAC_CH_CTRL_EN });
    commands.push(AesCommand::Point { reg: AesReg::DmacCh0Extaddr, buffer: DmaBuffer::Block });
    let length: u32 = if state.final_digest {
        state.curlen
    } else {
        64
    };
    commands.push(AesCommand::Write { reg: AesReg::DmacCh0Dmalength, value: length });
    assert(commands@ =~= old(commands)@ + spec_block_commands(state@));
}

/// Appends the accesses that begin every hash operation.
fn push_hash_begin(commands: &mut Vec<AesCommand>, alg_sel: u32, mode: u32)
    ensures
        final(commands)@ == old(commands)@ + spec_hash_begin_commands(alg_sel, mode),
{
    // Workaround for AES registers not retained after PM2.
    commands.push(AesCommand::Write { reg: AesReg::CtrlIntCfg, value: INT_CFG_LEVEL });
    commands.push(AesCommand::Write { reg: AesReg::CtrlIntEn, value: INT_DMA_IN_DONE | INT_RESULT_AV });
    // Configure master control module and enable the DMA path to the
    // SHA-256 engine.
    commands.push(AesCommand::Write { reg: AesReg::CtrlAlgSel, value: alg_sel });
    // Clear any outstanding events.
    commands.push(AesCommand::Write { reg: AesReg::CtrlIntClr, value: INT_RESULT_AV });
    // Configure the hash engine.
    commands.push(AesCommand::Write { reg: AesReg::HashModeIn, value: mode });
    assert(commands@ =~= old(commands)@ + spec_hash_begin_commands(alg_sel, mode));
}

/// Appends the accesses that bring the digest out through DMA channel 1.
fn push_digest_dma(commands: &mut Vec<AesCommand>)
    ensures
        final(commands)@ == old(commands)@ + spec_digest_dma_commands(),
{
    // Enable DMA channel 1.
    commands.push(AesCommand::Write { reg: AesReg::DmacCh1Ctrl, value: DMAC_CH_CTRL_EN });
    // Base address of the digest buffer.
    commands.push(AesCommand::Point { reg: AesReg::DmacCh1Extaddr, buffer: DmaBuffer::Digest });
    // Length of the result digest.
    commands.push(AesCommand::Write { reg: AesReg::DmacCh1Dmalength, value: 32 });
    // Wait for the completion of the operation.
    commands.push(AesCommand::WaitSet { reg: AesReg::CtrlIntStat, mask: INT_RESULT_AV });
    commands.push(AesCommand::Fetch { buffer: DmaBuffer::Digest, word: 0 });
    commands.push(AesCommand::Fetch { buffer: DmaBuffer::Digest, word: 1 });
    commands.push(AesCommand::Fetch { buffer: DmaBuffer::Digest, word: 2 });
    commands.push(AesCommand::Fetch { buffer: DmaBuffer::Digest, word: 3 });
    commands.push(AesCommand::Fetch { buffer: DmaBuffer::Digest, word: 4 });
    commands.push(AesCommand::Fetch { buffer: DmaBuffer::Digest, word: 5 });
    commands.push(AesCommand::Fetch { buffer: DmaBuffer::Digest, word: 6 });
    commands.push(AesCommand::Fetch { buffer: DmaBuffer::Digest, word: 7 });
    assert(commands@ =~= old(commands)@ + spec_digest_dma_commands());
}

/// Appends the accesses that store `digest` in the digest registers.
fn push_digest_write(commands: &mut Vec<AesCommand>, digest: &[u32; 8])
    ensures
        final(commands)@ == old(commands)@ + spec_digest_write_commands(digest@),
{
    commands.push(AesCommand::Write { reg: AesReg::HashDigestA, value: digest[0] });
    commands.push(AesCommand::Write { reg: AesReg::HashDigestB, value: digest[1] });
    commands.push(AesCommand::Write { reg: AesReg::HashDigestC, value: digest[2] });
    commands.push(AesCommand::Write { reg: AesReg::HashDigestD, value: digest[3] });
    commands.push(AesCommand::Write { reg: AesReg::HashDigestE, value: digest[4] });
    commands.push(AesCommand::Write { reg: AesReg::HashDigestF, value: digest[5] });
    commands.push(AesCommand::Write { reg: AesReg::HashDigestG, value: digest[6] });
    commands.push(AesCommand::Write { reg: AesReg::HashDigestH, value: digest[7] });
    assert(commands@ =~= old(commands)@ + spec_digest_write_commands(digest@));
}

/// Appends the accesses that wait for the engine and read the digest
/// registers.
fn push_digest_read(commands: &mut Vec<AesCommand>)
    ensures
        final(commands)@ == old(commands)@ + spec_digest_read_commands(),
{
    // Wait for the completion of the operation.
    commands.push(AesCommand::WaitSet { reg: AesReg::CtrlIntStat, mask: INT_RESULT_AV });
    // Read the digest.
    commands.push(AesCommand::Read { reg: AesReg::HashDigestA });
    commands.push(AesCommand::Read { reg: AesReg::HashDigestB });
    commands.push(AesCommand::Read { reg: AesReg::HashDigestC });
    commands.push(AesCommand::Read { reg: AesReg::HashDigestD });
    commands.push(AesCommand::Read { reg: AesReg::HashDigestE });
    commands.push(AesCommand::Read { reg: AesReg::HashDigestF });
    commands.push(AesCommand::Read { reg: AesReg::HashDigestG });
    commands.push(AesCommand::Read { reg: AesReg::HashDigestH });
    // Ack reading of the digest.
    commands.push(AesCommand::Write { reg: AesReg::HashIoBufCtrl, value: HASH_IO_BUF_OUTPUT_FULL });
    assert(commands@ =~= old(commands)@ + spec_digest_read_commands());
}

/// Appends the accesses that end every hash operation.
fn push_hash_end(commands: &mut Vec<AesCommand>)
    ensures
        final(commands)@ == old(commands)@ + spec_hash_end_commands(),
{
    // Clear the interrupt.
    commands.push(AesCommand::Write { reg: AesReg::CtrlIntClr, value: INT_DMA_IN_DONE | INT_RESULT_AV });
    // Disable master control.
    commands.push(AesCommand::Write { reg: AesReg::CtrlAlgSel, value: 0 });
    // Clear mode.
    commands.push(AesCommand::Write { reg: AesReg::AesCtrl, value: 0 });
    assert(commands@ =~= old(commands)@ + spec_hash_end_commands());
}

/// The steps of a hash carry the digest of the message so far, and end with
/// the hash of the whole message, where the engine answers each step as an
/// engine that hashes with `compress` does.
///
/// `before` is the state of a step in which block `i` of `data` waits, and
/// holds the digest of the blocks before it. The engine answers the
/// accesses of the step with `digest`, and the step leaves `after`, which
/// holds that digest. Then, where more blocks follow, `after` holds the
/// digest of the blocks up to `i`, which is what the next step asks for;
/// and where block `i` is the last, `after` holds the hash of `data`, which
/// [`Sha256State::digest`] hands out byte by byte.
pub proof fn lemma_steps_end_with_the_hash(
    compress: spec_fn(Seq<u32>, Seq<u8>) -> Seq<u32>,
    initial: Seq<u32>,
    data: Seq<u8>,
    before: Sha256State,
    after: Sha256State,
    digest: Seq<u32>,
)
    requires
        data.len() > 0,
        before.streaming(data, before.spec_index(data)),
        before.spec_index(data) > 0 ==> before@.digest == spec_streamed_digest(
            compress,
            initial,
            data,
            before.spec_index(data) - 1,
        ),
        digest == spec_engine_digest(compress, initial, before@),
        after@.digest == digest,
    ensures
        after@.digest == spec_streamed_digest(compress, initial, data, before.spec_index(data)),
        before@.final_digest ==> after@.digest == spec_hash(compress, initial, data),
{
    let i = before.spec_index(data);
    lemma_streaming_presents(compress, initial, data, i, before@);
    if before@.final_digest {
        lemma_streamed_digest_is_the_hash(compress, initial, data);
    }
}

impl Crypto<Sha256Engine> {
    /// Starts the hash of `data`: lists the accesses that hash its first
    /// block. Where `alg_sel`, the value of the algorithm selection
    /// register, shows that the engine is in use, the hash is refused with
    /// `AesBusy` and nothing is asked of the engine.
    ///
    /// Each later step goes through [`Crypto::sha256_step`], until a step
    /// reports that the hash is done; [`Sha256State::digest`] then gives the
    /// digest.
    pub fn sha256(&mut self, alg_sel: u32, data: &[u8]) -> (r: Result<
        (Sha256State, AesStep),
        CryptoError,
    >)
        requires
            data@.len() > 0,
            data@.len() * 8 <= u64::MAX,
        ensures
            final(self)@ == old(self)@,
            alg_sel != 0 ==> (r matches Err(e) && e == CryptoError::AesBusy),
            alg_sel == 0 ==> (r matches Ok(started) && {
                &&& started.1.progress == Progress::Pending
                &&& started.0.streaming(data@, 0)
                &&& started.1.commands@ == spec_new_hash(started.0@)
            }),
    {
        if self.is_aes_in_use(alg_sel) {
            return Err(CryptoError::AesBusy);
        }
        let mut state = Sha256State::new();
        let commands = self.next_block(&mut state, data);
        Ok((state, AesStep { commands, progress: Progress::Pending }))
    }

    /// Goes on with the hash of `data` after the accesses of the last step
    /// were performed and reported `digest`, the digest after the block of
    /// that step: lists the accesses that hash the next block, or reports
    /// that the hash is done.
    pub fn sha256_step(&mut self, state: &mut Sha256State, data: &[u8], digest: [u32; 8]) -> (step:
        AesStep)
        requires
            data@.len() > 0,
            data@.len() * 8 <= u64::MAX,
            old(state).streaming(data@, old(state).spec_index(data@)),
        ensures
            final(self)@ == old(self)@,
            final(state)@.digest == digest@,
            old(state)@.final_digest ==> {
                &&& step.progress == Progress::Done
                &&& step.commands@.len() == 0
                &&& final(state).finished(data@)
            },
            !old(state)@.final_digest ==> {
                &&& step.progress == Progress::Pending
                &&& final(state).streaming(data@, old(state).spec_index(data@) + 1)
                &&& final(state).spec_index(data@) == old(state).spec_index(data@) + 1
                &&& step.commands@ == spec_resume_hash(final(state)@)
            },
    {
        let last = state.final_digest;
        state.absorb(digest);
        if last {
            return AesStep { commands: Vec::new(), progress: Progress::Done };
        }
        let commands = self.next_block(state, data);
        AesStep { commands, progress: Progress::Pending }
    }

    /// Takes the next block of `data` as the pending block and lists the
    /// accesses that hash it.
    fn next_block(&mut self, state: &mut Sha256State, data: &[u8]) -> (commands: Vec<AesCommand>)
        requires
            data@.len() > 0,
            data@.len() * 8 <= u64::MAX,
            old(state).wf(),
            old(state)@.digest.len() == 8,
            old(state)@.pending.len() == 0,
            !old(state)@.final_digest,
            old(state)@.length % 512 == 0,
            old(state)@.length < 8 * data@.len(),
            old(state)@.new_digest == (old(state)@.length == 0),
        ensures
            final(self)@ == old(self)@,
            final(state).streaming(data@, old(state)@.length as int / 512),
            final(state)@.digest == old(state)@.digest,
            commands@ == spec_hash_commands(final(state)@),
    {
        let offset: usize = (state.length / 8) as usize;
        let len: usize = data.len() - offset;
        if len > BLOCK_SIZE {
            state.load(data, offset, BLOCK_SIZE);
            if state.new_digest {
                self.new_hash(state)
            } else {
                self.resume_hash(state)
            }
        } else {
            state.load(data, offset, len);
            self.finalize(state)
        }
    }

    /// Lists the accesses that hash the pending block in a new session.
    pub fn new_hash(&mut self, state: &Sha256State) -> (commands: Vec<AesCommand>)
        requires
            state.wf(),
        ensures
            final(self)@ == old(self)@,
            commands@ == spec_new_hash(state@),
    {
        let mut commands: Vec<AesCommand> = Vec::new();
        // Indicate start of a new hash session and SHA-256. Enable digest
        // readout.
        push_hash_begin(
            &mut commands,
            ALG_SEL_TAG | ALG_SEL_HASH,
            HASH_MODE_SHA256 | HASH_MODE_NEW_HASH,
        );
        // If the final digest is required (pad the input DMA data).
        push_length(&mut commands, state);
        push_pad(&mut commands, state);
        push_block(&mut commands, state);
        push_digest_dma(&mut commands);
        push_hash_end(&mut commands);
        assert(commands@ =~= spec_new_hash(state@));
        commands
    }

    /// Lists the accesses that hash the pending block in a session that is
    /// resumed from the digest in `state`.
    pub fn resume_hash(&mut self, state: &Sha256State) -> (commands: Vec<AesCommand>)
        requires
            state.wf(),
        ensures
            final(self)@ == old(self)@,
            commands@ == spec_resume_hash(state@),
    {
        let mut commands: Vec<AesCommand> = Vec::new();
        // Indicate the start of a resumed hash session and SHA-256.
        push_hash_begin(&mut commands, ALG_SEL_HASH, HASH_MODE_SHA256);
        // If the final digest is required (pad the input DMA data).
        push_length(&mut commands, state);
        // Write the initial digest.
        push_digest_write(&mut commands, &state.state);
        // If final digest, pad the DMA-ed data.
        push_pad(&mut commands, state);
        push_block(&mut commands, state);
        push_digest_read(&mut commands);
        push_hash_end(&mut commands);
        assert(commands@ =~= spec_resume_hash(state@));
        commands
    }

    /// Marks the pending block as the last one of the message, counts its
    /// bits, and lists the accesses that hash it.
    pub fn finalize(&mut self, state: &mut Sha256State) -> (commands: Vec<AesCommand>)
        requires
            old(state).wf(),
            old(state)@.digest.len() == 8,
            old(state)@.length + 8 * old(state)@.pending.len() <= u64::MAX,
        ensures
            final(self)@ == old(self)@,
            final(state).wf(),
            final(state)@ == (Sha256View {
                length: old(state)@.length + 8 * old(state)@.pending.len(),
                final_digest: true,
                ..old(state)@
            }),
            commands@ == spec_hash_commands(final(state)@),
    {
        state.length = state.length + (state.curlen * 8) as u64;
        state.final_digest = true;
        if state.new_digest {
            self.new_hash(state)
        } else {
            self.resume_hash(state)
        }
    }
}

} // verus!
