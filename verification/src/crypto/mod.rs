//! Driver for the cryptographic accelerators: the AES/SHA-256 engine and the
//! big-number (PKA) engine.
//!
//! One handle, [`Crypto`], stands for the access to both engines. Its type
//! tells what the engine is selected for, and each selection offers the
//! operations of its mode only.
//!
//! The big-number engine works on vectors in a memory of its own, which it
//! finds through pointer and length registers. The handle holds an image of
//! these registers and of the memory, [`Pka`]. A function such as
//! [`Crypto::add`] prepares an operation in the image, and refuses to where
//! the image shows a running engine. The firmware copies the image to the
//! device, waits for the engine, and copies the device back to the image.
//! A function such as [`Crypto::add_result`] then reads the result from the
//! image, from where the engine reports it.
//!
//! The AES/SHA-256 engine is driven through its registers and two DMA
//! channels. An operation on it is a list of register accesses,
//! [`regs::AesCommand`], to perform in order; where the operation depends
//! on what the engine answers, it continues in a step function that takes
//! the answer.

use core::marker::PhantomData;
use vstd::prelude::*;

pub mod aes_engine;
pub mod bignum;
pub mod ecc;
pub mod regs;
pub mod sha2;
pub mod words;

use crate::crypto::aes_engine::AesEngine;
use crate::crypto::ecc::EccEngine;
use crate::crypto::regs::PKA_FUNCTION_RUN;
use crate::crypto::sha2::Sha256Engine;

verus! {

/// Marks an engine, or an AES engine, for which no mode was chosen yet.
pub struct NotSpecified {}

/// Modes of the crypto engine.
#[derive(Debug, Clone, Copy, PartialEq, Eq, Structural)]
pub enum CryptoMode {
    StoreKeys,
    HashAndTag,
    Tag,
    Hash,
    Aes,
}

/// Width of the counter in the counter modes.
#[derive(Debug, Clone, Copy, PartialEq, Eq, Structural)]
pub enum CtrWidth {
    Width128,
    Width256,
}

/// The number that stands for a counter width in the control register.
pub open spec fn spec_ctr_width_bits(width: CtrWidth) -> u8 {
    match width {
        CtrWidth::Width128 => 0,
        CtrWidth::Width256 => 1,
    }
}

impl CtrWidth {
    /// The number that stands for the width in the control register.
    pub fn bits(&self) -> (bits: u8)
        ensures
            bits == spec_ctr_width_bits(*self),
    {
        match self {
            CtrWidth::Width128 => 0,
            CtrWidth::Width256 => 1,
        }
    }
}

impl Default for CtrWidth {
    fn default() -> (width: Self)
        ensures
            width == CtrWidth::Width128,
    {
        CtrWidth::Width128
    }
}

/// Splits a peripheral into the parts that a driver owns.
pub trait CryptoExt {
    type Parts;

    fn constrain(self) -> Self::Parts;
}

#[derive(Debug, Clone, Copy, PartialEq, Eq, Structural)]
pub enum CryptoError {
    /// The big-number engine is running an operation.
    PkaBusy,
    /// The AES/SHA-256 engine is in use.
    AesBusy,
    /// The result of an operation is zero.
    ResultIsZero,
    /// The big-number engine ended in a state that no operation defines.
    PkaFailure,
    /// The operand has no inverse under the modulus.
    NoSolution,
    /// A DMA transfer of the AES/SHA-256 engine ended with a bus error.
    DmaError,
    /// The key store failed to read or to write a key.
    KeyStoreError,
}

/// Size in bytes of the memory of the big-number engine.
pub const PKA_RAM_SIZE: usize = 0x800;

/// Number of 32-bit words in the memory of the big-number engine.
pub const PKA_RAM_WORDS: usize = 512;

/// The smallest multiple of 8 that is not below `n`.
pub open spec fn spec_align8(n: int) -> int {
    ((n + 7) / 8) * 8
}

/// The memory `ram` after `data` was stored from word index `word` on.
pub open spec fn spec_store(ram: Seq<u32>, word: int, data: Seq<u32>) -> Seq<u32> {
    Seq::new(
        ram.len(),
        |i: int|
            if word <= i < word + data.len() {
                data[i - word]
            } else {
                ram[i]
            },
    )
}

/// Image of the memory of the big-number engine, in words.
///
/// The engine takes its operands from this memory and leaves its results
/// there. A vector starts at an offset in bytes that is a multiple of 8.
pub struct PkaRam {
    words: [u32; 512],
}

impl PkaRam {
    /// The words of the memory, word 0 first.
    pub closed spec fn view(&self) -> Seq<u32> {
        self.words@
    }

    /// The memory has 512 words.
    pub proof fn lemma_len(&self)
        ensures
            self@.len() == PKA_RAM_WORDS,
    {
    }

    /// A memory of zeros.
    pub fn new() -> (ram: Self)
        ensures
            ram@ == Seq::new(PKA_RAM_WORDS as nat, |i: int| 0u32),
    {
        let ram = PkaRam { words: [0u32; 512] };
        assert(ram@ =~= Seq::new(PKA_RAM_WORDS as nat, |i: int| 0u32));
        ram
    }

    /// Stores `data` at `offset` (in bytes) and returns the number of bytes
    /// from `offset` to the next place at which a vector may start: the
    /// size of `data` in bytes, rounded up to a multiple of 8.
    pub fn write_slice(&mut self, data: &[u32], offset: usize) -> (advance: usize)
        requires
            offset % 8 == 0,
            offset + data@.len() * 4 < PKA_RAM_SIZE,
        ensures
            final(self)@ == spec_store(old(self)@, offset as int / 4, data@),
            advance == spec_align8(4 * data@.len() as int),
            (offset + advance) % 8 == 0,
            offset + 4 * data@.len() <= offset + advance < offset + 4 * data@.len() + 8,
    {
        let base = offset / 4;
        let n = data.len();
        let mut i: usize = 0;
        while i < n
            invariant
                n == data@.len(),
                i <= n,
                base == offset as int / 4,
                base + n < PKA_RAM_WORDS,
                self.words@.len() == PKA_RAM_WORDS,
                forall|j: int|
                    0 <= j < PKA_RAM_WORDS ==> self.words@[j] == if base <= j < base + i {
                        data@[j - base]
                    } else {
                        old(self).words@[j]
                    },
            decreases n - i,
        {
            self.words[base + i] = data[i];
            i = i + 1;
        }
        assert(self@ =~= spec_store(old(self)@, offset as int / 4, data@));
        ((4 * n) + 7) / 8 * 8
    }

    /// Copies `dest.len()` words out of the memory, from `offset` (in bytes)
    /// on.
    pub fn read_slice(&self, dest: &mut [u32], offset: usize)
        requires
            offset % 4 == 0,
            offset + old(dest)@.len() * 4 < PKA_RAM_SIZE,
        ensures
            final(dest)@ == self@.subrange(
                offset as int / 4,
                offset as int / 4 + old(dest)@.len(),
            ),
    {
        let base = offset / 4;
        let n = dest.len();
        let mut i: usize = 0;
        while i < n
            invariant
                n == dest@.len(),
                n == old(dest)@.len(),
                i <= n,
                base == offset as int / 4,
                base + n < PKA_RAM_WORDS,
                self.words@.len() == PKA_RAM_WORDS,
                forall|j: int| 0 <= j < i ==> dest@[j] == self.words@[base + j],
            decreases n - i,
        {
            dest[i] = self.words[base + i];
            i = i + 1;
        }
        assert(dest@ =~= self@.subrange(base as int, base + n));
    }

    /// Sets `count` words to zero, from word index `word` on.
    pub fn write_zeros(&mut self, word: usize, count: usize)
        requires
            word + count <= PKA_RAM_WORDS,
        ensures
            final(self)@ == spec_store(
                old(self)@,
                word as int,
                Seq::new(count as nat, |i: int| 0u32),
            ),
    {
        let mut i: usize = 0;
        while i < count
            invariant
                i <= count,
                word + count <= PKA_RAM_WORDS,
                self.words@.len() == PKA_RAM_WORDS,
                forall|j: int|
                    0 <= j < PKA_RAM_WORDS ==> self.words@[j] == if word <= j < word + i {
                        0u32
                    } else {
                        old(self).words@[j]
                    },
            decreases count - i,
        {
            self.words[word + i] = 0;
            i = i + 1;
        }
        assert(self@ =~= spec_store(
            old(self)@,
            word as int,
            Seq::new(count as nat, |i: int| 0u32),
        ));
    }

    /// The word at index `index`.
    pub fn word(&self, index: usize) -> (w: u32)
        requires
            index < PKA_RAM_WORDS,
        ensures
            w == self@[index as int],
    {
        self.words[index]
    }

    /// Sets the word at index `index`.
    pub fn set_word(&mut self, index: usize, value: u32)
        requires
            index < PKA_RAM_WORDS,
        ensures
            final(self)@ == old(self)@.update(index as int, value),
    {
        self.words[index] = value;
    }
}

/// Image of the big-number engine: its registers and its memory.
///
/// An operation is prepared in the image. The firmware then copies the
/// memory and the registers to the device, `function` last, waits until the
/// device has cleared the run bit of `function`, and copies the registers
/// and the memory back. What the operation gave is read from the image.
pub struct Pka {
    /// Word offset of vector A.
    pub aptr: u32,
    /// Word offset of vector B.
    pub bptr: u32,
    /// Word offset of vector C.
    pub cptr: u32,
    /// Word offset of vector D.
    pub dptr: u32,
    /// Length of vector A in words.
    pub alength: u32,
    /// Length of vector B in words.
    pub blength: u32,
    /// Status of a sequencer operation.
    pub shift: u32,
    /// The operation and the run bit.
    pub function: u32,
    /// Result of a comparison.
    pub compare: u32,
    /// Place of the most significant word of a result.
    pub msw: u32,
    /// The memory of the engine.
    pub ram: PkaRam,
}

/// What a [`Pka`] holds: the registers, and the memory as a sequence of
/// words.
pub struct PkaView {
    pub aptr: u32,
    pub bptr: u32,
    pub cptr: u32,
    pub dptr: u32,
    pub alength: u32,
    pub blength: u32,
    pub shift: u32,
    pub function: u32,
    pub compare: u32,
    pub msw: u32,
    pub ram: Seq<u32>,
}

/// Whether the run bit is set in a value of the function register.
pub open spec fn spec_running(function: u32) -> bool {
    function & PKA_FUNCTION_RUN != 0
}

impl View for Pka {
    type V = PkaView;

    open spec fn view(&self) -> PkaView {
        PkaView {
            aptr: self.aptr,
            bptr: self.bptr,
            cptr: self.cptr,
            dptr: self.dptr,
            alength: self.alength,
            blength: self.blength,
            shift: self.shift,
            function: self.function,
            compare: self.compare,
            msw: self.msw,
            ram: self.ram@,
        }
    }
}

impl Pka {
    /// An idle engine with empty registers and memory.
    pub fn new() -> (pka: Self)
        ensures
            pka@ == (PkaView {
                aptr: 0,
                bptr: 0,
                cptr: 0,
                dptr: 0,
                alength: 0,
                blength: 0,
                shift: 0,
                function: 0,
                compare: 0,
                msw: 0,
                ram: Seq::new(PKA_RAM_WORDS as nat, |i: int| 0u32),
            }),
            !spec_running(pka.function),
    {
        assert(0u32 & 0x8000u32 == 0) by (bit_vector);
        Pka {
            aptr: 0,
            bptr: 0,
            cptr: 0,
            dptr: 0,
            alength: 0,
            blength: 0,
            shift: 0,
            function: 0,
            compare: 0,
            msw: 0,
            ram: PkaRam::new(),
        }
    }
}

/// Exclusive access to the cryptographic accelerators.
///
/// `State` tells what the engine was selected for. A selection consumes the
/// handle and gives a handle in the new state, so an operation of one mode
/// cannot be asked of an engine that is set up for another.
pub struct Crypto<State> {
    pka: Pka,
    _state: PhantomData<State>,
}

impl<State> View for Crypto<State> {
    type V = PkaView;

    /// The image of the big-number engine that the handle holds.
    closed spec fn view(&self) -> PkaView {
        self.pka@
    }
}

impl<State> Crypto<State> {
    /// The memory of the image has 512 words.
    pub proof fn lemma_ram_len(&self)
        ensures
            self@.ram.len() == PKA_RAM_WORDS,
    {
        self.pka.ram.lemma_len();
    }

    /// The image of the big-number engine.
    pub fn pka(&self) -> (pka: &Pka)
        ensures
            pka@ == self@,
    {
        &self.pka
    }

    /// The image of the big-number engine, to bring it up to date with the
    /// device.
    pub fn pka_mut(&mut self) -> (pka: &mut Pka)
        ensures
            pka@ == old(self)@,
            final(pka)@ == final(self)@,
    {
        &mut self.pka
    }

    /// Check if the AES resource is in use, from the value of its algorithm
    /// selection register.
    pub fn is_aes_in_use(&self, alg_sel: u32) -> (busy: bool)
        ensures
            busy == (alg_sel != 0),
    {
        alg_sel != 0
    }

    /// Check if the PKA resource is in use.
    pub fn is_pka_in_use(&self) -> (busy: bool)
        ensures
            busy == spec_running(self@.function),
    {
        self.pka.function & PKA_FUNCTION_RUN != 0
    }

    /// Check if the result of the AES operation is available, from the
    /// value of the interrupt status register.
    pub fn is_aes_completed(&self, int_stat: u32) -> (done: bool)
        ensures
            done == (int_stat & crate::crypto::regs::INT_RESULT_AV != 0),
    {
        int_stat & crate::crypto::regs::INT_RESULT_AV != 0
    }

    /// The handle in another state, with the same image.
    pub(crate) fn select<Next>(self) -> (crypto: Crypto<Next>)
        ensures
            crypto@ == self@,
    {
        Crypto { pka: self.pka, _state: PhantomData }
    }

    /// Gives the selection up: the handle returns to the state in which
    /// nothing is selected.
    pub fn release(self) -> (crypto: Crypto<NotSpecified>)
        ensures
            crypto@ == self@,
    {
        Crypto { pka: self.pka, _state: PhantomData }
    }

    /// Ends the access and hands out the image of the big-number engine.
    pub fn free(self) -> (pka: Pka)
        ensures
            pka@ == self@,
    {
        self.pka
    }
}

impl Crypto<NotSpecified> {
    /// Create a new crypto instance.
    pub fn new() -> (crypto: Self)
        ensures
            crypto@ == (PkaView {
                aptr: 0,
                bptr: 0,
                cptr: 0,
                dptr: 0,
                alength: 0,
                blength: 0,
                shift: 0,
                function: 0,
                compare: 0,
                msw: 0,
                ram: Seq::new(PKA_RAM_WORDS as nat, |i: int| 0u32),
            }),
            !spec_running(crypto@.function),
    {
        Crypto { pka: Pka::new(), _state: PhantomData }
    }

    /// Use the crypto engine for AES operations.
    pub fn aes_engine(self) -> (crypto: Crypto<AesEngine<NotSpecified>>)
        ensures
            crypto@ == self@,
    {
        Crypto { pka: self.pka, _state: PhantomData }
    }

    /// Use the crypto engine for elliptic curve operations.
    pub fn ecc_engine(self) -> (crypto: Crypto<EccEngine>)
        ensures
            crypto@ == self@,
    {
        Crypto { pka: self.pka, _state: PhantomData }
    }

    /// Use the crypto engine for SHA256 operations.
    pub fn sha256_engine(self) -> (crypto: Crypto<Sha256Engine>)
        ensures
            crypto@ == self@,
    {
        Crypto { pka: self.pka, _state: PhantomData }
    }
}

} // verus!
