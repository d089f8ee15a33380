//! Big numbers on the big-number engine.
//!
//! A number is a sequence of 32-bit words, least significant word first. An
//! operation lays its operands out in the memory of the engine, one vector
//! after the other, each at an offset that is a multiple of 8 bytes, and
//! sets the pointers, the lengths and the function register. Once the
//! engine has run, the result is read from where the engine reports it.
//!
//! The engine adds, subtracts, multiplies, reduces, inverts, raises to a
//! power and compares. It does not divide, and no division is offered.

use core::cmp::Ordering;

use crate::crypto::regs::{
    PKA_COMPARE_A_EQUALS_B, PKA_COMPARE_A_GREATER_THAN_B, PKA_COMPARE_A_LESS_THAN_B,
    PKA_FUNCTION_ADD, PKA_FUNCTION_ADDSUB, PKA_FUNCTION_COMPARE, PKA_FUNCTION_MODULO,
    PKA_FUNCTION_MULTIPLY, PKA_FUNCTION_RUN, PKA_FUNCTION_SUBTRACT, PKA_MSW_ADDRESS_MASK,
    PKA_MSW_RESULT_IS_ZERO, PKA_SEQ_EXP, PKA_SEQ_INV_MOD,
};
use crate::crypto::{
    spec_align8, spec_running, spec_store, Crypto, CryptoError, PkaView, PKA_RAM_SIZE,
    PKA_RAM_WORDS,
};
use vstd::prelude::*;

verus! {

/// Status of a sequencer operation that found no solution.
pub const PKA_STATUS_NO_SOLUTION: u32 = 7;

/// What the start of an operation gives. Where the engine runs, the
/// operation is refused with `PkaBusy` and the image stays as it is.
/// Otherwise the image becomes `programmed`.
pub open spec fn spec_started(
    before: PkaView,
    after: PkaView,
    r: Result<(), CryptoError>,
    programmed: PkaView,
) -> bool {
    if spec_running(before.function) {
        r == Err::<(), CryptoError>(CryptoError::PkaBusy) && after == before
    } else {
        r == Ok::<(), CryptoError>(()) && after == programmed
    }
}

/// One vector of `len` words fits in the memory.
pub open spec fn spec_fits_one(len: nat) -> bool {
    4 * len < PKA_RAM_SIZE
}

/// Two vectors of `len1` and `len2` words fit in the memory, one after the
/// other.
pub open spec fn spec_fits_two(len1: nat, len2: nat) -> bool {
    &&& spec_fits_one(len1)
    &&& spec_align8(4 * len1 as int) + 4 * len2 < PKA_RAM_SIZE
}

/// Three vectors of `len1`, `len2` and `len3` words fit in the memory, one
/// after the other.
pub open spec fn spec_fits_three(len1: nat, len2: nat, len3: nat) -> bool {
    &&& spec_fits_two(len1, len2)
    &&& spec_align8(4 * len1 as int) + spec_align8(4 * len2 as int) + 4 * len3 < PKA_RAM_SIZE
}

/// The image with `num1` as vector A and `num2` as vector B, vector C
/// behind them, and `function` in the function register.
pub open spec fn spec_two_operands(
    before: PkaView,
    num1: Seq<u32>,
    num2: Seq<u32>,
    function: u32,
) -> PkaView {
    let b = spec_align8(4 * num1.len() as int);
    let c = b + spec_align8(4 * num2.len() as int);
    PkaView {
        aptr: 0,
        bptr: (b / 4) as u32,
        cptr: (c / 4) as u32,
        alength: num1.len() as u32,
        blength: num2.len() as u32,
        function,
        ram: spec_store(spec_store(before.ram, 0, num1), b / 4, num2),
        ..before
    }
}

/// The longer of two lengths.
pub open spec fn spec_longer(a: nat, b: nat) -> nat {
    if a >= b {
        a
    } else {
        b
    }
}

/// A vector of `len` words that stands for the number of `data`: the words
/// of `data` with zeros above them. Where `data` has `len` words or more,
/// it is `data`.
pub open spec fn spec_extended(data: Seq<u32>, len: nat) -> Seq<u32> {
    if data.len() >= len {
        data
    } else {
        data + spec_zeros((len - data.len()) as nat)
    }
}

/// The length at which the three operands of `a + c - b` are laid out: that
/// of the longest of them.
pub open spec fn spec_add_sub_len(a: Seq<u32>, c: Seq<u32>, b: Seq<u32>) -> nat {
    spec_longer(a.len(), spec_longer(b.len(), c.len()))
}

/// The image that computes `a + c - b`. The engine takes the three
/// operands at one length, so each is laid out at the length of the
/// longest, with zeros above it: `a` as vector A, `b` as vector B, `c` as
/// vector C, and vector D behind them.
pub open spec fn spec_add_sub(before: PkaView, a: Seq<u32>, c: Seq<u32>, b: Seq<u32>) -> PkaView {
    let len = spec_add_sub_len(a, c, b);
    let step = spec_align8(4 * len as int);
    PkaView {
        aptr: 0,
        bptr: (step / 4) as u32,
        cptr: (2 * step / 4) as u32,
        dptr: (3 * step / 4) as u32,
        alength: len as u32,
        function: PKA_FUNCTION_ADDSUB | PKA_FUNCTION_RUN,
        ram: spec_store(
            spec_store(spec_store(before.ram, 0, spec_extended(a, len)), step / 4, spec_extended(b, len)),
            2 * step / 4,
            spec_extended(c, len),
        ),
        ..before
    }
}

/// The image that raises `base` to `exponent` modulo `modulus`: the
/// exponent as vector A, the modulus as vector B, the base as vector C, and
/// vector D where vector C is. The engine takes the base at the length of
/// the modulus, so the base is laid out at that length, with zeros above
/// it.
pub open spec fn spec_exp(
    before: PkaView,
    exponent: Seq<u32>,
    modulus: Seq<u32>,
    base: Seq<u32>,
) -> PkaView {
    let ob = spec_align8(4 * exponent.len() as int);
    let oc = ob + spec_align8(4 * modulus.len() as int);
    PkaView {
        aptr: 0,
        bptr: (ob / 4) as u32,
        cptr: (oc / 4) as u32,
        dptr: (oc / 4) as u32,
        alength: exponent.len() as u32,
        blength: modulus.len() as u32,
        function: PKA_SEQ_EXP | PKA_FUNCTION_RUN,
        ram: spec_store(
            spec_store(spec_store(before.ram, 0, exponent), ob / 4, modulus),
            oc / 4,
            spec_extended(base, modulus.len()),
        ),
        ..before
    }
}

/// The image that compares `num1`, as vector A, with `num2`, as vector C.
/// The engine takes both at one length, so each is laid out at the length
/// of the longer, with zeros above it.
pub open spec fn spec_compare(before: PkaView, num1: Seq<u32>, num2: Seq<u32>) -> PkaView {
    let len = spec_longer(num1.len(), num2.len());
    let oc = spec_align8(4 * len as int);
    PkaView {
        aptr: 0,
        cptr: (oc / 4) as u32,
        alength: len as u32,
        function: PKA_FUNCTION_COMPARE | PKA_FUNCTION_RUN,
        ram: spec_store(
            spec_store(before.ram, 0, spec_extended(num1, len)),
            oc / 4,
            spec_extended(num2, len),
        ),
        ..before
    }
}

/// The word in which the engine reports the most significant word of the
/// result.
pub open spec fn spec_msw_address(msw: u32) -> u32 {
    msw & PKA_MSW_ADDRESS_MASK
}

/// Whether the engine reports that the result is zero.
pub open spec fn spec_result_is_zero(msw: u32) -> bool {
    msw & PKA_MSW_RESULT_IS_ZERO != 0
}

/// `len` words from word `base` on lie in the memory and fit in a buffer of
/// `capacity` words.
pub open spec fn spec_fits(base: int, len: int, capacity: int) -> bool {
    &&& 0 <= len <= capacity
    &&& 0 <= base
    &&& 4 * base + 4 * len < PKA_RAM_SIZE
}

/// The buffer `before` after `len` words of the memory, from word `base`
/// on, were copied to its front.
pub open spec fn spec_window(ram: Seq<u32>, base: int, len: int, before: Seq<u32>) -> Seq<u32> {
    ram.subrange(base, base + len) + before.subrange(len, before.len() as int)
}

/// A buffer of `len` zeros.
pub open spec fn spec_zeros(len: nat) -> Seq<u32> {
    Seq::new(len, |i: int| 0u32)
}

/// What the engine left of a result whose length it reports through the
/// place of the most significant word: the result and the buffer `before`
/// after the read.
///
/// While the engine runs there is no result. A result of zero has length 0
/// and clears the buffer. Otherwise the result reaches from word `base` to
/// the most significant word; where these words do not lie in the memory
/// or do not fit in the buffer, the state of the engine is a failure.
pub open spec fn spec_sized_result(pka: PkaView, base: u32, before: Seq<u32>) -> (
    Result<usize, CryptoError>,
    Seq<u32>,
) {
    let len = spec_msw_address(pka.msw) - base + 1;
    if spec_running(pka.function) {
        (Err(CryptoError::PkaBusy), before)
    } else if spec_result_is_zero(pka.msw) {
        (Ok(0usize), spec_zeros(before.len()))
    } else if 1 <= len && spec_fits(base as int, len, before.len() as int) {
        (Ok(len as usize), spec_window(pka.ram, base as int, len, before))
    } else {
        (Err(CryptoError::PkaFailure), before)
    }
}

/// What the engine left of a remainder: the result and the buffer `before`
/// after the read. The remainder has one word more than the modulus, which
/// is vector B, and lies where vector C is.
pub open spec fn spec_modulo_result(pka: PkaView, before: Seq<u32>) -> (
    Result<usize, CryptoError>,
    Seq<u32>,
) {
    let len = pka.blength + 1;
    if spec_running(pka.function) {
        (Err(CryptoError::PkaBusy), before)
    } else if !spec_fits(pka.cptr as int, len, before.len() as int) {
        (Err(CryptoError::PkaFailure), before)
    } else if spec_result_is_zero(pka.msw) {
        (Ok(len as usize), spec_zeros(before.len()))
    } else {
        (Ok(len as usize), spec_window(pka.ram, pka.cptr as int, len, before))
    }
}

/// What the engine left of a modular inverse: the result and the buffer
/// `before` after the read. The inverse has the length of vector A and
/// lies where vector C is.
pub open spec fn spec_inv_modulo_result(pka: PkaView, before: Seq<u32>) -> (
    Result<(), CryptoError>,
    Seq<u32>,
) {
    if spec_running(pka.function) {
        (Err(CryptoError::PkaBusy), before)
    } else if pka.shift == PKA_STATUS_NO_SOLUTION {
        (Err(CryptoError::NoSolution), before)
    } else if pka.shift == 0 && spec_fits(
        pka.cptr as int,
        pka.alength as int,
        before.len() as int,
    ) {
        (Ok(()), spec_window(pka.ram, pka.cptr as int, pka.alength as int, before))
    } else {
        (Err(CryptoError::PkaFailure), before)
    }
}

/// What the engine left of a modular exponentiation: the result and the
/// buffer `before` after the read. The result reaches from vector D to the
/// most significant word. Where the engine reports no such word, or a
/// result of zero, nothing is read and the length is 0.
pub open spec fn spec_exp_result(pka: PkaView, before: Seq<u32>) -> (
    Result<usize, CryptoError>,
    Seq<u32>,
) {
    let len = spec_msw_address(pka.msw) + 1 - pka.dptr;
    if spec_running(pka.function) {
        (Err(CryptoError::PkaBusy), before)
    } else if spec_msw_address(pka.msw) == 0 || spec_result_is_zero(pka.msw) {
        (Ok(0usize), before)
    } else if spec_fits(pka.dptr as int, len, before.len() as int) {
        (Ok(len as usize), spec_window(pka.ram, pka.dptr as int, len, before))
    } else {
        (Err(CryptoError::PkaFailure), before)
    }
}

/// What the engine left of a comparison of vector A with vector C: no
/// ordering while it runs, the ordering of the first flag that it raised
/// otherwise, and a failure where it has ended without raising any of its
/// three flags.
pub open spec fn compared(pka: PkaView) -> Result<Option<Ordering>, CryptoError> {
    if spec_running(pka.function) {
        Ok(None)
    } else if pka.compare & PKA_COMPARE_A_EQUALS_B != 0 {
        Ok(Some(Ordering::Equal))
    } else if pka.compare & PKA_COMPARE_A_LESS_THAN_B != 0 {
        Ok(Some(Ordering::Less))
    } else if pka.compare & PKA_COMPARE_A_GREATER_THAN_B != 0 {
        Ok(Some(Ordering::Greater))
    } else {
        Err(CryptoError::PkaFailure)
    }
}

/// `data` lies in `ram` from word `at` on.
pub open spec fn spec_holds(ram: Seq<u32>, at: int, data: Seq<u32>) -> bool {
    &&& 0 <= at
    &&& at + data.len() <= ram.len()
    &&& ram.subrange(at, at + data.len()) == data
}

/// The layout of two operands: every vector starts at a multiple of 8
/// bytes, which is an even word; the vectors follow each other without
/// overlap; both operands lie in the memory as they were given; and the
/// memory outside of them stays as it was.
pub proof fn lemma_two_operands_layout(
    before: PkaView,
    num1: Seq<u32>,
    num2: Seq<u32>,
    function: u32,
)
    requires
        spec_fits_two(num1.len(), num2.len()),
        before.ram.len() == PKA_RAM_WORDS,
    ensures
        ({
            let p = spec_two_operands(before, num1, num2, function);
            &&& p.aptr % 2 == 0 && p.bptr % 2 == 0 && p.cptr % 2 == 0
            &&& p.aptr + num1.len() <= p.bptr
            &&& p.bptr + num2.len() <= p.cptr
            &&& p.ram.len() == PKA_RAM_WORDS
            &&& spec_holds(p.ram, p.aptr as int, num1)
            &&& spec_holds(p.ram, p.bptr as int, num2)
            &&& forall|i: int|
                0 <= i < PKA_RAM_WORDS && !(p.aptr <= i < p.aptr + num1.len()) && !(p.bptr <= i
                    < p.bptr + num2.len()) ==> p.ram[i] == before.ram[i]
        }),
{
    let p = spec_two_operands(before, num1, num2, function);
    assert(p.ram.subrange(p.aptr as int, p.aptr + num1.len()) =~= num1);
    assert(p.ram.subrange(p.bptr as int, p.bptr + num2.len()) =~= num2);
}

/// A number laid out at a greater length stands for the same number, and
/// has that length.
pub proof fn lemma_extended(data: Seq<u32>, len: nat)
    ensures
        spec_extended(data, len).len() == spec_longer(data.len(), len),
        spec_value(spec_extended(data, len)) == spec_value(data),
        spec_extended(data, len).subrange(0, data.len() as int) == data,
{
    let e = spec_extended(data, len);
    assert(e.subrange(0, data.len() as int) =~= data);
    lemma_value_prefix(e, data.len() as int);
}

/// The layout of `a + c - b`: every vector starts at an even word; the
/// vectors have the length of the longest operand and follow each other
/// without overlap; and each operand lies in its vector with zeros above
/// it, so that the engine takes it for the number that it stands for.
pub proof fn lemma_add_sub_layout(before: PkaView, a: Seq<u32>, c: Seq<u32>, b: Seq<u32>)
    requires
        spec_fits_three(spec_add_sub_len(a, c, b), spec_add_sub_len(a, c, b), spec_add_sub_len(a, c, b)),
        before.ram.len() == PKA_RAM_WORDS,
    ensures
        ({
            let p = spec_add_sub(before, a, c, b);
            let len = spec_add_sub_len(a, c, b);
            &&& p.alength == len
            &&& p.aptr % 2 == 0 && p.bptr % 2 == 0 && p.cptr % 2 == 0 && p.dptr % 2 == 0
            &&& p.aptr + len <= p.bptr
            &&& p.bptr + len <= p.cptr
            &&& p.cptr + len <= p.dptr
            &&& spec_holds(p.ram, p.aptr as int, spec_extended(a, len))
            &&& spec_holds(p.ram, p.bptr as int, spec_extended(b, len))
            &&& spec_holds(p.ram, p.cptr as int, spec_extended(c, len))
            &&& spec_value(spec_extended(a, len)) == spec_value(a)
            &&& spec_value(spec_extended(b, len)) == spec_value(b)
            &&& spec_value(spec_extended(c, len)) == spec_value(c)
        }),
{
    let p = spec_add_sub(before, a, c, b);
    let len = spec_add_sub_len(a, c, b);
    let ea = spec_extended(a, len);
    let eb = spec_extended(b, len);
    let ec = spec_extended(c, len);
    lemma_extended(a, len);
    lemma_extended(b, len);
    lemma_extended(c, len);
    let step = spec_align8(4 * len as int);
    let r1 = spec_store(before.ram, 0, ea);
    let r2 = spec_store(r1, step / 4, eb);
    assert(p.ram == spec_store(r2, 2 * step / 4, ec));
    assert(p.ram.subrange(0, len as int) =~= ea);
    assert(p.ram.subrange(step / 4, step / 4 + len) =~= eb);
    assert(p.ram.subrange(2 * step / 4, 2 * step / 4 + len) =~= ec);
}

/// The layout of a modular exponentiation: every vector starts at an even
/// word, the vectors follow each other without overlap, the result takes
/// the place of the base, and the exponent, the modulus and the base, at
/// the length of the modulus, lie in the memory as they were given.
pub proof fn lemma_exp_layout(
    before: PkaView,
    exponent: Seq<u32>,
    modulus: Seq<u32>,
    base: Seq<u32>,
)
    requires
        base.len() <= modulus.len(),
        spec_fits_three(exponent.len(), modulus.len(), modulus.len()),
        before.ram.len() == PKA_RAM_WORDS,
    ensures
        ({
            let p = spec_exp(before, exponent, modulus, base);
            &&& p.aptr % 2 == 0 && p.bptr % 2 == 0 && p.cptr % 2 == 0
            &&& p.dptr == p.cptr
            &&& p.aptr + exponent.len() <= p.bptr
            &&& p.bptr + modulus.len() <= p.cptr
            &&& spec_holds(p.ram, p.aptr as int, exponent)
            &&& spec_holds(p.ram, p.bptr as int, modulus)
            &&& spec_holds(p.ram, p.cptr as int, spec_extended(base, modulus.len()))
            &&& spec_value(spec_extended(base, modulus.len())) == spec_value(base)
        }),
{
    let p = spec_exp(before, exponent, modulus, base);
    let eb = spec_extended(base, modulus.len());
    lemma_extended(base, modulus.len());
    assert(p.ram.subrange(p.aptr as int, p.aptr + exponent.len()) =~= exponent);
    assert(p.ram.subrange(p.bptr as int, p.bptr + modulus.len()) =~= modulus);
    assert(p.ram.subrange(p.cptr as int, p.cptr + modulus.len()) =~= eb);
}

/// The layout of a comparison: both vectors start at an even word and have
/// the length of the longer number; they do not overlap; and each number
/// lies in its vector with zeros above it, so that the engine compares the
/// numbers that they stand for, also where their lengths differ.
pub proof fn lemma_compare_layout(before: PkaView, num1: Seq<u32>, num2: Seq<u32>)
    requires
        spec_fits_two(
            spec_longer(num1.len(), num2.len()),
            spec_longer(num1.len(), num2.len()),
        ),
        before.ram.len() == PKA_RAM_WORDS,
    ensures
        ({
            let p = spec_compare(before, num1, num2);
            let len = spec_longer(num1.len(), num2.len());
            &&& p.alength == len
            &&& p.aptr == 0 && p.cptr % 2 == 0
            &&& p.aptr + len <= p.cptr
            &&& spec_holds(p.ram, p.aptr as int, spec_extended(num1, len))
            &&& spec_holds(p.ram, p.cptr as int, spec_extended(num2, len))
            &&& spec_value(spec_extended(num1, len)) == spec_value(num1)
            &&& spec_value(spec_extended(num2, len)) == spec_value(num2)
        }),
{
    let p = spec_compare(before, num1, num2);
    let len = spec_longer(num1.len(), num2.len());
    lemma_extended(num1, len);
    lemma_extended(num2, len);
    assert(p.ram.subrange(0, len as int) =~= spec_extended(num1, len));
    assert(p.ram.subrange(p.cptr as int, p.cptr + len) =~= spec_extended(num2, len));
}

/// A result that the engine left is handed out as it lies in the memory:
/// where the engine has ended, `result` lies from word `base` on, the
/// engine reports its last word as the most significant one, and the
/// buffer has room for it, the read gives the length of `result` and puts
/// `result` at the front of the buffer.
pub proof fn lemma_sized_result_reads(pka: PkaView, base: u32, result: Seq<u32>, before: Seq<u32>)
    requires
        !spec_running(pka.function),
        !spec_result_is_zero(pka.msw),
        1 <= result.len() <= before.len(),
        4 * base + 4 * result.len() < PKA_RAM_SIZE,
        spec_holds(pka.ram, base as int, result),
        spec_msw_address(pka.msw) == base + result.len() - 1,
    ensures
        spec_sized_result(pka, base, before) == (
            Ok::<usize, CryptoError>(result.len() as usize),
            result + before.subrange(result.len() as int, before.len() as int),
        ),
{
}

/// The number that `words` stand for, least significant word first.
pub open spec fn spec_value(words: Seq<u32>) -> nat
    decreases words.len(),
{
    if words.len() == 0 {
        0
    } else {
        words[0] as nat + 0x1_0000_0000 * spec_value(words.subrange(1, words.len() as int))
    }
}

/// Every word of `words` from index `from` on is zero.
pub open spec fn spec_zero_from(words: Seq<u32>, from: int) -> bool {
    forall|i: int| from <= i < words.len() ==> words[i] == 0
}

/// The engine has ended and has left `words` as its result from word
/// `base` on. It reports a result of zero where every word is zero, and
/// otherwise the highest word that is not zero as the most significant
/// one.
pub open spec fn spec_left(pka: PkaView, base: u32, words: Seq<u32>) -> bool {
    &&& !spec_running(pka.function)
    &&& 4 * base + 4 * words.len() < PKA_RAM_SIZE
    &&& spec_holds(pka.ram, base as int, words)
    &&& if spec_zero_from(words, 0) {
        spec_result_is_zero(pka.msw)
    } else {
        &&& !spec_result_is_zero(pka.msw)
        &&& base <= spec_msw_address(pka.msw) < base + words.len()
        &&& words[spec_msw_address(pka.msw) - base] != 0
        &&& spec_zero_from(words, spec_msw_address(pka.msw) - base + 1)
    }
}

/// Words of zero stand for zero.
pub proof fn lemma_value_of_zeros(words: Seq<u32>)
    requires
        spec_zero_from(words, 0),
    ensures
        spec_value(words) == 0,
    decreases words.len(),
{
    if words.len() > 0 {
        lemma_value_of_zeros(words.subrange(1, words.len() as int));
    }
}

/// Words of zero above a number do not change it: the first `len` words
/// stand for what all of `words` stand for, where the words above them are
/// zero.
pub proof fn lemma_value_prefix(words: Seq<u32>, len: int)
    requires
        0 <= len <= words.len(),
        spec_zero_from(words, len),
    ensures
        spec_value(words.subrange(0, len)) == spec_value(words),
    decreases len,
{
    if len == 0 {
        lemma_value_of_zeros(words);
    } else {
        let tail = words.subrange(1, words.len() as int);
        let prefix = words.subrange(0, len);
        lemma_value_prefix(tail, len - 1);
        assert(prefix.subrange(1, prefix.len() as int) =~= tail.subrange(0, len - 1));
    }
}

/// Reading a result up to its most significant word loses nothing: where
/// the engine has left `words` and the buffer has room for them, the read
/// gives the words up to the most significant one, which stand for the
/// number that `words` stand for.
pub proof fn lemma_sized_result_keeps_the_value(
    pka: PkaView,
    base: u32,
    words: Seq<u32>,
    before: Seq<u32>,
)
    requires
        spec_left(pka, base, words),
        words.len() <= before.len(),
    ensures
        spec_sized_result(pka, base, before).0 matches Ok(len) && len <= words.len()
            && spec_sized_result(pka, base, before).1.subrange(0, len as int) == words.subrange(
            0,
            len as int,
        ) && spec_value(words.subrange(0, len as int)) == spec_value(words),
{
    let read = spec_sized_result(pka, base, before);
    if spec_zero_from(words, 0) {
        lemma_value_of_zeros(words);
        assert(words.subrange(0, 0) =~= Seq::<u32>::empty());
        assert(read.1.subrange(0, 0) =~= words.subrange(0, 0));
    } else {
        let len = spec_msw_address(pka.msw) - base + 1;
        lemma_value_prefix(words, len);
        assert(read.1.subrange(0, len) =~= words.subrange(0, len));
    }
}

/// The words that a read of a result puts into a buffer of zeros of
/// `capacity` words: the words up to the length of the result, and none
/// where there is no result.
pub open spec fn spec_read_words(pka: PkaView, base: u32, capacity: nat) -> Seq<u32> {
    let read = spec_sized_result(pka, base, spec_zeros(capacity));
    match read.0 {
        Ok(len) => read.1.subrange(0, len as int),
        Err(_) => Seq::empty(),
    }
}

/// Adding a number and then subtracting it gives the first number back,
/// where the engine adds and subtracts as the numbers do and the buffers
/// have room for the results.
///
/// The engine leaves the sum of `a` and `b` in `sum_words`, and the driver
/// reads the sum up to its most significant word. The engine then leaves
/// the difference of the sum that the driver read and `b` in
/// `difference_words`, and the driver reads it in the same way. What it
/// reads stands for the number that `a` stands for.
pub proof fn lemma_add_then_sub_recovers(
    a: Seq<u32>,
    b: Seq<u32>,
    after_add: PkaView,
    sum_words: Seq<u32>,
    after_sub: PkaView,
    difference_words: Seq<u32>,
)
    requires
        spec_left(after_add, after_add.cptr, sum_words),
        spec_value(sum_words) == spec_value(a) + spec_value(b),
        spec_left(after_sub, after_sub.cptr, difference_words),
        spec_value(difference_words) + spec_value(b) == spec_value(
            spec_read_words(after_add, after_add.cptr, sum_words.len()),
        ),
    ensures
        spec_sized_result(after_add, after_add.cptr, spec_zeros(sum_words.len())).0 is Ok,
        spec_sized_result(after_sub, after_sub.cptr, spec_zeros(difference_words.len())).0 is Ok,
        spec_value(spec_read_words(after_add, after_add.cptr, sum_words.len())) == spec_value(a)
            + spec_value(b),
        spec_value(spec_read_words(after_sub, after_sub.cptr, difference_words.len()))
            == spec_value(a),
{
    lemma_sized_result_keeps_the_value(
        after_add,
        after_add.cptr,
        sum_words,
        spec_zeros(sum_words.len()),
    );
    lemma_sized_result_keeps_the_value(
        after_sub,
        after_sub.cptr,
        difference_words,
        spec_zeros(difference_words.len()),
    );
}

/// A function value with the run bit shows a running engine: once an
/// operation was started in an image, every further start is refused, and
/// leaves the image as it is, until the image shows that the engine has
/// ended.
pub proof fn lemma_started_runs(function: u32)
    ensures
        spec_running(function | PKA_FUNCTION_RUN),
{
    assert((function | 0x8000u32) & 0x8000u32 != 0) by (bit_vector);
}

/// Whether two vectors of `len1` and `len2` words fit in the memory, one
/// after the other.
pub fn fits_two(len1: usize, len2: usize) -> (fits: bool)
    ensures
        fits == spec_fits_two(len1 as nat, len2 as nat),
{
    len1 < 512 && len2 < 512 && (4 * len1 + 7) / 8 * 8 + 4 * len2 < PKA_RAM_SIZE
}

/// Whether three vectors of `len1`, `len2` and `len3` words fit in the
/// memory, one after the other.
pub fn fits_three(len1: usize, len2: usize, len3: usize) -> (fits: bool)
    ensures
        fits == spec_fits_three(len1 as nat, len2 as nat, len3 as nat),
{
    fits_two(len1, len2) && len3 < 512 && (4 * len1 + 7) / 8 * 8 + (4 * len2 + 7) / 8 * 8 + 4 * len3
        < PKA_RAM_SIZE
}

/// Sets every word of `result` to zero.
pub fn fill_zeros(result: &mut [u32])
    ensures
        final(result)@ == spec_zeros(old(result)@.len()),
{
    let n = result.len();
    let mut i: usize = 0;
    while i < n
        invariant
            i <= n,
            n == result@.len(),
            n == old(result)@.len(),
            forall|j: int| 0 <= j < i ==> result@[j] == 0,
        decreases n - i,
    {
        result[i] = 0;
        i = i + 1;
    }
    assert(result@ =~= spec_zeros(old(result)@.len()));
}

/// The word offset of a vector at `offset` bytes.
pub(crate) fn word_offset(offset: usize) -> (word: u32)
    requires
        offset <= 2 * PKA_RAM_SIZE,
    ensures
        word == offset as int / 4,
{
    (offset / 4) as u32
}

/// A length in words as a register takes it.
fn length_word(len: usize) -> (word: u32)
    requires
        4 * len < PKA_RAM_SIZE,
    ensures
        word == len,
{
    len as u32
}

/// The place of the most significant word in a value of the MSW register.
pub(crate) fn msw_address(msw: u32) -> (address: u32)
    ensures
        address == spec_msw_address(msw),
        address <= 0x7ff,
{
    assert(msw & 0x7ff <= 0x7ff) by (bit_vector);
    msw & PKA_MSW_ADDRESS_MASK
}

impl<State> Crypto<State> {
    /// Stores `data` in the memory at `offset` bytes and returns the offset
    /// at which the next vector starts.
    fn stage(&mut self, data: &[u32], offset: usize) -> (next: usize)
        requires
            offset % 8 == 0,
            offset + 4 * data@.len() < PKA_RAM_SIZE,
        ensures
            final(self)@ == (PkaView {
                ram: spec_store(old(self)@.ram, offset as int / 4, data@),
                ..old(self)@
            }),
            next == offset + spec_align8(4 * data@.len() as int),
            next % 8 == 0,
            next <= PKA_RAM_SIZE + 8,
    {
        let advance = self.pka.ram.write_slice(data, offset);
        offset + advance
    }

    /// Stores `data` in the memory at `offset` bytes as a vector of `len`
    /// words, with zeros above the words of `data`, and returns the offset
    /// at which the next vector starts.
    pub(crate) fn stage_extended(&mut self, data: &[u32], len: usize, offset: usize) -> (next: usize)
        requires
            offset % 8 == 0,
            data@.len() <= len,
            offset + 4 * len < PKA_RAM_SIZE,
        ensures
            final(self)@ == (PkaView {
                ram: spec_store(
                    old(self)@.ram,
                    offset as int / 4,
                    spec_extended(data@, len as nat),
                ),
                ..old(self)@
            }),
            next == offset + spec_align8(4 * len as int),
            next % 8 == 0,
            next <= PKA_RAM_SIZE + 8,
    {
        let count = data.len();
        proof {
            self.pka.ram.lemma_len();
        }
        self.pka.ram.write_slice(data, offset);
        self.pka.ram.write_zeros(offset / 4 + count, len - count);
        assert(self@.ram =~= spec_store(
            old(self)@.ram,
            offset as int / 4,
            spec_extended(data@, len as nat),
        ));
        offset + (4 * len + 7) / 8 * 8
    }

    /// Copies `len` words of the memory, from word `base` on, to the front
    /// of `result`, if they lie in the memory and fit in `result`.
    fn read_window(&self, result: &mut [u32], base: u32, len: u64) -> (done: bool)
        ensures
            done == spec_fits(base as int, len as int, old(result)@.len() as int),
            final(result)@ == if done {
                spec_window(self@.ram, base as int, len as int, old(result)@)
            } else {
                old(result)@
            },
    {
        if len >= 512 || base >= 512 {
            return false;
        }
        if len > result.len() as u64 || 4 * (base as u64) + 4 * len >= 0x800 {
            return false;
        }
        let n: usize = len as usize;
        let (head, tail) = result.split_at_mut(n);
        self.pka.ram.read_slice(head, 4 * (base as usize));
        assert(head@ + tail@ =~= spec_window(self@.ram, base as int, len as int, old(result)@));
        true
    }

    /// Reads a result whose length the engine reports through the place of
    /// its most significant word, from word `base` on.
    fn sized_result(&self, base: u32, result: &mut [u32]) -> (r: Result<usize, CryptoError>)
        ensures
            (r, final(result)@) == spec_sized_result(self@, base, old(result)@),
    {
        if self.is_pka_in_use() {
            return Err(CryptoError::PkaBusy);
        }
        if self.pka.msw & PKA_MSW_RESULT_IS_ZERO != 0 {
            fill_zeros(result);
            return Ok(0);
        }
        let result_end = msw_address(self.pka.msw);
        if result_end < base {
            return Err(CryptoError::PkaFailure);
        }
        let len: u64 = (result_end - base) as u64 + 1;
        if self.read_window(result, base, len) {
            Ok(len as usize)
        } else {
            Err(CryptoError::PkaFailure)
        }
    }

    /// Lays `num1` and `num2` out as vectors A and B, with vector C behind
    /// them, and starts the operation `function`.
    fn two_operands(&mut self, num1: &[u32], num2: &[u32], function: u32) -> (r: Result<
        (),
        CryptoError,
    >)
        requires
            !spec_running(old(self)@.function) ==> spec_fits_two(num1@.len(), num2@.len()),
        ensures
            spec_started(
                old(self)@,
                final(self)@,
                r,
                spec_two_operands(old(self)@, num1@, num2@, function),
            ),
    {
        if self.is_pka_in_use() {
            return Err(CryptoError::PkaBusy);
        }
        let mut offset: usize = 0;

        // Save the address of the A vector.
        self.pka.aptr = word_offset(offset);
        offset = self.stage(num1, offset);

        // Save the address of the B vector.
        self.pka.bptr = word_offset(offset);
        offset = self.stage(num2, offset);

        // Save the address of the C vector.
        self.pka.cptr = word_offset(offset);

        self.pka.alength = length_word(num1.len());
        self.pka.blength = length_word(num2.len());

        // Start the operation.
        self.pka.function = function;
        Ok(())
    }

    /// Addition of two bignums: lays `num1` and `num2` out and starts the
    /// addition. The sum has at most one word more than the longer operand.
    pub fn add(&mut self, num1: &[u32], num2: &[u32]) -> (r: Result<(), CryptoError>)
        requires
            !spec_running(old(self)@.function) ==> spec_fits_two(num1@.len(), num2@.len()),
        ensures
            spec_started(
                old(self)@,
                final(self)@,
                r,
                spec_two_operands(old(self)@, num1@, num2@, PKA_FUNCTION_ADD | PKA_FUNCTION_RUN),
            ),
    {
        self.two_operands(num1, num2, PKA_FUNCTION_ADD | PKA_FUNCTION_RUN)
    }

    /// Reads the sum that the engine left into `result` and returns its
    /// length in words.
    pub fn add_result(&self, result: &mut [u32]) -> (r: Result<usize, CryptoError>)
        ensures
            (r, final(result)@) == spec_sized_result(self@, self@.cptr, old(result)@),
    {
        self.sized_result(self.pka.cptr, result)
    }

    /// Subtraction of two bignums: lays `num1` and `num2` out and starts
    /// the subtraction of `num2` from `num1`. The difference is at most as
    /// long as the longer operand.
    pub fn sub(&mut self, num1: &[u32], num2: &[u32]) -> (r: Result<(), CryptoError>)
        requires
            !spec_running(old(self)@.function) ==> spec_fits_two(num1@.len(), num2@.len()),
        ensures
            spec_started(
                old(self)@,
                final(self)@,
                r,
                spec_two_operands(
                    old(self)@,
                    num1@,
                    num2@,
                    PKA_FUNCTION_SUBTRACT | PKA_FUNCTION_RUN,
                ),
            ),
    {
        self.two_operands(num1, num2, PKA_FUNCTION_SUBTRACT | PKA_FUNCTION_RUN)
    }

    /// Reads the difference that the engine left into `result` and returns
    /// its length in words.
    pub fn sub_result(&self, result: &mut [u32]) -> (r: Result<usize, CryptoError>)
        ensures
            (r, final(result)@) == spec_sized_result(self@, self@.cptr, old(result)@),
    {
        self.sized_result(self.pka.cptr, result)
    }

    /// Addition and subtraction of three bignums: lays them out, each at the
    /// length of the longest, and starts the computation of `a + c - b`.
    /// The result is as long as the operands are laid out.
    pub fn add_sub(&mut self, a: &[u32], c: &[u32], b: &[u32]) -> (r: Result<(), CryptoError>)
        requires
            !spec_running(old(self)@.function) ==> spec_fits_three(
                spec_add_sub_len(a@, c@, b@),
                spec_add_sub_len(a@, c@, b@),
                spec_add_sub_len(a@, c@, b@),
            ),
        ensures
            spec_started(old(self)@, final(self)@, r, spec_add_sub(old(self)@, a@, c@, b@)),
    {
        if self.is_pka_in_use() {
            return Err(CryptoError::PkaBusy);
        }
        let len = longer(a.len(), longer(b.len(), c.len()));
        let mut offset: usize = 0;

        // Save the address of the A vector.
        self.pka.aptr = word_offset(offset);
        offset = self.stage_extended(a, len, offset);

        // Save the address of the B vector.
        self.pka.bptr = word_offset(offset);
        offset = self.stage_extended(b, len, offset);

        // Save the address of the C vector.
        self.pka.cptr = word_offset(offset);
        offset = self.stage_extended(c, len, offset);

        // Save the address of the D vector.
        self.pka.dptr = word_offset(offset);

        self.pka.alength = length_word(len);

        // Start the operation.
        self.pka.function = PKA_FUNCTION_ADDSUB | PKA_FUNCTION_RUN;
        Ok(())
    }

    /// Reads what the engine left of `a + c - b` into `result` and returns
    /// its length in words.
    pub fn add_sub_result(&self, result: &mut [u32]) -> (r: Result<usize, CryptoError>)
        ensures
            (r, final(result)@) == spec_sized_result(self@, self@.dptr, old(result)@),
    {
        self.sized_result(self.pka.dptr, result)
    }

    /// Multiplication of two bignums: lays `num1` and `num2` out and starts
    /// the multiplication. The product has as many words as both operands
    /// together; the engine uses 6 words more behind it.
    pub fn mul(&mut self, num1: &[u32], num2: &[u32]) -> (r: Result<(), CryptoError>)
        requires
            !spec_running(old(self)@.function) ==> spec_fits_two(num1@.len(), num2@.len()),
        ensures
            spec_started(
                old(self)@,
                final(self)@,
                r,
                spec_two_operands(
                    old(self)@,
                    num1@,
                    num2@,
                    PKA_FUNCTION_MULTIPLY | PKA_FUNCTION_RUN,
                ),
            ),
    {
        self.two_operands(num1, num2, PKA_FUNCTION_MULTIPLY | PKA_FUNCTION_RUN)
    }

    /// Reads the product that the engine left into `result` and returns its
    /// length in words.
    pub fn mul_result(&self, result: &mut [u32]) -> (r: Result<usize, CryptoError>)
        ensures
            (r, final(result)@) == spec_sized_result(self@, self@.cptr, old(result)@),
    {
        self.sized_result(self.pka.cptr, result)
    }

    /// Modulo of a bignum: lays `num1` and `num2` out and starts the
    /// computation of the remainder of `num1` modulo `num2`. The remainder
    /// has one word more than `num2`.
    pub fn modulo(&mut self, num1: &[u32], num2: &[u32]) -> (r: Result<(), CryptoError>)
        requires
            !spec_running(old(self)@.function) ==> spec_fits_two(num1@.len(), num2@.len()),
        ensures
            spec_started(
                old(self)@,
                final(self)@,
                r,
                spec_two_operands(old(self)@, num1@, num2@, PKA_FUNCTION_MODULO | PKA_FUNCTION_RUN),
            ),
    {
        self.two_operands(num1, num2, PKA_FUNCTION_MODULO | PKA_FUNCTION_RUN)
    }

    /// Reads the remainder that the engine left into `result` and returns
    /// its length in words, one more than the length of the modulus.
    pub fn modulo_result(&self, result: &mut [u32]) -> (r: Result<usize, CryptoError>)
        ensures
            (r, final(result)@) == spec_modulo_result(self@, old(result)@),
    {
        if self.is_pka_in_use() {
            return Err(CryptoError::PkaBusy);
        }
        let len: u64 = self.pka.blength as u64 + 1;
        let ghost before = result@;
        if !self.read_window(result, self.pka.cptr, len) {
            return Err(CryptoError::PkaFailure);
        }
        if self.pka.msw & PKA_MSW_RESULT_IS_ZERO != 0 {
            fill_zeros(result);
            assert(result@.len() == before.len());
        }
        Ok(len as usize)
    }

    /// Inverse modulo of a bignum: lays `num1` and `num2` out and starts
    /// the computation of the inverse of `num1` modulo `num2`. The inverse
    /// is as long as `num1`.
    pub fn inv_modulo(&mut self, num1: &[u32], num2: &[u32]) -> (r: Result<(), CryptoError>)
        requires
            !spec_running(old(self)@.function) ==> spec_fits_two(num1@.len(), num2@.len()),
        ensures
            spec_started(
                old(self)@,
                final(self)@,
                r,
                spec_two_operands(old(self)@, num1@, num2@, PKA_SEQ_INV_MOD | PKA_FUNCTION_RUN),
            ),
    {
        self.two_operands(num1, num2, PKA_SEQ_INV_MOD | PKA_FUNCTION_RUN)
    }

    /// Reads the inverse that the engine left into `result`.
    ///
    /// Where the engine found that the number has no inverse under the
    /// modulus, this is `NoSolution` and `result` stays as it is. Any other
    /// status than success is a `PkaFailure`.
    pub fn inv_modulo_result(&self, result: &mut [u32]) -> (r: Result<(), CryptoError>)
        ensures
            (r, final(result)@) == spec_inv_modulo_result(self@, old(result)@),
            self@.shift == PKA_STATUS_NO_SOLUTION && !spec_running(self@.function) ==> r == Err::<
                (),
                CryptoError,
            >(CryptoError::NoSolution),
    {
        if self.is_pka_in_use() {
            return Err(CryptoError::PkaBusy);
        }
        let status = self.pka.shift;
        if status == PKA_STATUS_NO_SOLUTION {
            Err(CryptoError::NoSolution)
        } else if status == 0 {
            if self.read_window(result, self.pka.cptr, self.pka.alength as u64) {
                Ok(())
            } else {
                Err(CryptoError::PkaFailure)
            }
        } else {
            Err(CryptoError::PkaFailure)
        }
    }

    /// Exponentiation of a bignum: lays the operands out and starts the
    /// computation of `base` to the power of `exponent`, modulo `modulus`.
    /// The engine takes the base at the length of the modulus, so the base
    /// has no more words than the modulus.
    pub fn exp(&mut self, exponent: &[u32], modulus: &[u32], base: &[u32]) -> (r: Result<
        (),
        CryptoError,
    >)
        requires
            !spec_running(old(self)@.function) ==> base@.len() <= modulus@.len() && spec_fits_three(
                exponent@.len(),
                modulus@.len(),
                modulus@.len(),
            ),
        ensures
            spec_started(
                old(self)@,
                final(self)@,
                r,
                spec_exp(old(self)@, exponent@, modulus@, base@),
            ),
    {
        if self.is_pka_in_use() {
            return Err(CryptoError::PkaBusy);
        }
        let mut offset: usize = 0;

        // Save the address of the A vector.
        self.pka.aptr = word_offset(offset);
        offset = self.stage(exponent, offset);

        // Save the address of the B vector.
        self.pka.bptr = word_offset(offset);
        offset = self.stage(modulus, offset);

        // Save the address of the C vector.
        self.pka.cptr = word_offset(offset);
        self.stage_extended(base, modulus.len(), offset);

        // C and D can share the same address.
        // Save the address of the D vector.
        self.pka.dptr = word_offset(offset);

        self.pka.alength = length_word(exponent.len());
        self.pka.blength = length_word(modulus.len());

        // Start the exp operation.
        self.pka.function = PKA_SEQ_EXP | PKA_FUNCTION_RUN;
        Ok(())
    }

    /// Reads the power that the engine left into `result` and returns its
    /// length in words.
    pub fn exp_result(&self, result: &mut [u32]) -> (r: Result<usize, CryptoError>)
        ensures
            (r, final(result)@) == spec_exp_result(self@, old(result)@),
    {
        if self.is_pka_in_use() {
            return Err(CryptoError::PkaBusy);
        }
        let msw_val = msw_address(self.pka.msw);
        if msw_val == 0 || self.pka.msw & PKA_MSW_RESULT_IS_ZERO != 0 {
            return Ok(0);
        }
        let len1: u64 = msw_val as u64 + 1;
        let len2: u64 = self.pka.dptr as u64;
        if len1 < len2 {
            return Err(CryptoError::PkaFailure);
        }
        let len: u64 = len1 - len2;
        if self.read_window(result, self.pka.dptr, len) {
            Ok(len as usize)
        } else {
            Err(CryptoError::PkaFailure)
        }
    }
}

impl<State> Crypto<State> {
    /// Comparison of two bignums: lays `num1` out as vector A and `num2`
    /// as vector C, both at the length of the longer, and starts the
    /// comparison.
    pub fn cmp(&mut self, num1: &[u32], num2: &[u32]) -> (r: Result<(), CryptoError>)
        requires
            !spec_running(old(self)@.function) ==> spec_fits_two(
                spec_longer(num1@.len(), num2@.len()),
                spec_longer(num1@.len(), num2@.len()),
            ),
        ensures
            spec_started(old(self)@, final(self)@, r, spec_compare(old(self)@, num1@, num2@)),
    {
        if self.is_pka_in_use() {
            return Err(CryptoError::PkaBusy);
        }
        let len = longer(num1.len(), num2.len());
        let mut offset: usize = 0;

        // Save the address of the A vector.
        self.pka.aptr = word_offset(offset);
        offset = self.stage_extended(num1, len, offset);

        // Save the address of the C vector.
        self.pka.cptr = word_offset(offset);
        self.stage_extended(num2, len, offset);

        self.pka.alength = length_word(len);

        // Start the comparison operation.
        self.pka.function = PKA_FUNCTION_COMPARE | PKA_FUNCTION_RUN;
        Ok(())
    }

    /// Reads how the engine found vector A against vector C. There is no
    /// ordering while the engine runs. An engine that has ended without
    /// telling how the numbers compare has failed.
    pub fn cmp_result(&self) -> (r: Result<Option<Ordering>, CryptoError>)
        ensures
            r == compared(self@),
    {
        if self.is_pka_in_use() {
            return Ok(None);
        }
        let compare = self.pka.compare;
        if compare & PKA_COMPARE_A_EQUALS_B != 0 {
            Ok(Some(Ordering::Equal))
        } else if compare & PKA_COMPARE_A_LESS_THAN_B != 0 {
            Ok(Some(Ordering::Less))
        } else if compare & PKA_COMPARE_A_GREATER_THAN_B != 0 {
            Ok(Some(Ordering::Greater))
        } else {
            Err(CryptoError::PkaFailure)
        }
    }
}

/// Represents a big number for the CC2538 crypto accelerator.
///
/// The number has room for `MAX_LEN` words, of which the first `size` are
/// in use, least significant word first.
#[derive(Debug, Eq, PartialEq)]
pub struct BigNum<const MAX_LEN: usize> {
    buffer: [u32; MAX_LEN],
    size: usize,
}

/// What a big number holds of a result that was read into a buffer of
/// `capacity` zeros: the words of the result, or the error.
pub open spec fn spec_number<const MAX_LEN: usize>(
    r: Result<BigNum<MAX_LEN>, CryptoError>,
    read: (Result<usize, CryptoError>, Seq<u32>),
) -> bool {
    match (r, read.0) {
        (Ok(number), Ok(len)) => number.wf() && number@ == read.1.subrange(0, len as int),
        (Err(e), Err(f)) => e == f,
        _ => false,
    }
}

impl<const MAX_LEN: usize> View for BigNum<MAX_LEN> {
    type V = Seq<u32>;

    /// The words in use, least significant first.
    closed spec fn view(&self) -> Seq<u32> {
        self.buffer@.subrange(0, self.size as int)
    }
}

impl<const MAX_LEN: usize> BigNum<MAX_LEN> {
    /// The words in use are within the room of the number.
    pub closed spec fn wf(&self) -> bool {
        self.size <= MAX_LEN
    }

    /// Every word that the number stores, in use or not: `MAX_LEN` words.
    pub closed spec fn stored(&self) -> Seq<u32> {
        self.buffer@
    }

    /// A number has as many words as are in use, and no more than it has
    /// room for. The words in use are the first of the words that it
    /// stores.
    pub proof fn lemma_len(&self)
        requires
            self.wf(),
        ensures
            self@.len() <= MAX_LEN,
            self.stored().len() == MAX_LEN,
            self@ == self.stored().subrange(0, self@.len() as int),
    {
    }

    /// Whether the words in use are within the room of the number.
    pub fn is_valid(&self) -> (valid: bool)
        ensures
            valid == self.wf(),
    {
        self.size <= MAX_LEN
    }

    /// Create a new big number, with `size` amount of words to use from the buffer.
    pub fn new(size: usize) -> (number: Self)
        requires
            size <= MAX_LEN,
        ensures
            number.wf(),
            number@ == spec_zeros(size as nat),
            number.stored() == spec_zeros(MAX_LEN as nat),
    {
        let number = Self { buffer: [0u32; MAX_LEN], size };
        assert(number@ =~= spec_zeros(size as nat));
        assert(number.stored() =~= spec_zeros(MAX_LEN as nat));
        number
    }

    /// Set the amount of words to use from the buffer. Every stored word
    /// stays as it is, so the words that come into use are those that the
    /// number stored there before.
    pub fn set_size(&mut self, size: usize)
        requires
            size <= MAX_LEN,
            old(self).wf(),
        ensures
            final(self).wf(),
            final(self).stored() == old(self).stored(),
            final(self)@ == old(self).stored().subrange(0, size as int),
            final(self)@.len() == size,
            size <= old(self)@.len() ==> final(self)@ == old(self)@.subrange(0, size as int),
            size >= old(self)@.len() ==> final(self)@.subrange(0, old(self)@.len() as int) == old(
                self,
            )@,
    {
        self.size = size;
        assert(size <= old(self)@.len() ==> self@ =~= old(self)@.subrange(0, size as int));
        assert(size >= old(self)@.len() ==> self@.subrange(0, old(self)@.len() as int) =~= old(
            self,
        )@);
    }

    /// Return a slice to the buffer.
    pub fn inner(&self) -> (words: &[u32])
        requires
            self.wf(),
        ensures
            words@ == self@,
    {
        vstd::slice::slice_subrange(self.buffer.as_slice(), 0, self.size)
    }

    /// Return a mutable slice to the buffer.
    pub fn inner_mut(&mut self) -> (words: &mut [u32])
        requires
            old(self).wf(),
        ensures
            words@ == old(self)@,
            final(self).wf(),
            final(self)@ == final(words)@,
            final(self).stored() == final(words)@ + old(self).stored().subrange(
                old(self)@.len() as int,
                MAX_LEN as int,
            ),
    {
        let size = self.size;
        let buffer: &mut [u32] = &mut self.buffer;
        let (words, rest) = buffer.split_at_mut(size);
        words
    }

    /// The number `tmp` cut to the length `len` of a result, or the error of
    /// the result.
    fn sized(tmp: Self, len: Result<usize, CryptoError>) -> (r: Result<Self, CryptoError>)
        requires
            tmp.wf(),
            len matches Ok(n) ==> n <= tmp@.len(),
        ensures
            spec_number(r, (len, tmp@)),
    {
        match len {
            Ok(n) => {
                let mut tmp = tmp;
                tmp.set_size(n);
                Ok(tmp)
            },
            Err(e) => Err(e),
        }
    }

    /// Addition of two big numbers: starts the addition of `rhs` to this
    /// number on the engine of `crypto`.
    pub fn add<const L: usize, State>(&self, rhs: &BigNum<L>, crypto: &mut Crypto<State>) -> (r:
        Result<(), CryptoError>)
        requires
            self.wf(),
            rhs.wf(),
            spec_longer(self@.len(), rhs@.len()) + 1 <= MAX_LEN,
            !spec_running(old(crypto)@.function) ==> spec_fits_two(self@.len(), rhs@.len()),
        ensures
            spec_started(
                old(crypto)@,
                final(crypto)@,
                r,
                spec_two_operands(old(crypto)@, self@, rhs@, PKA_FUNCTION_ADD | PKA_FUNCTION_RUN),
            ),
    {
        crypto.add(self.inner(), rhs.inner())
    }

    /// The sum of this number and `rhs` that the engine of `crypto` left.
    pub fn add_result<const L: usize, State>(&self, rhs: &BigNum<L>, crypto: &Crypto<State>) -> (r:
        Result<BigNum<MAX_LEN>, CryptoError>)
        requires
            self.wf(),
            rhs.wf(),
            spec_longer(self@.len(), rhs@.len()) + 1 <= MAX_LEN,
        ensures
            spec_number(
                r,
                spec_sized_result(
                    crypto@,
                    crypto@.cptr,
                    spec_zeros(spec_longer(self@.len(), rhs@.len()) + 1),
                ),
            ),
    {
        let mut tmp = BigNum::new(longer(self.size, rhs.size) + 1);
        let len = crypto.add_result(tmp.inner_mut());
        Self::sized(tmp, len)
    }

    /// Subtraction of two big numbers: starts the subtraction of `rhs` from
    /// this number on the engine of `crypto`.
    pub fn sub<const L: usize, State>(&self, rhs: &BigNum<L>, crypto: &mut Crypto<State>) -> (r:
        Result<(), CryptoError>)
        requires
            self.wf(),
            rhs.wf(),
            spec_longer(self@.len(), rhs@.len()) <= MAX_LEN,
            !spec_running(old(crypto)@.function) ==> spec_fits_two(self@.len(), rhs@.len()),
        ensures
            spec_started(
                old(crypto)@,
                final(crypto)@,
                r,
                spec_two_operands(
                    old(crypto)@,
                    self@,
                    rhs@,
                    PKA_FUNCTION_SUBTRACT | PKA_FUNCTION_RUN,
                ),
            ),
    {
        crypto.sub(self.inner(), rhs.inner())
    }

    /// The difference of this number and `rhs` that the engine of `crypto`
    /// left.
    pub fn sub_result<const L: usize, State>(&self, rhs: &BigNum<L>, crypto: &Crypto<State>) -> (r:
        Result<BigNum<MAX_LEN>, CryptoError>)
        requires
            self.wf(),
            rhs.wf(),
            spec_longer(self@.len(), rhs@.len()) <= MAX_LEN,
        ensures
            spec_number(
                r,
                spec_sized_result(
                    crypto@,
                    crypto@.cptr,
                    spec_zeros(spec_longer(self@.len(), rhs@.len())),
                ),
            ),
    {
        let mut tmp = BigNum::new(longer(self.size, rhs.size));
        let len = crypto.sub_result(tmp.inner_mut());
        Self::sized(tmp, len)
    }

    /// Addition and subtraction of three big numbers: starts the
    /// computation of this number plus `c` minus `b` on the engine of
    /// `crypto`.
    pub fn add_sub<State>(
        &self,
        c: &BigNum<MAX_LEN>,
        b: &BigNum<MAX_LEN>,
        crypto: &mut Crypto<State>,
    ) -> (r: Result<(), CryptoError>)
        requires
            self.wf(),
            c.wf(),
            b.wf(),
            !spec_running(old(crypto)@.function) ==> spec_fits_three(
                spec_add_sub_len(self@, c@, b@),
                spec_add_sub_len(self@, c@, b@),
                spec_add_sub_len(self@, c@, b@),
            ),
        ensures
            spec_started(old(crypto)@, final(crypto)@, r, spec_add_sub(old(crypto)@, self@, c@, b@)),
    {
        crypto.add_sub(self.inner(), c.inner(), b.inner())
    }

    /// What the engine of `crypto` left of this number plus `c` minus `b`,
    /// as a number of no more words than the longest of the three.
    pub fn add_sub_result<State>(
        &self,
        c: &BigNum<MAX_LEN>,
        b: &BigNum<MAX_LEN>,
        crypto: &Crypto<State>,
    ) -> (r: Result<BigNum<MAX_LEN>, CryptoError>)
        requires
            self.wf(),
            c.wf(),
            b.wf(),
        ensures
            spec_number(
                r,
                spec_sized_result(
                    crypto@,
                    crypto@.dptr,
                    spec_zeros(spec_add_sub_len(self@, c@, b@)),
                ),
            ),
    {
        let mut tmp = BigNum::new(longer(self.size, longer(b.size, c.size)));
        let len = crypto.add_sub_result(tmp.inner_mut());
        Self::sized(tmp, len)
    }

    /// Multiplication of two big numbers: starts the multiplication of this
    /// number by `rhs` on the engine of `crypto`.
    pub fn mul<const L: usize, State>(&self, rhs: &BigNum<L>, crypto: &mut Crypto<State>) -> (r:
        Result<(), CryptoError>)
        requires
            self.wf(),
            rhs.wf(),
            self@.len() + rhs@.len() + 6 <= MAX_LEN,
            !spec_running(old(crypto)@.function) ==> spec_fits_two(self@.len(), rhs@.len()),
        ensures
            spec_started(
                old(crypto)@,
                final(crypto)@,
                r,
                spec_two_operands(
                    old(crypto)@,
                    self@,
                    rhs@,
                    PKA_FUNCTION_MULTIPLY | PKA_FUNCTION_RUN,
                ),
            ),
    {
        crypto.mul(self.inner(), rhs.inner())
    }

    /// The product of this number and `rhs` that the engine of `crypto`
    /// left.
    pub fn mul_result<const L: usize, State>(&self, rhs: &BigNum<L>, crypto: &Crypto<State>) -> (r:
        Result<BigNum<MAX_LEN>, CryptoError>)
        requires
            self.wf(),
            rhs.wf(),
            self@.len() + rhs@.len() + 6 <= MAX_LEN,
        ensures
            spec_number(
                r,
                spec_sized_result(
                    crypto@,
                    crypto@.cptr,
                    spec_zeros(self@.len() + rhs@.len() + 6),
                ),
            ),
    {
        let mut tmp = BigNum::new(self.size + rhs.size + 6);
        let len = crypto.mul_result(tmp.inner_mut());
        Self::sized(tmp, len)
    }

    /// Modulus of two big numbers: starts the computation of the remainder
    /// of this number modulo `rhs` on the engine of `crypto`.
    pub fn modulo<const L: usize, State>(&self, rhs: &BigNum<L>, crypto: &mut Crypto<State>) -> (r:
        Result<(), CryptoError>)
        requires
            self.wf(),
            rhs.wf(),
            rhs@.len() + 2 <= MAX_LEN,
            !spec_running(old(crypto)@.function) ==> spec_fits_two(self@.len(), rhs@.len()),
        ensures
            spec_started(
                old(crypto)@,
                final(crypto)@,
                r,
                spec_two_operands(
                    old(crypto)@,
                    self@,
                    rhs@,
                    PKA_FUNCTION_MODULO | PKA_FUNCTION_RUN,
                ),
            ),
    {
        crypto.modulo(self.inner(), rhs.inner())
    }

    /// The remainder modulo `rhs` that the engine of `crypto` left.
    pub fn modulo_result<const L: usize, State>(rhs: &BigNum<L>, crypto: &Crypto<State>) -> (r:
        Result<BigNum<MAX_LEN>, CryptoError>)
        requires
            rhs.wf(),
            rhs@.len() + 2 <= MAX_LEN,
        ensures
            spec_number(r, spec_modulo_result(crypto@, spec_zeros(rhs@.len() + 2))),
    {
        let mut tmp = BigNum::new(rhs.size + 2);
        let len = crypto.modulo_result(tmp.inner_mut());
        Self::sized(tmp, len)
    }

    /// Inverse modulus of two big numbers: starts the computation of the
    /// inverse of this number modulo `rhs` on the engine of `crypto`.
    pub fn inv_mod<const L: usize, State>(&self, rhs: &BigNum<L>, crypto: &mut Crypto<State>) -> (r:
        Result<(), CryptoError>)
        requires
            self.wf(),
            rhs.wf(),
            rhs@.len() + 1 <= MAX_LEN,
            !spec_running(old(crypto)@.function) ==> spec_fits_two(self@.len(), rhs@.len()),
        ensures
            spec_started(
                old(crypto)@,
                final(crypto)@,
                r,
                spec_two_operands(old(crypto)@, self@, rhs@, PKA_SEQ_INV_MOD | PKA_FUNCTION_RUN),
            ),
    {
        crypto.inv_modulo(self.inner(), rhs.inner())
    }

    /// The inverse modulo `rhs` that the engine of `crypto` left, as a
    /// number of one word more than `rhs`.
    ///
    /// Where the engine found that the number has no inverse, this is
    /// `NoSolution`.
    pub fn inv_mod_result<const L: usize, State>(rhs: &BigNum<L>, crypto: &Crypto<State>) -> (r:
        Result<BigNum<MAX_LEN>, CryptoError>)
        requires
            rhs.wf(),
            rhs@.len() + 1 <= MAX_LEN,
        ensures
            match (r, spec_inv_modulo_result(crypto@, spec_zeros(rhs@.len() + 1))) {
                (Ok(number), (Ok(_), words)) => number.wf() && number@ == words,
                (Err(e), (Err(f), _)) => e == f,
                _ => false,
            },
            crypto@.shift == PKA_STATUS_NO_SOLUTION && !spec_running(crypto@.function) ==> (r
                matches Err(e) && e == CryptoError::NoSolution),
    {
        let mut tmp = BigNum::new(rhs.size + 1);
        match crypto.inv_modulo_result(tmp.inner_mut()) {
            Ok(()) => Ok(tmp),
            Err(e) => Err(e),
        }
    }

    /// Exponentiation with big numbers: starts the computation of `base`
    /// to the power of this number, modulo `modulus`, on the engine of
    /// `crypto`.
    pub fn exp<const L: usize, State>(
        &self,
        modulus: &BigNum<L>,
        base: &BigNum<L>,
        crypto: &mut Crypto<State>,
    ) -> (r: Result<(), CryptoError>)
        requires
            self.wf(),
            modulus.wf(),
            base.wf(),
            !spec_running(old(crypto)@.function) ==> base@.len() <= modulus@.len()
                && spec_fits_three(self@.len(), modulus@.len(), modulus@.len()),
        ensures
            spec_started(
                old(crypto)@,
                final(crypto)@,
                r,
                spec_exp(old(crypto)@, self@, modulus@, base@),
            ),
    {
        crypto.exp(self.inner(), modulus.inner(), base.inner())
    }

    /// The power that the engine of `crypto` left, as a number of `MAX_LEN`
    /// words.
    pub fn exp_result<State>(crypto: &Crypto<State>) -> (r: Result<BigNum<MAX_LEN>, CryptoError>)
        ensures
            match (r, spec_exp_result(crypto@, spec_zeros(MAX_LEN as nat))) {
                (Ok(number), (Ok(_), words)) => number.wf() && number@ == words,
                (Err(e), (Err(f), _)) => e == f,
                _ => false,
            },
    {
        let mut tmp = BigNum::new(MAX_LEN);
        match crypto.exp_result(tmp.inner_mut()) {
            Ok(_) => Ok(tmp),
            Err(e) => Err(e),
        }
    }

    /// Comparision of two big numbers: starts the comparison of this number
    /// with `rhs` on the engine of `crypto`.
    pub fn compare<const L: usize, State>(&self, rhs: &BigNum<L>, crypto: &mut Crypto<State>) -> (r:
        Result<(), CryptoError>)
        requires
            self.wf(),
            rhs.wf(),
            !spec_running(old(crypto)@.function) ==> spec_fits_two(
                spec_longer(self@.len(), rhs@.len()),
                spec_longer(self@.len(), rhs@.len()),
            ),
        ensures
            spec_started(old(crypto)@, final(crypto)@, r, spec_compare(old(crypto)@, self@, rhs@)),
    {
        crypto.cmp(self.inner(), rhs.inner())
    }

    /// How the engine of `crypto` found this number against the one it was
    /// compared with.
    pub fn compare_result<State>(&self, crypto: &Crypto<State>) -> (r: Result<
        Option<Ordering>,
        CryptoError,
    >)
        ensures
            r == compared(crypto@),
    {
        crypto.cmp_result()
    }
}

/// The longer of two lengths.
pub(crate) fn longer(a: usize, b: usize) -> (l: usize)
    ensures
        l == spec_longer(a as nat, b as nat),
{
    if a >= b {
        a
    } else {
        b
    }
}

} // verus!
