//! Elliptic curves on the big-number engine.
//!
//! The engine takes every coordinate and every parameter of a curve as a
//! vector with two words of room behind it. A curve of an even number of
//! words needs no more padding than that.

use crate::crypto::bignum::{
    lemma_extended, msw_address, spec_extended, spec_fits, spec_holds, spec_msw_address,
    spec_result_is_zero, spec_started, spec_value, word_offset,
};
use crate::crypto::regs::{
    PKA_FUNCTION_RUN, PKA_MSW_RESULT_IS_ZERO, PKA_SEQ_ECC_ADD, PKA_SEQ_ECC_MUL,
};
use crate::crypto::{
    spec_align8, spec_running, spec_store, Crypto, CryptoError, PkaView, PKA_RAM_SIZE,
    PKA_RAM_WORDS,
};
use vstd::prelude::*;

verus! {

/// State of an engine that was selected for elliptic curve operations.
pub struct EccEngine {}

/// Status of an operation on a curve that counts as a success, as the
/// status 0 does.
pub const PKA_STATUS_ALTERNATE: u32 = 7;

/// A named curve: its parameters and its base point, each as `size` words,
/// least significant word first.
pub struct EccCurveInfo<'e> {
    pub name: &'e str,
    pub size: usize,
    pub prime: &'e [u32],
    pub order: &'e [u32],
    pub a_coef: &'e [u32],
    pub b_coef: &'e [u32],
    pub bp_x: &'e [u32],
    pub bp_y: &'e [u32],
}

/// A point of a curve.
pub struct EcPoint<'p> {
    pub x: &'p [u32],
    pub y: &'p [u32],
}

/// Number of bytes that a vector of a curve of `size` words takes in the
/// memory: its words and two words of room.
pub open spec fn spec_slot(size: nat) -> int {
    4 * size as int + 8
}

/// The image that multiplies `point` by `scalar` on `curve`: the scalar as
/// vector A; the prime and the two coefficients as vector B; the
/// coordinates of the point as vector C; and vector D behind them. The
/// engine takes the scalar at the size of the curve, so the scalar is laid
/// out at that size, with zeros above it.
pub open spec fn spec_ecc_mul(
    before: PkaView,
    curve: EccCurveInfo,
    scalar: Seq<u32>,
    point: EcPoint,
) -> PkaView {
    let slot = spec_slot(curve.size as nat);
    let b = spec_align8(4 * curve.size as int);
    let c = b + 3 * slot;
    let d = c + 2 * slot;
    PkaView {
        aptr: 0,
        bptr: (b / 4) as u32,
        cptr: (c / 4) as u32,
        dptr: (d / 4) as u32,
        alength: curve.size as u32,
        blength: curve.size as u32,
        function: PKA_SEQ_ECC_MUL | PKA_FUNCTION_RUN,
        ram: spec_store(
            spec_store(
                spec_store(
                    spec_store(
                        spec_store(
                            spec_store(before.ram, 0, spec_extended(scalar, curve.size as nat)),
                            b / 4,
                            curve.prime@,
                        ),
                        (b + slot) / 4,
                        curve.a_coef@,
                    ),
                    (b + 2 * slot) / 4,
                    curve.b_coef@,
                ),
                c / 4,
                point.x@,
            ),
            (c + slot) / 4,
            point.y@,
        ),
        ..before
    }
}

/// The image that adds `point_a` and `point_b` on `curve`: the coordinates
/// of the first point as vector A; the prime and the first coefficient as
/// vector B; the coordinates of the second point as vector C; and vector D
/// behind them.
pub open spec fn spec_ecc_add(
    before: PkaView,
    curve: EccCurveInfo,
    point_a: EcPoint,
    point_b: EcPoint,
) -> PkaView {
    let slot = spec_slot(curve.size as nat);
    PkaView {
        aptr: 0,
        bptr: (2 * slot / 4) as u32,
        cptr: (4 * slot / 4) as u32,
        dptr: (6 * slot / 4) as u32,
        blength: curve.size as u32,
        function: PKA_SEQ_ECC_ADD | PKA_FUNCTION_RUN,
        ram: spec_store(
            spec_store(
                spec_store(
                    spec_store(
                        spec_store(spec_store(before.ram, 0, point_a.x@), slot / 4, point_a.y@),
                        2 * slot / 4,
                        curve.prime@,
                    ),
                    3 * slot / 4,
                    curve.a_coef@,
                ),
                4 * slot / 4,
                point_b.x@,
            ),
            5 * slot / 4,
            point_b.y@,
        ),
        ..before
    }
}

/// Where the second coordinate of a result of `len` words starts, in words
/// behind the first: behind the first coordinate, its two words of room,
/// and one word more where `len` is odd.
pub open spec fn spec_second(len: int) -> int {
    len + 2 + len % 2
}

/// What the engine left of a point: the result and the buffer `before`
/// after the read.
///
/// The status of the sequencer is 0 or 7 where it found a point. The
/// coordinates reach from vector D to the most significant word, the second
/// behind the first, and go to the front of the buffer one after the other.
/// A status of another value, a result of zero or without a most
/// significant word, and coordinates that do not lie in the memory or do
/// not fit in the buffer are failures, which leave the buffer as it is.
pub open spec fn spec_ecc_result(pka: PkaView, before: Seq<u32>) -> (
    Result<(), CryptoError>,
    Seq<u32>,
) {
    let len = spec_msw_address(pka.msw) + 1 - pka.dptr;
    let second = pka.dptr + spec_second(len);
    if spec_running(pka.function) {
        (Err(CryptoError::PkaBusy), before)
    } else if pka.shift != 0 && pka.shift != PKA_STATUS_ALTERNATE {
        (Err(CryptoError::PkaFailure), before)
    } else if spec_msw_address(pka.msw) == 0 || spec_result_is_zero(pka.msw) {
        (Err(CryptoError::PkaFailure), before)
    } else if spec_fits(pka.dptr as int, len, before.len() as int) && spec_fits(
        second,
        len,
        before.len() - len,
    ) {
        (
            Ok(()),
            pka.ram.subrange(pka.dptr as int, pka.dptr + len) + pka.ram.subrange(
                second,
                second + len,
            ) + before.subrange(2 * len, before.len() as int),
        )
    } else {
        (Err(CryptoError::PkaFailure), before)
    }
}

/// The layout of a multiplication on a curve: every vector starts at an
/// even word; the scalar, at the size of the curve, the parameters of the
/// curve and the coordinates of the point lie in the memory as they were
/// given, the parameters and the coordinates each with two words of room
/// behind them; and the result comes behind them. The scalar stands for
/// the same number at the size of the curve.
pub proof fn lemma_ecc_mul_layout(
    before: PkaView,
    curve: EccCurveInfo,
    scalar: Seq<u32>,
    point: EcPoint,
)
    requires
        curve.wf(),
        point.on(curve),
        scalar.len() <= curve.size,
        before.ram.len() == PKA_RAM_WORDS,
    ensures
        ({
            let p = spec_ecc_mul(before, curve, scalar, point);
            let size = curve.size as int;
            let a = spec_extended(scalar, curve.size as nat);
            &&& p.alength == size && p.blength == size
            &&& a.len() == size
            &&& spec_value(a) == spec_value(scalar)
            &&& p.aptr % 2 == 0 && p.bptr % 2 == 0 && p.cptr % 2 == 0 && p.dptr % 2 == 0
            &&& p.aptr + size <= p.bptr
            &&& p.cptr == p.bptr + 3 * (size + 2)
            &&& p.dptr == p.cptr + 2 * (size + 2)
            &&& spec_holds(p.ram, p.aptr as int, a)
            &&& spec_holds(p.ram, p.bptr as int, curve.prime@)
            &&& spec_holds(p.ram, p.bptr + (size + 2), curve.a_coef@)
            &&& spec_holds(p.ram, p.bptr + 2 * (size + 2), curve.b_coef@)
            &&& spec_holds(p.ram, p.cptr as int, point.x@)
            &&& spec_holds(p.ram, p.cptr + (size + 2), point.y@)
        }),
{
    let p = spec_ecc_mul(before, curve, scalar, point);
    let size = curve.size as int;
    let a = spec_extended(scalar, curve.size as nat);
    lemma_extended(scalar, curve.size as nat);
    assert(p.ram.subrange(p.aptr as int, p.aptr + size) =~= a);
    assert(p.ram.subrange(p.bptr as int, p.bptr + size) =~= curve.prime@);
    assert(p.ram.subrange(p.bptr + (size + 2), p.bptr + (size + 2) + size) =~= curve.a_coef@);
    assert(p.ram.subrange(p.bptr + 2 * (size + 2), p.bptr + 2 * (size + 2) + size)
        =~= curve.b_coef@);
    assert(p.ram.subrange(p.cptr as int, p.cptr + size) =~= point.x@);
    assert(p.ram.subrange(p.cptr + (size + 2), p.cptr + (size + 2) + size) =~= point.y@);
}

/// The layout of an addition on a curve: every vector starts at an even
/// word; the coordinates of both points and the parameters of the curve
/// lie in the memory as they were given, each with two words of room
/// behind it; and the result comes behind them.
pub proof fn lemma_ecc_add_layout(
    before: PkaView,
    curve: EccCurveInfo,
    point_a: EcPoint,
    point_b: EcPoint,
)
    requires
        curve.wf(),
        point_a.on(curve),
        point_b.on(curve),
        before.ram.len() == PKA_RAM_WORDS,
    ensures
        ({
            let p = spec_ecc_add(before, curve, point_a, point_b);
            let size = curve.size as int;
            &&& p.aptr == 0
            &&& p.bptr == 2 * (size + 2)
            &&& p.cptr == 4 * (size + 2)
            &&& p.dptr == 6 * (size + 2)
            &&& p.bptr % 2 == 0 && p.cptr % 2 == 0 && p.dptr % 2 == 0
            &&& spec_holds(p.ram, 0, point_a.x@)
            &&& spec_holds(p.ram, size + 2, point_a.y@)
            &&& spec_holds(p.ram, p.bptr as int, curve.prime@)
            &&& spec_holds(p.ram, p.bptr + (size + 2), curve.a_coef@)
            &&& spec_holds(p.ram, p.cptr as int, point_b.x@)
            &&& spec_holds(p.ram, p.cptr + (size + 2), point_b.y@)
        }),
{
    let p = spec_ecc_add(before, curve, point_a, point_b);
    let size = curve.size as int;
    assert(p.ram.subrange(0, size) =~= point_a.x@);
    assert(p.ram.subrange(size + 2, size + 2 + size) =~= point_a.y@);
    assert(p.ram.subrange(p.bptr as int, p.bptr + size) =~= curve.prime@);
    assert(p.ram.subrange(p.bptr + (size + 2), p.bptr + (size + 2) + size) =~= curve.a_coef@);
    assert(p.ram.subrange(p.cptr as int, p.cptr + size) =~= point_b.x@);
    assert(p.ram.subrange(p.cptr + (size + 2), p.cptr + (size + 2) + size) =~= point_b.y@);
}

/// The engine reports a result that is no point with coordinates: a result
/// of zero, or one without a most significant word. The point at infinity
/// has no coordinates, so it can be reported in no other way.
pub open spec fn spec_no_point(pka: PkaView) -> bool {
    spec_msw_address(pka.msw) == 0 || spec_result_is_zero(pka.msw)
}

/// A result that is no point with coordinates is never handed out as one:
/// whatever the status and the memory of the engine, the read ends with an
/// error and leaves the buffer as it was, and once the engine has ended
/// with a status of success the error is `PkaFailure`. Two operations after
/// which the engine reports such a result end alike, whatever they
/// multiplied.
pub proof fn lemma_no_point_is_refused(pka: PkaView, other: PkaView, before: Seq<u32>)
    requires
        spec_no_point(pka),
    ensures
        spec_ecc_result(pka, before).0 is Err,
        spec_ecc_result(pka, before).1 == before,
        !spec_running(pka.function) ==> spec_ecc_result(pka, before).0 == Err::<(), CryptoError>(
            CryptoError::PkaFailure,
        ),
        spec_no_point(other) && !spec_running(pka.function) && !spec_running(other.function)
            ==> spec_ecc_result(other, before) == spec_ecc_result(pka, before),
{
}

/// A point that the engine left is handed out as it lies in the memory:
/// where the engine has ended with a status of success, the coordinate `x`
/// lies at vector D and the coordinate `y`, of the same length, behind it
/// and its room, the engine reports the last word of `x`, which is not word
/// 0, as the most significant one, and the buffer has room for both, the
/// read puts `x` and then `y` at the front of the buffer.
pub proof fn lemma_ecc_result_reads(pka: PkaView, x: Seq<u32>, y: Seq<u32>, before: Seq<u32>)
    requires
        !spec_running(pka.function),
        pka.shift == 0 || pka.shift == PKA_STATUS_ALTERNATE,
        !spec_result_is_zero(pka.msw),
        1 <= x.len() == y.len(),
        2 * x.len() <= before.len(),
        spec_msw_address(pka.msw) == pka.dptr + x.len() - 1,
        spec_msw_address(pka.msw) != 0,
        4 * (pka.dptr + spec_second(x.len() as int)) + 4 * y.len() < PKA_RAM_SIZE,
        spec_holds(pka.ram, pka.dptr as int, x),
        spec_holds(pka.ram, pka.dptr + spec_second(x.len() as int), y),
    ensures
        spec_ecc_result(pka, before) == (
            Ok::<(), CryptoError>(()),
            x + y + before.subrange(2 * x.len() as int, before.len() as int),
        ),
{
    let len = spec_msw_address(pka.msw) + 1 - pka.dptr;
    assert(len == x.len());
    assert(spec_fits(pka.dptr as int, len, before.len() as int));
    assert(spec_fits(pka.dptr + spec_second(len), len, before.len() - len));
}

/// The point `(x, y)` meets the equation of the curve with the
/// coefficients `a` and `b` over the field of `prime` elements:
/// `y^2 = x^3 + a x + b`.
pub open spec fn spec_on_curve(prime: int, a: int, b: int, x: int, y: int) -> bool {
    (y * y) % prime == (x * x * x + a * x + b) % prime
}

/// The base point of `curve` lies on the curve, and the first coefficient
/// of the curve is its prime less 3, as it is for the curves of NIST.
pub open spec fn spec_nist_curve(curve: EccCurveInfo) -> bool {
    &&& spec_value(curve.a_coef@) + 3 == spec_value(curve.prime@)
    &&& spec_on_curve(
        spec_value(curve.prime@) as int,
        spec_value(curve.a_coef@) as int,
        spec_value(curve.b_coef@) as int,
        spec_value(curve.bp_x@) as int,
        spec_value(curve.bp_y@) as int,
    )
}

/// The number that six words stand for.
pub proof fn lemma_value_of_six(w: Seq<u32>)
    requires
        w.len() == 6,
    ensures
        spec_value(w) == w[0] + 0x1_0000_0000 * (w[1] + 0x1_0000_0000 * (w[2] + 0x1_0000_0000 * (
        w[3] + 0x1_0000_0000 * (w[4] + 0x1_0000_0000 * w[5])))),
{
    let s1 = w.subrange(1, 6);
    let s2 = s1.subrange(1, 5);
    let s3 = s2.subrange(1, 4);
    let s4 = s3.subrange(1, 3);
    let s5 = s4.subrange(1, 2);
    let s6 = s5.subrange(1, 1);
    assert(spec_value(s6) == 0);
    assert(spec_value(s5) == w[5]);
    assert(spec_value(s4) == w[4] + 0x1_0000_0000 * spec_value(s5));
    assert(spec_value(s3) == w[3] + 0x1_0000_0000 * spec_value(s4));
    assert(spec_value(s2) == w[2] + 0x1_0000_0000 * spec_value(s3));
    assert(spec_value(s1) == w[1] + 0x1_0000_0000 * spec_value(s2));
}

/// The number that eight words stand for.
pub proof fn lemma_value_of_eight(w: Seq<u32>)
    requires
        w.len() == 8,
    ensures
        spec_value(w) == w[0] + 0x1_0000_0000 * (w[1] + 0x1_0000_0000 * spec_value(
            w.subrange(2, 8),
        )),
{
    let s1 = w.subrange(1, 8);
    assert(s1.subrange(1, 7) =~= w.subrange(2, 8));
    assert(spec_value(s1) == w[1] + 0x1_0000_0000 * spec_value(s1.subrange(1, 7)));
    assert(spec_value(w) == w[0] + 0x1_0000_0000 * spec_value(s1));
}

impl<'e> EccCurveInfo<'e> {
    /// Every parameter has `size` words, and `size` is even and small
    /// enough for the operations to fit in the memory of the engine.
    pub open spec fn wf(&self) -> bool {
        &&& self.size % 2 == 0
        &&& 6 * spec_slot(self.size as nat) < PKA_RAM_SIZE
        &&& self.prime@.len() == self.size
        &&& self.order@.len() == self.size
        &&& self.a_coef@.len() == self.size
        &&& self.b_coef@.len() == self.size
        &&& self.bp_x@.len() == self.size
        &&& self.bp_y@.len() == self.size
    }

    /// Create the curve information for the NIST P-256 curve.
    pub fn nist_p_256() -> (curve: EccCurveInfo<'e>)
        ensures
            curve.wf(),
            curve.size == 8,
            curve.name@ == "NIST P-256"@,
            spec_nist_curve(curve),
            curve.prime@ == seq![
                0xFFFFFFFFu32,
                0xFFFFFFFF,
                0xFFFFFFFF,
                0x00000000,
                0x00000000,
                0x00000000,
                0x00000001,
                0xFFFFFFFF,
            ],
            curve.order@ == seq![
                0xFC632551u32,
                0xF3B9CAC2,
                0xA7179E84,
                0xBCE6FAAD,
                0xFFFFFFFF,
                0xFFFFFFFF,
                0x00000000,
                0xFFFFFFFF,
            ],
            curve.a_coef@ == seq![
                0xFFFFFFFCu32,
                0xFFFFFFFF,
                0xFFFFFFFF,
                0x00000000,
                0x00000000,
                0x00000000,
                0x00000001,
                0xFFFFFFFF,
            ],
            curve.b_coef@ == seq![
                0x27D2604Bu32,
                0x3BCE3C3E,
                0xCC53B0F6,
                0x651D06B0,
                0x769886BC,
                0xB3EBBD55,
                0xAA3A93E7,
                0x5AC635D8,
            ],
            curve.bp_x@ == seq![
                0xD898C296u32,
                0xF4A13945,
                0x2DEB33A0,
                0x77037D81,
                0x63A440F2,
                0xF8BCE6E5,
                0xE12C4247,
                0x6B17D1F2,
            ],
            curve.bp_y@ == seq![
                0x37BF51F5u32,
                0xCBB64068,
                0x6B315ECE,
                0x2BCE3357,
                0x7C0F9E16,
                0x8EE7EB4A,
                0xFE1A7F9B,
                0x4FE342E2,
            ],
    {
        let curve = EccCurveInfo {
            name: "NIST P-256",
            size: 8,
            prime: &[
                0xFFFFFFFF,
                0xFFFFFFFF,
                0xFFFFFFFF,
                0x00000000,
                0x00000000,
                0x00000000,
                0x00000001,
                0xFFFFFFFF,
            ],
            order: &[
                0xFC632551,
                0xF3B9CAC2,
                0xA7179E84,
                0xBCE6FAAD,
                0xFFFFFFFF,
                0xFFFFFFFF,
                0x00000000,
                0xFFFFFFFF,
            ],
            a_coef: &[
                0xFFFFFFFC,
                0xFFFFFFFF,
                0xFFFFFFFF,
                0x00000000,
                0x00000000,
                0x00000000,
                0x00000001,
                0xFFFFFFFF,
            ],
            b_coef: &[
                0x27D2604B,
                0x3BCE3C3E,
                0xCC53B0F6,
                0x651D06B0,
                0x769886BC,
                0xB3EBBD55,
                0xAA3A93E7,
                0x5AC635D8,
            ],
            bp_x: &[
                0xD898C296,
                0xF4A13945,
                0x2DEB33A0,
                0x77037D81,
                0x63A440F2,
                0xF8BCE6E5,
                0xE12C4247,
                0x6B17D1F2,
            ],
            bp_y: &[
                0x37BF51F5,
                0xCBB64068,
                0x6B315ECE,
                0x2BCE3357,
                0x7C0F9E16,
                0x8EE7EB4A,
                0xFE1A7F9B,
                0x4FE342E2,
            ],
        };
        proof {
            assert(curve.prime@ =~= seq![
                0xFFFFFFFFu32,
                0xFFFFFFFF,
                0xFFFFFFFF,
                0x00000000,
                0x00000000,
                0x00000000,
                0x00000001,
                0xFFFFFFFF,
            ]);
            assert(curve.order@ =~= seq![
                0xFC632551u32,
                0xF3B9CAC2,
                0xA7179E84,
                0xBCE6FAAD,
                0xFFFFFFFF,
                0xFFFFFFFF,
                0x00000000,
                0xFFFFFFFF,
            ]);
            assert(curve.a_coef@ =~= seq![
                0xFFFFFFFCu32,
                0xFFFFFFFF,
                0xFFFFFFFF,
                0x00000000,
                0x00000000,
                0x00000000,
                0x00000001,
                0xFFFFFFFF,
            ]);
            assert(curve.b_coef@ =~= seq![
                0x27D2604Bu32,
                0x3BCE3C3E,
                0xCC53B0F6,
                0x651D06B0,
                0x769886BC,
                0xB3EBBD55,
                0xAA3A93E7,
                0x5AC635D8,
            ]);
            assert(curve.bp_x@ =~= seq![
                0xD898C296u32,
                0xF4A13945,
                0x2DEB33A0,
                0x77037D81,
                0x63A440F2,
                0xF8BCE6E5,
                0xE12C4247,
                0x6B17D1F2,
            ]);
            assert(curve.bp_y@ =~= seq![
                0x37BF51F5u32,
                0xCBB64068,
                0x6B315ECE,
                0x2BCE3357,
                0x7C0F9E16,
                0x8EE7EB4A,
                0xFE1A7F9B,
                0x4FE342E2,
            ]);
            lemma_value_of_eight(curve.prime@);
            lemma_value_of_eight(curve.a_coef@);
            lemma_value_of_eight(curve.b_coef@);
            lemma_value_of_eight(curve.bp_x@);
            lemma_value_of_eight(curve.bp_y@);
            lemma_value_of_six(curve.prime@.subrange(2, 8));
            lemma_value_of_six(curve.a_coef@.subrange(2, 8));
            lemma_value_of_six(curve.b_coef@.subrange(2, 8));
            lemma_value_of_six(curve.bp_x@.subrange(2, 8));
            lemma_value_of_six(curve.bp_y@.subrange(2, 8));
            let p = spec_value(curve.prime@) as int;
            let a = spec_value(curve.a_coef@) as int;
            let b = spec_value(curve.b_coef@) as int;
            let x = spec_value(curve.bp_x@) as int;
            let y = spec_value(curve.bp_y@) as int;
            assert(p == 0xffffffff00000001000000000000000000000000ffffffffffffffffffffffffint);
            assert(a == p - 3);
            assert(b == 0x5ac635d8aa3a93e7b3ebbd55769886bc651d06b0cc53b0f63bce3c3e27d2604bint);
            assert(x == 0x6b17d1f2e12c4247f8bce6e563a440f277037d812deb33a0f4a13945d898c296int);
            assert(y == 0x4fe342e2fe1a7f9b8ee7eb4a7c0f9e162bce33576b315ececbb6406837bf51f5int);
            assert((y * y) % p == (x * x * x + a * x + b) % p) by (nonlinear_arith)
                requires
                    p == 0xffffffff00000001000000000000000000000000ffffffffffffffffffffffffint,
                    a == p - 3,
                    b == 0x5ac635d8aa3a93e7b3ebbd55769886bc651d06b0cc53b0f63bce3c3e27d2604bint,
                    x == 0x6b17d1f2e12c4247f8bce6e563a440f277037d812deb33a0f4a13945d898c296int,
                    y == 0x4fe342e2fe1a7f9b8ee7eb4a7c0f9e162bce33576b315ececbb6406837bf51f5int,
            ;
        }
        curve
    }

    /// Create the curve information for the NIST P-192 curve.
    pub fn nist_p_192() -> (curve: EccCurveInfo<'e>)
        ensures
            curve.wf(),
            curve.size == 6,
            curve.name@ == "NIST P-192"@,
            spec_nist_curve(curve),
            curve.prime@ == seq![0xffffffffu32, 0xffffffff, 0xfffffffe, 0xffffffff, 0xffffffff, 0xffffffff],
            curve.order@ == seq![0xb4d22831u32, 0x146bc9b1, 0x99def836, 0xffffffff, 0xffffffff, 0xffffffff],
            curve.a_coef@ == seq![0xfffffffcu32, 0xffffffff, 0xfffffffe, 0xffffffff, 0xffffffff, 0xffffffff],
            curve.b_coef@ == seq![0xc146b9b1u32, 0xfeb8deec, 0x72243049, 0x0fa7e9ab, 0xe59c80e7, 0x64210519],
            curve.bp_x@ == seq![0x82ff1012u32, 0xf4ff0afd, 0x43a18800, 0x7cbf20eb, 0xb03090f6, 0x188da80e],
            curve.bp_y@ == seq![0x1e794811u32, 0x73f977a1, 0x6b24cdd5, 0x631011ed, 0xffc8da78, 0x07192b95],
    {
        let curve = EccCurveInfo {
            name: "NIST P-192",
            size: 6,
            prime: &[0xffffffff, 0xffffffff, 0xfffffffe, 0xffffffff, 0xffffffff, 0xffffffff],
            order: &[0xb4d22831, 0x146bc9b1, 0x99def836, 0xffffffff, 0xffffffff, 0xffffffff],
            a_coef: &[0xfffffffc, 0xffffffff, 0xfffffffe, 0xffffffff, 0xffffffff, 0xffffffff],
            b_coef: &[0xc146b9b1, 0xfeb8deec, 0x72243049, 0x0fa7e9ab, 0xe59c80e7, 0x64210519],
            bp_x: &[0x82ff1012, 0xf4ff0afd, 0x43a18800, 0x7cbf20eb, 0xb03090f6, 0x188da80e],
            bp_y: &[0x1e794811, 0x73f977a1, 0x6b24cdd5, 0x631011ed, 0xffc8da78, 0x07192b95],
        };
        proof {
            assert(curve.prime@ =~= seq![0xffffffffu32, 0xffffffff, 0xfffffffe, 0xffffffff, 0xffffffff, 0xffffffff]);
            assert(curve.order@ =~= seq![0xb4d22831u32, 0x146bc9b1, 0x99def836, 0xffffffff, 0xffffffff, 0xffffffff]);
            assert(curve.a_coef@ =~= seq![0xfffffffcu32, 0xffffffff, 0xfffffffe, 0xffffffff, 0xffffffff, 0xffffffff]);
            assert(curve.b_coef@ =~= seq![0xc146b9b1u32, 0xfeb8deec, 0x72243049, 0x0fa7e9ab, 0xe59c80e7, 0x64210519]);
            assert(curve.bp_x@ =~= seq![0x82ff1012u32, 0xf4ff0afd, 0x43a18800, 0x7cbf20eb, 0xb03090f6, 0x188da80e]);
            assert(curve.bp_y@ =~= seq![0x1e794811u32, 0x73f977a1, 0x6b24cdd5, 0x631011ed, 0xffc8da78, 0x07192b95]);
            lemma_value_of_six(curve.prime@);
            lemma_value_of_six(curve.a_coef@);
            lemma_value_of_six(curve.b_coef@);
            lemma_value_of_six(curve.bp_x@);
            lemma_value_of_six(curve.bp_y@);
            let p = spec_value(curve.prime@) as int;
            let a = spec_value(curve.a_coef@) as int;
            let b = spec_value(curve.b_coef@) as int;
            let x = spec_value(curve.bp_x@) as int;
            let y = spec_value(curve.bp_y@) as int;
            assert(p == 0xfffffffffffffffffffffffffffffffeffffffffffffffffint);
            assert(a == p - 3);
            assert(b == 0x64210519e59c80e70fa7e9ab72243049feb8deecc146b9b1int);
            assert(x == 0x188da80eb03090f67cbf20eb43a18800f4ff0afd82ff1012int);
            assert(y == 0x07192b95ffc8da78631011ed6b24cdd573f977a11e794811int);
            assert((y * y) % p == (x * x * x + a * x + b) % p) by (nonlinear_arith)
                requires
                    p == 0xfffffffffffffffffffffffffffffffeffffffffffffffffint,
                    a == p - 3,
                    b == 0x64210519e59c80e70fa7e9ab72243049feb8deecc146b9b1int,
                    x == 0x188da80eb03090f67cbf20eb43a18800f4ff0afd82ff1012int,
                    y == 0x07192b95ffc8da78631011ed6b24cdd573f977a11e794811int,
            ;
        }
        curve
    }
}

impl<'e> EccCurveInfo<'e> {
    /// Whether every parameter has `size` words, and `size` is even and
    /// small enough for the operations to fit in the memory of the engine.
    pub fn is_valid(&self) -> (valid: bool)
        ensures
            valid == self.wf(),
    {
        self.size % 2 == 0 && self.size < 512 && 6 * (4 * self.size + 8) < PKA_RAM_SIZE
            && self.prime.len() == self.size && self.order.len()
            == self.size && self.a_coef.len() == self.size && self.b_coef.len() == self.size
            && self.bp_x.len() == self.size && self.bp_y.len() == self.size
    }

    /// Whether the engine can take a scalar of `scalar_len` words on the
    /// curve: one of no more words than the curve has.
    pub fn mul_fits(&self, scalar_len: usize) -> (fits: bool)
        ensures
            fits == (scalar_len <= self.size),
    {
        scalar_len <= self.size
    }
}

impl<'p> EcPoint<'p> {
    /// Both coordinates have the size of `curve`.
    pub open spec fn on(&self, curve: EccCurveInfo) -> bool {
        &&& self.x@.len() == curve.size
        &&& self.y@.len() == curve.size
    }

    /// Whether both coordinates have the size of `curve`.
    pub fn has_size_of(&self, curve: &EccCurveInfo) -> (same: bool)
        ensures
            same == self.on(*curve),
    {
        self.x.len() == curve.size && self.y.len() == curve.size
    }
}

impl Crypto<EccEngine> {
    /// Stores `data` in the memory at `offset` bytes and returns the offset
    /// at which the next vector of a curve starts: behind the words of
    /// `data` and two words of room.
    fn stage_padded(&mut self, data: &[u32], offset: usize) -> (next: usize)
        requires
            offset % 8 == 0,
            data@.len() % 2 == 0,
            offset + 4 * data@.len() < PKA_RAM_SIZE,
        ensures
            final(self)@ == (PkaView {
                ram: spec_store(old(self)@.ram, offset as int / 4, data@),
                ..old(self)@
            }),
            next == offset + spec_slot(data@.len()),
            next % 8 == 0,
    {
        let advance = self.pka.ram.write_slice(data, offset);
        offset + advance + 8
    }

    /// Starts the multiplication of `point` by `scalar` on `curve`. The
    /// engine takes the scalar at the size of the curve, so the scalar has
    /// no more words than the curve.
    pub fn ecc_mul(&mut self, curve: &EccCurveInfo, scalar: &[u32], point: &EcPoint) -> (r: Result<
        (),
        CryptoError,
    >)
        requires
            !spec_running(old(self)@.function) ==> curve.wf() && point.on(*curve) && scalar@.len()
                <= curve.size,
        ensures
            spec_started(
                old(self)@,
                final(self)@,
                r,
                spec_ecc_mul(old(self)@, *curve, scalar@, *point),
            ),
    {
        if self.is_pka_in_use() {
            return Err(CryptoError::PkaBusy);
        }
        let mut offset: usize = 0;

        // Save the address of the A vector.
        self.pka.aptr = word_offset(offset);
        // Write the scalar to it.
        offset = self.stage_extended(scalar, curve.size, offset);

        // Save the address of the B vector.
        self.pka.bptr = word_offset(offset);
        // First write the primes, followed by the a and b coef.
        offset = self.stage_padded(curve.prime, offset);
        offset = self.stage_padded(curve.a_coef, offset);
        offset = self.stage_padded(curve.b_coef, offset);

        // Save the address of the C vector.
        self.pka.cptr = word_offset(offset);
        // First write the x coordinate, followed by the y coordinate.
        offset = self.stage_padded(point.x, offset);
        offset = self.stage_padded(point.y, offset);

        // Save the address of the D vector.
        self.pka.dptr = word_offset(offset);

        // Set the size of the A vector.
        self.pka.alength = curve.size as u32;
        // Set the size of the B vector.
        self.pka.blength = curve.size as u32;

        // Start the multiplication operation.
        self.pka.function = PKA_SEQ_ECC_MUL | PKA_FUNCTION_RUN;
        Ok(())
    }

    /// Reads the product that the engine left into `result`: its first
    /// coordinate, then its second.
    pub fn ecc_mul_result(&self, result: &mut [u32]) -> (r: Result<(), CryptoError>)
        ensures
            (r, final(result)@) == spec_ecc_result(self@, old(result)@),
    {
        self.ecc_result(result)
    }

    /// Starts the addition of `point_a` and `point_b` on `curve`.
    pub fn ecc_add(&mut self, curve: &EccCurveInfo, point_a: &EcPoint, point_b: &EcPoint) -> (r:
        Result<(), CryptoError>)
        requires
            !spec_running(old(self)@.function) ==> curve.wf() && point_a.on(*curve) && point_b.on(
                *curve,
            ),
        ensures
            spec_started(
                old(self)@,
                final(self)@,
                r,
                spec_ecc_add(old(self)@, *curve, *point_a, *point_b),
            ),
    {
        if self.is_pka_in_use() {
            return Err(CryptoError::PkaBusy);
        }
        let mut offset: usize = 0;

        // Save the address of the A vector.
        self.pka.aptr = word_offset(offset);
        // First write the x coordinate, followed by the y coordinate.
        offset = self.stage_padded(point_a.x, offset);
        offset = self.stage_padded(point_a.y, offset);

        // Save the address of the B vector.
        self.pka.bptr = word_offset(offset);
        // First write the primes, followed by the a coef.
        offset = self.stage_padded(curve.prime, offset);
        offset = self.stage_padded(curve.a_coef, offset);

        // Save the address of the C vector.
        self.pka.cptr = word_offset(offset);
        // First write the x coordinate, followed by the y coordinate.
        offset = self.stage_padded(point_b.x, offset);
        offset = self.stage_padded(point_b.y, offset);

        // Save the address of the D vector.
        self.pka.dptr = word_offset(offset);

        // Set the size of the B vector.
        self.pka.blength = curve.size as u32;

        // Start the addition operation.
        self.pka.function = PKA_SEQ_ECC_ADD | PKA_FUNCTION_RUN;
        Ok(())
    }

    /// Reads the sum that the engine left into `result`: its first
    /// coordinate, then its second.
    pub fn ecc_add_result(&self, result: &mut [u32]) -> (r: Result<(), CryptoError>)
        ensures
            (r, final(result)@) == spec_ecc_result(self@, old(result)@),
    {
        self.ecc_result(result)
    }

    /// Reads the point that the engine left into `result`.
    fn ecc_result(&self, result: &mut [u32]) -> (r: Result<(), CryptoError>)
        ensures
            (r, final(result)@) == spec_ecc_result(self@, old(result)@),
    {
        if self.is_pka_in_use() {
            return Err(CryptoError::PkaBusy);
        }
        if self.pka.shift != 0 && self.pka.shift != PKA_STATUS_ALTERNATE {
            return Err(CryptoError::PkaFailure);
        }
        let msw_val: u32 = msw_address(self.pka.msw);
        if msw_val == 0 || self.pka.msw & PKA_MSW_RESULT_IS_ZERO != 0 {
            return Err(CryptoError::PkaFailure);
        }
        let capacity = result.len();
        let dptr = self.pka.dptr;
        if dptr >= 512 || msw_val + 1 < dptr {
            return Err(CryptoError::PkaFailure);
        }
        let len: usize = (msw_val + 1 - dptr) as usize;
        let first: usize = dptr as usize;
        let second: usize = first + len + 2 + len % 2;
        if len > capacity || 4 * first + 4 * len >= PKA_RAM_SIZE {
            return Err(CryptoError::PkaFailure);
        }
        if len > capacity - len || 4 * second + 4 * len >= PKA_RAM_SIZE {
            return Err(CryptoError::PkaFailure);
        }
        let (x, rest) = result.split_at_mut(len);
        let (y, tail) = rest.split_at_mut(len);
        self.pka.ram.read_slice(x, 4 * first);
        self.pka.ram.read_slice(y, 4 * second);
        proof {
            let pka = self@;
            let before = old(result)@;
            assert(x@ + (y@ + tail@) =~= pka.ram.subrange(first as int, first + len)
                + pka.ram.subrange(second as int, second + len) + before.subrange(
                2 * len,
                before.len() as int,
            ));
        }
        Ok(())
    }
}

} // verus!
