//! Random Number Generator: its seed and its output.

use vstd::prelude::*;

verus! {

/// State of a generator that was not seeded yet.
pub struct NotSeeded {}

/// State of a generator that was seeded.
pub struct Seeded {}

/// How the generator runs.
#[derive(Debug, Clone, Copy, PartialEq, Eq, Structural)]
pub enum Operation {
    Normal,
    ClockOnce,
    Stop,
}

/// The number that stands for an operation in the control register.
pub open spec fn spec_operation_bits(operation: Operation) -> u8 {
    match operation {
        Operation::Normal => 0,
        Operation::ClockOnce => 1,
        Operation::Stop => 2,
    }
}

/// The two bytes of a seed in the order in which they are written to the
/// generator: the high byte first.
pub open spec fn spec_seed_bytes(seed: u16) -> Seq<u8> {
    seq![(seed / 256) as u8, (seed % 256) as u8]
}

/// A seed with one more bit from the radio: the bit goes to the lowest
/// place, and the seed moves up by one place, out of which its highest
/// bit falls.
pub open spec fn spec_seed_with(seed: u16, bit: bool) -> u16 {
    (if bit {
        seed | 1
    } else {
        seed
    }) << 1
}

/// Whether the generator runs on a seed: on every seed but 0x0000 and
/// 0x8003.
pub open spec fn spec_seed_accepted(seed: u16) -> bool {
    seed != 0x0000 && seed != 0x8003
}

impl Operation {
    /// The number that stands for the operation in the control register.
    pub fn bits(&self) -> (bits: u8)
        ensures
            bits == spec_operation_bits(*self),
    {
        match self {
            Operation::Normal => 0,
            Operation::ClockOnce => 1,
            Operation::Stop => 2,
        }
    }
}

/// The two bytes of `seed` in the order in which they are written to the
/// generator.
pub fn seed_bytes(seed: u16) -> (bytes: [u8; 2])
    ensures
        bytes@ == spec_seed_bytes(seed),
{
    let bytes: [u8; 2] = [(seed / 256) as u8, (seed % 256) as u8];
    assert(bytes@ =~= spec_seed_bytes(seed));
    bytes
}

/// The seed `seed` with one more bit from the radio.
pub fn seed_with(seed: u16, bit: bool) -> (next: u16)
    ensures
        next == spec_seed_with(seed, bit),
{
    let seed: u16 = if bit {
        seed | 1
    } else {
        seed
    };
    seed << 1
}

/// Whether the generator runs on `seed`.
pub fn seed_accepted(seed: u16) -> (accepted: bool)
    ensures
        accepted == spec_seed_accepted(seed),
{
    seed != 0x0000 && seed != 0x8003
}

/// The random number that the generator holds, from the values of its low
/// and its high register.
pub fn get_random(rndl: u32, rndh: u32) -> (random: u32)
    ensures
        random == rndl | (rndh << 8),
{
    rndl | (rndh << 8)
}

/// A seed that was made of sixteen bits from the radio is even: 0x8003 is
/// never made, and the seed is refused only where every bit but the first
/// was zero.
pub proof fn lemma_seed_is_even(seed: u16, bit: bool)
    ensures
        spec_seed_with(seed, bit) & 1 == 0,
        spec_seed_with(seed, bit) != 0x8003,
{
    let s = seed;
    assert(((s | 1u16) << 1u16) & 1u16 == 0) by (bit_vector);
    assert((s << 1u16) & 1u16 == 0) by (bit_vector);
    assert(0x8003u16 & 1u16 == 1) by (bit_vector);
}

} // verus!
