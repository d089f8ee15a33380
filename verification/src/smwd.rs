//! The sleep timer. It counts in a register of 32 bits, which is read and
//! written as four registers of one byte each.

use vstd::prelude::*;

verus! {

/// Splits the peripheral of the sleep timer off.
pub trait SleepTimerExt {
    type Parts;

    fn split(self) -> Self::Parts;
}

#[derive(Debug)]
pub struct SleepTimer {}

/// Period of the sleep timer in nanoseconds.
pub const PERIOD_NS: u32 = 31250;

/// The count that the four registers of the timer hold, the least
/// significant byte in `st0`.
pub open spec fn spec_ticks(st0: u8, st1: u8, st2: u8, st3: u8) -> u32 {
    (st0 + 256 * st1 + 65536 * st2 + 16777216 * st3) as u32
}

/// The bytes of a count in the order in which the registers of the timer
/// are written: `st3` first and `st0`, whose write loads the count, last.
pub open spec fn spec_ticks_bytes(t: u32) -> Seq<u8> {
    seq![
        (t / 16777216 % 256) as u8,
        (t / 65536 % 256) as u8,
        (t / 256 % 256) as u8,
        (t % 256) as u8,
    ]
}

impl SleepTimer {
    pub fn new() -> Self {
        SleepTimer {  }
    }

    /// Get the current value of the sleep timer, from the values of its
    /// four registers.
    pub fn now(&self, st0: u8, st1: u8, st2: u8, st3: u8) -> (ticks: u32)
        ensures
            ticks == spec_ticks(st0, st1, st2, st3),
    {
        let mut val: u32 = st0 as u32;
        val = val + 256 * (st1 as u32);
        val = val + 65536 * (st2 as u32);
        val = val + 16777216 * (st3 as u32);
        val
    }

    /// The bytes to write to the registers `st3`, `st2`, `st1` and `st0`,
    /// in this order, to let the timer fire at the count `t`.
    pub fn set_ticks(&self, t: u32) -> (bytes: [u8; 4])
        ensures
            bytes@ == spec_ticks_bytes(t),
    {
        let bytes: [u8; 4] = [
            (t / 16777216 % 256) as u8,
            (t / 65536 % 256) as u8,
            (t / 256 % 256) as u8,
            (t % 256) as u8,
        ];
        assert(bytes@ =~= spec_ticks_bytes(t));
        bytes
    }

    /// The bytes to write to let the timer fire `ticks` after the count
    /// `now`.
    pub fn wait_relative(&self, now: u32, ticks: u32) -> (bytes: [u8; 4])
        requires
            now + ticks <= u32::MAX,
        ensures
            bytes@ == spec_ticks_bytes((now + ticks) as u32),
    {
        let ticks = now + ticks;
        self.set_ticks(ticks)
    }

    /// The bytes to write to let the timer fire at the count `ticks`.
    pub fn wait_absolute(&self, ticks: u32) -> (bytes: [u8; 4])
        ensures
            bytes@ == spec_ticks_bytes(ticks),
    {
        self.set_ticks(ticks)
    }
}

/// The bytes that are written for a count give the count back when they
/// are read.
pub proof fn lemma_ticks_roundtrip(t: u32)
    ensures
        spec_ticks(
            spec_ticks_bytes(t)[3],
            spec_ticks_bytes(t)[2],
            spec_ticks_bytes(t)[1],
            spec_ticks_bytes(t)[0],
        ) == t,
{
}

} // verus!
