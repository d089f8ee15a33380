//! Time measured by the cycle counter of the core.

use crate::sys_ctrl::{spec_freq, ClockConfig};
use vstd::prelude::*;

verus! {

/// A monotonic non-decreasing timer
///
/// This uses the timer in the debug watch trace peripheral. This means, that if the
/// core is stopped, the timer does not count up.
#[derive(Clone, Copy)]
pub struct MonoTimer {
    freq: u32,
}

/// A measurement of a monotonically non-decreasing clock
#[derive(Clone, Copy)]
pub struct Instant {
    now: u32,
}

impl View for MonoTimer {
    type V = u32;

    /// The frequency of the timer in Hz.
    closed spec fn view(&self) -> u32 {
        self.freq
    }
}

impl View for Instant {
    type V = u32;

    /// The count of cycles at the instant.
    closed spec fn view(&self) -> u32 {
        self.now
    }
}

impl MonoTimer {
    /// Creates a new `Monotonic` timer, which counts the cycles of the
    /// system clock of `clocks`.
    pub fn new(clocks: ClockConfig) -> (timer: Self)
        ensures
            timer@ == spec_freq(clocks.sys_div),
    {
        Self { freq: clocks.sys_freq() }
    }

    /// Returns the frequency at which the monotonic timer is operating at
    pub fn frequency(self) -> (freq: u32)
        ensures
            freq == self@,
    {
        self.freq
    }

    /// Returns an `Instant` corresponding to "now", where the cycle counter
    /// reads `cycle_count`.
    pub fn now(self, cycle_count: u32) -> (instant: Instant)
        ensures
            instant@ == cycle_count,
    {
        Instant { now: cycle_count }
    }
}

impl Instant {
    /// Ticks elapsed since the `Instant` was created, where the cycle
    /// counter reads `cycle_count`. The counter wraps around.
    pub fn elapsed(self, cycle_count: u32) -> (ticks: u32)
        ensures
            ticks == if cycle_count >= self@ {
                cycle_count - self@
            } else {
                cycle_count + 0x1_0000_0000 - self@
            },
    {
        cycle_count.wrapping_sub(self.now)
    }
}

} // verus!
