//! Delays by the system timer.

use crate::sys_ctrl::{spec_freq, ClockConfig};
use vstd::prelude::*;

verus! {

/// The largest value that the system timer counts down from.
pub const MAX_RELOAD: u32 = 0x00ff_ffff;

/// The value from which the system timer counts down for a delay of `ns`
/// nanoseconds under a system clock of `sys_freq` Hz: the whole
/// microseconds of the delay times the cycles of a microsecond.
pub open spec fn spec_reload(ns: u32, sys_freq: u32) -> int {
    (ns / 1000) * (sys_freq / 1_000_000)
}

/// A delay under a clock configuration.
pub struct Delay {
    clocks: ClockConfig,
}

impl View for Delay {
    type V = ClockConfig;

    closed spec fn view(&self) -> ClockConfig {
        self.clocks
    }
}

impl Delay {
    pub fn new(clocks: ClockConfig) -> (delay: Self)
        ensures
            delay@ == clocks,
    {
        Self { clocks }
    }

    /// Whether the system timer can count a delay of `ns` nanoseconds in
    /// one run.
    pub fn fits(&self, ns: u32) -> (fits: bool)
        ensures
            fits == (spec_reload(ns, spec_freq(self@.sys_div)) <= MAX_RELOAD),
    {
        let us: u64 = (ns / 1000) as u64;
        let cycles: u64 = (self.clocks.sys_freq() / 1_000_000) as u64;
        assert(us * cycles <= 0xffff_ffff * 0xffff_ffff) by (nonlinear_arith)
            requires
                us <= 0xffff_ffff,
                cycles <= 0xffff_ffff,
        ;
        us * cycles <= MAX_RELOAD as u64
    }

    /// The value from which the system timer counts down for a delay of
    /// `ns` nanoseconds.
    pub fn delay_ns(&self, ns: u32) -> (reload: u32)
        requires
            spec_reload(ns, spec_freq(self@.sys_div)) <= MAX_RELOAD,
        ensures
            reload == spec_reload(ns, spec_freq(self@.sys_div)),
    {
        ns / 1000 * (self.clocks.sys_freq() / 1_000_000)
    }
}

} // verus!
