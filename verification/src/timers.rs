//! The general purpose timers: their modes and interrupts, and how a
//! timer is set for one delay.

use vstd::prelude::*;

verus! {

/// Specifies the mode of operation of a timer.
#[derive(Debug, Clone, Copy, PartialEq, Eq, Structural)]
pub enum Mode {
    OneShot,
    Periodic,
    Capture,
}

/// Count direction of the timer.
#[derive(Debug, Clone, Copy, PartialEq, Eq, Structural)]
pub enum CountDirection {
    Down,
    Up,
}

/// What a timer in capture mode measures.
#[derive(Debug, Clone, Copy, PartialEq, Eq, Structural)]
pub enum CaptureMode {
    EdgeCount,
    EdgeTime,
}

/// An interrupt of a timer.
#[derive(Debug, Clone, Copy, PartialEq, Eq, Structural)]
pub enum Event {
    /// Time-out interrupt
    TimeOut,
    /// Capture match interrupt
    CaptureMatch,
    /// Capture event interrupt
    CaptureEvent,
    /// Match interrupt
    Match,
}

/// How the two halves of a timer block are put together.
#[derive(Debug, Clone, Copy, PartialEq, Eq, Structural)]
pub enum Config {
    Timer32Bit,
    Clock32Bit,
    Timer16Bit,
}

/// The halves of a timer block.
#[derive(Debug, Clone, Copy, PartialEq, Eq, Structural)]
pub enum Half {
    A,
    B,
}

/// State of the timer where the timer is uninitialised.
#[derive(Debug)]
pub struct Uninit;

/// State of the timer where the timer is configured.
/// The timer can be enabled and parameters can be changed.
#[derive(Debug)]
pub struct Configured;

/// Kind of a timer that has not been given one.
#[derive(Debug)]
pub struct NotSpecified;

/// Kind of a timer that runs once.
#[derive(Debug)]
pub struct OneShotTimer;

/// Kind of a timer that starts again when it has run out.
#[derive(Debug)]
pub struct PeriodicTimer;

/// Kind of a timer that counts the edges of an input.
#[derive(Debug)]
pub struct InputEdgeCountTimer;

/// Kind of a timer that takes the time of the edges of an input.
#[derive(Debug)]
pub struct InputEdgeTimeTimer;

/// Kind of a timer that puts out a pulse width modulation.
#[derive(Debug)]
pub struct PwmTimer;

/// Kind of a timer that waits for another timer to start it.
#[derive(Debug)]
pub struct WaitForTriggerTimer;

/// Extension trait used on timers.
pub trait GpTimerExt {
    type Parts;

    fn split(self) -> Self::Parts;
}

/// The number that stands for a mode.
pub open spec fn spec_mode_bits(mode: Mode) -> u8 {
    match mode {
        Mode::OneShot => 0x1,
        Mode::Periodic => 0x2,
        Mode::Capture => 0x3,
    }
}

/// The number that stands for a way to put the halves together.
pub open spec fn spec_config_bits(config: Config) -> u8 {
    match config {
        Config::Timer32Bit => 0x0,
        Config::Clock32Bit => 0x1,
        Config::Timer16Bit => 0x4,
    }
}

/// The bit of an interrupt of a half in the interrupt mask of the block.
pub open spec fn spec_event_bit(half: Half, event: Event) -> u32 {
    match (half, event) {
        (Half::A, Event::TimeOut) => 0x001,
        (Half::A, Event::CaptureMatch) => 0x002,
        (Half::A, Event::CaptureEvent) => 0x004,
        (Half::A, Event::Match) => 0x010,
        (Half::B, Event::TimeOut) => 0x100,
        (Half::B, Event::CaptureMatch) => 0x200,
        (Half::B, Event::CaptureEvent) => 0x400,
        (Half::B, Event::Match) => 0x800,
    }
}

impl Mode {
    /// The number that stands for this mode.
    pub fn bits(&self) -> (bits: u8)
        ensures
            bits == spec_mode_bits(*self),
    {
        match self {
            Mode::OneShot => 0x1,
            Mode::Periodic => 0x2,
            Mode::Capture => 0x3,
        }
    }
}

impl Config {
    /// The number that stands for this way to put the halves together.
    pub fn bits(&self) -> (bits: u8)
        ensures
            bits == spec_config_bits(*self),
    {
        match self {
            Config::Timer32Bit => 0x0,
            Config::Clock32Bit => 0x1,
            Config::Timer16Bit => 0x4,
        }
    }
}

impl CountDirection {
    /// Whether the timer counts up.
    pub fn counts_up(&self) -> (up: bool)
        ensures
            up == (*self == CountDirection::Up),
    {
        match self {
            CountDirection::Down => false,
            CountDirection::Up => true,
        }
    }
}

impl Default for CountDirection {
    fn default() -> (direction: Self)
        ensures
            direction == CountDirection::Down,
    {
        CountDirection::Down
    }
}

impl Default for CaptureMode {
    fn default() -> (mode: Self)
        ensures
            mode == CaptureMode::EdgeCount,
    {
        CaptureMode::EdgeCount
    }
}

/// The bit of the interrupt `event` of the half `half` in the interrupt
/// mask of the block.
pub fn event_bit(half: Half, event: Event) -> (bit: u32)
    ensures
        bit == spec_event_bit(half, event),
{
    match (half, event) {
        (Half::A, Event::TimeOut) => 0x001,
        (Half::A, Event::CaptureMatch) => 0x002,
        (Half::A, Event::CaptureEvent) => 0x004,
        (Half::A, Event::Match) => 0x010,
        (Half::B, Event::TimeOut) => 0x100,
        (Half::B, Event::CaptureMatch) => 0x200,
        (Half::B, Event::CaptureEvent) => 0x400,
        (Half::B, Event::Match) => 0x800,
    }
}

/// The interrupt mask `imr` of a block that also asks for the interrupt
/// `event` of the half `half`.
pub fn listen(imr: u32, half: Half, event: Event) -> (r: u32)
    ensures
        r == imr | spec_event_bit(half, event),
{
    imr | event_bit(half, event)
}

/// What a one shot timer is set to for one delay.
#[derive(Debug, Clone, Copy, PartialEq, Eq, Structural)]
pub struct OneShotSetup {
    /// The value of the prescale register.
    pub prescaler: u8,
    /// The value from which the timer counts down.
    pub start_value: u16,
}

/// The largest start value of a timer.
pub const TIMER_MAX: u16 = 0xffff;

/// The clock `io_freq` in megahertz.
pub open spec fn spec_megahertz(io_freq: u32) -> int {
    io_freq as int / 1_000_000
}

/// The prescaler for a delay of `nanos` nanoseconds: the delay over the
/// longest that the timer counts without one, and 255 at most.
pub open spec fn spec_prescaler(nanos: int, io_freq: u32) -> int {
    let p = nanos / (TIMER_MAX as int * spec_megahertz(io_freq));
    if p > 255 {
        255
    } else {
        p
    }
}

/// The start value for a delay of `nanos` nanoseconds: the ticks of the
/// clock in the delay, over the prescaler where there is one.
pub open spec fn spec_start_value(nanos: int, io_freq: u32) -> int {
    let p = spec_prescaler(nanos, io_freq);
    if p != 0 {
        nanos * spec_megahertz(io_freq) / p / 1_000
    } else {
        nanos * spec_megahertz(io_freq) / 1_000
    }
}

/// The setup of a one shot timer for a delay of `nanos` nanoseconds, where
/// the start value fits the timer.
pub open spec fn spec_one_shot(nanos: int, io_freq: u32) -> Option<OneShotSetup> {
    if spec_start_value(nanos, io_freq) <= TIMER_MAX as int {
        Some(
            OneShotSetup {
                prescaler: spec_prescaler(nanos, io_freq) as u8,
                start_value: spec_start_value(nanos, io_freq) as u16,
            },
        )
    } else {
        None
    }
}

/// The setup of a one shot timer for a delay of `nanos` nanoseconds on a
/// clock of `io_freq`, which is a megahertz at least. There is none where
/// the delay is too long for the timer.
pub fn one_shot(nanos: u128, io_freq: u32) -> (setup: Option<OneShotSetup>)
    requires
        io_freq >= 1_000_000,
    ensures
        setup == spec_one_shot(nanos as int, io_freq),
{
    let mhz: u128 = (io_freq / 1_000_000) as u128;
    assert(1 <= mhz <= 4294);
    if nanos > 20_000_000_000 {
        proof {
            lemma_long_delay(nanos as int, io_freq);
        }
        return None;
    }
    let longest: u128 = 0xffff * mhz;
    let prescaler: u128 = nanos / longest;
    let prescaler: u128 = if prescaler > 255 {
        255
    } else {
        prescaler
    };
    assert(nanos * mhz <= 20_000_000_000 * 4294) by (nonlinear_arith)
        requires
            nanos <= 20_000_000_000,
            mhz <= 4294,
    ;
    let ticks: u128 = nanos * mhz;
    let start_value: u128 = if prescaler != 0 {
        ticks / prescaler / 1_000
    } else {
        ticks / 1_000
    };
    if start_value > 0xffff {
        None
    } else {
        Some(OneShotSetup { prescaler: prescaler as u8, start_value: start_value as u16 })
    }
}

/// A delay of more than twenty seconds is too long for the timer.
pub proof fn lemma_long_delay(nanos: int, io_freq: u32)
    requires
        io_freq >= 1_000_000,
        nanos > 20_000_000_000,
    ensures
        spec_one_shot(nanos, io_freq) is None,
{
    let mhz = spec_megahertz(io_freq);
    assert(mhz >= 1);
    let ticks = nanos * mhz;
    assert(ticks >= nanos) by (nonlinear_arith)
        requires
            ticks == nanos * mhz,
            mhz >= 1,
            nanos > 0,
    ;
    let p = spec_prescaler(nanos, io_freq);
    assert(0xffff * mhz > 0) by (nonlinear_arith)
        requires
            mhz >= 1,
    ;
    vstd::arithmetic::div_mod::lemma_div_pos_is_pos(nanos, 0xffff * mhz);
    assert(0 <= p <= 255);
    if p != 0 {
        vstd::arithmetic::div_mod::lemma_div_is_ordered_by_denominator(ticks, p, 255);
        vstd::arithmetic::div_mod::lemma_div_is_ordered(20_000_000_000, ticks, 255);
        assert(ticks / p >= 78_431_372);
        vstd::arithmetic::div_mod::lemma_div_is_ordered(78_431_372, ticks / p, 1_000);
    } else {
        vstd::arithmetic::div_mod::lemma_div_is_ordered(20_000_000_000, ticks, 1_000);
    }
}

} // verus!
