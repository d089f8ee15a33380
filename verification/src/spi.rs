//! The synchronous serial interfaces: the clock they run on, the rate they
//! are set to, and the states of an interface.

use core::marker::PhantomData;
use vstd::prelude::*;

verus! {

/// The clocks of an interface.
#[derive(Debug, Clone, Copy, PartialEq, Eq, Structural)]
pub enum ClockSource {
    /// The baud clock is determined by the SYS Div setting.
    /// The SSI system clock is determined by the SYS Div setting.
    SysDivSysDivClock,
    /// The baud clock is determined by the SYS Div setting.
    /// The SSI system clock is on the same clock as the baud clock.
    SysDivBaudClock,
    /// The baud clock is determined by the IO Div setting.
    /// The SSI system clock is determined by the SYS Div setting.
    IoDivSysDivClock,
    /// The baud clock is determined by the IO Div setting.
    /// The SSI system clock is on the same clock as the baud clock.
    IoDivBaudClock,
}

/// The format of a frame on the line.
#[derive(Debug, Clone, Copy, PartialEq, Eq, Structural)]
pub enum FrameFormat {
    Spi,
    TexasInstrumentSyncSerial,
    Microwave,
}

/// State of an interface that is switched off and can be set up.
#[derive(Debug)]
pub struct Disabled;

/// State of an interface that is switched on and can transfer.
#[derive(Debug)]
pub struct Enabled;

/// Extension trait to take the first interface.
pub trait SpiSsi0Ext {
    type Parts;

    fn take(self) -> Self::Parts;
}

/// Extension trait to take the second interface.
pub trait SpiSsi1Ext {
    type Parts;

    fn take(self) -> Self::Parts;
}

/// The interface `SSI` in the state `STATE`.
#[derive(Debug)]
pub struct Spi<SSI, STATE> {
    ssi: SSI,
    _state: PhantomData<STATE>,
}

/// The value that the prescale register is set to.
pub const SPI_PRESCALE: u8 = 2;

/// The data size of a transfer of eight bits, as the control register
/// holds it.
pub const SPI_DATA_SIZE_8: u8 = 0b0111;

/// The number that stands for a choice of clocks.
pub open spec fn spec_clock_bits(source: ClockSource) -> u8 {
    match source {
        ClockSource::SysDivSysDivClock => 0b000,
        ClockSource::SysDivBaudClock => 0b001,
        ClockSource::IoDivSysDivClock => 0b100,
        ClockSource::IoDivBaudClock => 0b101,
    }
}

/// The number of periods of the prescaled clock that one bit takes at the
/// bit rate `bit_rate` on a system clock of `sys_freq`: the clock over
/// twice the bit rate, rounded up, and kept between 1 and 256.
pub open spec fn spec_periods(bit_rate: u32, sys_freq: u32) -> int {
    let div = 2 * bit_rate as int;
    let periods = (sys_freq as int + div - 1) / div;
    if periods < 1 {
        1
    } else if periods > 256 {
        256
    } else {
        periods
    }
}

/// The serial clock rate that the control register holds for the bit rate
/// `bit_rate`: one less than the number of periods.
pub open spec fn spec_serial_clock_rate(bit_rate: u32, sys_freq: u32) -> u8 {
    (spec_periods(bit_rate, sys_freq) - 1) as u8
}

/// With as many periods to a bit as are set, the interface is no faster
/// than asked for, unless the rate asked for is too low for 256 periods.
pub proof fn lemma_periods_keep_the_rate(bit_rate: u32, sys_freq: u32)
    requires
        bit_rate > 0,
    ensures
        1 <= spec_periods(bit_rate, sys_freq) <= 256,
        (sys_freq as int + 2 * bit_rate - 1) / (2 * bit_rate as int) <= 256 ==> sys_freq
            <= spec_periods(bit_rate, sys_freq) * (2 * bit_rate),
{
    let div = 2 * bit_rate as int;
    let x = sys_freq as int + div - 1;
    let q = x / div;
    vstd::arithmetic::div_mod::lemma_fundamental_div_mod(x, div);
    vstd::arithmetic::div_mod::lemma_mod_bound(x, div);
    if q <= 256 {
        if q < 1 {
            assert(q <= 0);
            assert(div * q <= 0) by (nonlinear_arith)
                requires
                    q <= 0,
                    div > 0,
            ;
        } else {
            assert(spec_periods(bit_rate, sys_freq) == q);
            assert(q * div == div * q) by (nonlinear_arith);
        }
    }
}

impl ClockSource {
    /// The number that stands for this choice of clocks.
    pub fn bits(&self) -> (bits: u8)
        ensures
            bits == spec_clock_bits(*self),
    {
        match self {
            ClockSource::SysDivSysDivClock => 0b000,
            ClockSource::SysDivBaudClock => 0b001,
            ClockSource::IoDivSysDivClock => 0b100,
            ClockSource::IoDivBaudClock => 0b101,
        }
    }
}

/// The serial clock rate that the control register holds for the bit rate
/// `bit_rate` on a system clock of `sys_freq`.
pub fn serial_clock_rate(bit_rate: u32, sys_freq: u32) -> (scr: u8)
    requires
        bit_rate > 0,
    ensures
        scr == spec_serial_clock_rate(bit_rate, sys_freq),
{
    let div: u64 = 2 * (bit_rate as u64);
    let periods: u64 = (sys_freq as u64 + div - 1) / div;
    let periods: u64 = if periods < 1 {
        1
    } else if periods > 256 {
        256
    } else {
        periods
    };
    (periods - 1) as u8
}

/// The byte that the data register `dr` holds.
pub fn received(dr: u32) -> (data: u16)
    ensures
        data == dr & 0xff,
{
    assert(dr & 0xff <= 0xff) by (bit_vector);
    (dr & 0x00ff) as u16
}

impl<SSI> Spi<SSI, Disabled> {
    /// The interface `ssi`, switched off.
    pub fn new(ssi: SSI) -> (spi: Self)
        ensures
            spi.spec_ssi() == ssi,
    {
        Spi { ssi, _state: PhantomData }
    }

    /// The interface, switched on.
    pub fn enable(self) -> (spi: Spi<SSI, Enabled>)
        ensures
            spi.spec_ssi() == self.spec_ssi(),
    {
        Spi { ssi: self.ssi, _state: PhantomData }
    }
}

impl<SSI, STATE> Spi<SSI, STATE> {
    /// The interface of this handle.
    pub closed spec fn spec_ssi(&self) -> SSI {
        self.ssi
    }

    /// The interface of this handle.
    pub fn ssi(&self) -> (ssi: &SSI)
        ensures
            *ssi == self.spec_ssi(),
    {
        &self.ssi
    }
}

} // verus!
