//! The I2C master: its timing, its addressing and the commands of a burst.

use crate::sys_ctrl::{spec_freq, ClockConfig};
use vstd::prelude::*;

verus! {

/// State of a master that is not enabled.
#[derive(Debug)]
pub struct Disabled {}

/// State of a master that is enabled.
#[derive(Debug)]
pub struct Enabled {}

/// Extension trait to take the master.
pub trait I2cmExt {
    type Parts;

    fn take(self) -> Self::Parts;
}

/// Extension trait to take the slave.
pub trait I2csExt {
    type Parts;

    fn take(self) -> Self::Parts;
}

/// The direction of a transfer.
#[derive(Debug, Clone, Copy, PartialEq, Eq, Structural)]
pub enum Operation {
    Read,
    Write,
}

/// A command of the master.
#[derive(Debug, Clone, Copy, PartialEq, Eq, Structural)]
pub enum I2cCommand {
    BurstSendCont,
    BurstSendStart,
    BurstSendReceiveErrorStop,
    BurstSendReceiveFinish,
    SingleSendReceive,
    BurstReceiveCont,
    BurstReceiveStart,
}

/// The number that stands for a command in the control register.
pub open spec fn spec_command_bits(command: I2cCommand) -> u32 {
    match command {
        I2cCommand::BurstSendCont => 0x1,
        I2cCommand::BurstSendStart => 0x3,
        I2cCommand::BurstSendReceiveErrorStop => 0x4,
        I2cCommand::BurstSendReceiveFinish => 0x5,
        I2cCommand::SingleSendReceive => 0x7,
        I2cCommand::BurstReceiveCont => 0x9,
        I2cCommand::BurstReceiveStart => 0xb,
    }
}

/// Number of periods of the system clock, of `sys_freq` Hz, in the twenty
/// phases of one bit at `bit_rate` bits a second, rounded up.
pub open spec fn spec_clock_periods(sys_freq: u32, bit_rate: u32) -> int {
    (sys_freq + 2 * 10 * bit_rate) / (2 * 10 * bit_rate)
}

/// The value of the timer period field for a bit rate: the periods less
/// one, in the seven bits of the field.
pub open spec fn spec_timer_period(sys_freq: u32, bit_rate: u32) -> u8 {
    (((spec_clock_periods(sys_freq, bit_rate) % 256) - 1) as u8) & 0x7f
}

/// The value of the slave address register: the seven bits of the address
/// above the bit that tells a read from a write.
pub open spec fn spec_slave_address(addr: u8, op: Operation) -> u32 {
    (((addr & 0x7f) as u32) << 1) | if op is Read {
        1u32
    } else {
        0u32
    }
}

/// The command that follows byte `i` of a burst of `len` bytes to the
/// slave: the first byte starts the burst, the last one ends it.
pub open spec fn spec_burst_write_command(i: int, len: int) -> I2cCommand {
    if i == 0 {
        I2cCommand::BurstSendStart
    } else if i == len - 1 {
        I2cCommand::BurstSendReceiveFinish
    } else {
        I2cCommand::BurstSendCont
    }
}

/// The command that follows byte `i` of a burst of `len` bytes from the
/// slave: the last byte ends the burst.
pub open spec fn spec_burst_read_command(i: int, len: int) -> I2cCommand {
    if i == len - 1 {
        I2cCommand::BurstSendReceiveFinish
    } else {
        I2cCommand::BurstReceiveCont
    }
}

impl I2cCommand {
    /// The number that stands for the command in the control register.
    pub fn bits(&self) -> (bits: u32)
        ensures
            bits == spec_command_bits(*self),
    {
        match self {
            I2cCommand::BurstSendCont => 0x1,
            I2cCommand::BurstSendStart => 0x3,
            I2cCommand::BurstSendReceiveErrorStop => 0x4,
            I2cCommand::BurstSendReceiveFinish => 0x5,
            I2cCommand::SingleSendReceive => 0x7,
            I2cCommand::BurstReceiveCont => 0x9,
            I2cCommand::BurstReceiveStart => 0xb,
        }
    }
}

/// Set the slave address: the value of the slave address register for a
/// transfer with the slave at `addr`.
pub fn set_slave_address(addr: u8, op: Operation) -> (value: u32)
    ensures
        value == spec_slave_address(addr, op),
{
    let rs: u32 = match op {
        Operation::Read => 1,
        Operation::Write => 0,
    };
    (((addr & 0x7f) as u32) << 1) | rs
}

/// Set the bit rate of the I2C bus: the value of the timer period field
/// for `bit_rate` bits a second under the system clock of `clock_config`.
pub fn set_bit_rate(bit_rate: u32, clock_config: ClockConfig) -> (period: u8)
    requires
        bit_rate > 0,
        spec_freq(clock_config.sys_div) + 2 * 10 * bit_rate <= u32::MAX,
        spec_clock_periods(spec_freq(clock_config.sys_div), bit_rate) % 256 != 0,
    ensures
        period == spec_timer_period(spec_freq(clock_config.sys_div), bit_rate),
{
    assert(2 * 10 * bit_rate == 20 * bit_rate) by (nonlinear_arith);
    let phases: u32 = 2 * 10 * bit_rate;
    let periods: u32 = (clock_config.sys_freq() + phases) / phases;
    let period: u8 = (periods % 256) as u8 - 1;
    period & 0x7f
}

/// The command that follows byte `i` of a burst of `len` bytes to the
/// slave.
pub fn burst_write_command(i: usize, len: usize) -> (command: I2cCommand)
    requires
        i < len,
    ensures
        command == spec_burst_write_command(i as int, len as int),
{
    if i == 0 {
        I2cCommand::BurstSendStart
    } else if i == len - 1 {
        I2cCommand::BurstSendReceiveFinish
    } else {
        I2cCommand::BurstSendCont
    }
}

/// The command that follows byte `i` of a burst of `len` bytes from the
/// slave.
pub fn burst_read_command(i: usize, len: usize) -> (command: I2cCommand)
    requires
        i < len,
    ensures
        command == spec_burst_read_command(i as int, len as int),
{
    if i == len - 1 {
        I2cCommand::BurstSendReceiveFinish
    } else {
        I2cCommand::BurstReceiveCont
    }
}

} // verus!
