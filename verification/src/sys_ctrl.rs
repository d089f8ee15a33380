//! Reset and Clock Control: the clocks that the system is configured for.

use core::marker::PhantomData;
use vstd::prelude::*;

verus! {

#[derive(Debug, Clone, Copy, PartialEq, Eq, Structural)]
pub enum Osc {
    Osc32Mhz,
    Osc16Mhz,
}

#[derive(Debug, Clone, Copy, PartialEq, Eq, Structural)]
pub enum ClockDiv {
    Clock32Mhz,
    Clock16Mhz,
    Clock8Mhz,
    Clock4Mhz,
    Clock2Mhz,
    Clock1Mhz,
    Clock05Mhz,
    Clock025Mhz,
}

/// State of a clock configuration that can still change.
pub struct Unconfigured {}

/// State of a clock configuration that is in force.
pub struct Frozen {}

/// In which power modes the clock of a peripheral runs.
#[derive(Debug, Copy, Clone, PartialEq, Eq, Structural)]
pub struct Gated {
    pub active_mode: bool,
    pub sleep_mode: bool,
    pub deep_sleep_mode: bool,
}

/// A peripheral whose clock the system control gates.
#[derive(Debug, Copy, Clone, PartialEq, Eq, Structural)]
pub enum Peripheral {
    Gpt0,
    Gpt1,
    Gpt2,
    Gpt3,
    Ssi0,
    Ssi1,
    Uart0,
    Uart1,
    I2c,
    Pka,
    Aes,
    Radio,
}

/// A power mode of the chip.
#[derive(Debug, Copy, Clone, PartialEq, Eq, Structural)]
pub enum PowerMode {
    Active,
    Sleep,
    DeepSleep,
}

#[derive(Debug, Copy, Clone, PartialEq, Eq, Structural)]
pub struct ClockConfig {
    pub use_crystal_osc32k: bool,
    pub osc: Osc,
    pub io_div: ClockDiv,
    pub sys_div: ClockDiv,
    pub gpt0: Gated,
    pub gpt1: Gated,
    pub gpt2: Gated,
    pub gpt3: Gated,
    pub ssi0: Gated,
    pub ssi1: Gated,
    pub uart0: Gated,
    pub uart1: Gated,
    pub i2c: Gated,
    pub pka: Gated,
    pub aes: Gated,
    pub radio: Gated,
}

/// The system control, with the clock configuration that it was given.
pub struct SysCtrl<STATE> {
    config: ClockConfig,
    _state: PhantomData<STATE>,
}

/// The frequency of a clock division in Hz.
pub open spec fn spec_freq(div: ClockDiv) -> u32 {
    match div {
        ClockDiv::Clock32Mhz => 32_000_000,
        ClockDiv::Clock16Mhz => 16_000_000,
        ClockDiv::Clock8Mhz => 8_000_000,
        ClockDiv::Clock4Mhz => 4_000_000,
        ClockDiv::Clock2Mhz => 2_000_000,
        ClockDiv::Clock1Mhz => 1_000_000,
        ClockDiv::Clock05Mhz => 500_000,
        ClockDiv::Clock025Mhz => 250_000,
    }
}

/// The number that stands for a clock division in the clock control
/// register.
pub open spec fn spec_div_bits(div: ClockDiv) -> u8 {
    match div {
        ClockDiv::Clock32Mhz => 0,
        ClockDiv::Clock16Mhz => 1,
        ClockDiv::Clock8Mhz => 2,
        ClockDiv::Clock4Mhz => 3,
        ClockDiv::Clock2Mhz => 4,
        ClockDiv::Clock1Mhz => 5,
        ClockDiv::Clock05Mhz => 6,
        ClockDiv::Clock025Mhz => 7,
    }
}

/// The place of the register that gates the clocks of the group of
/// `peripheral` in active mode, in bytes from the start of the system
/// control.
pub open spec fn spec_gate_group(peripheral: Peripheral) -> u32 {
    match peripheral {
        Peripheral::Gpt0 => 0x08,
        Peripheral::Gpt1 => 0x08,
        Peripheral::Gpt2 => 0x08,
        Peripheral::Gpt3 => 0x08,
        Peripheral::Ssi0 => 0x18,
        Peripheral::Ssi1 => 0x18,
        Peripheral::Uart0 => 0x28,
        Peripheral::Uart1 => 0x28,
        Peripheral::I2c => 0x38,
        Peripheral::Pka => 0x48,
        Peripheral::Aes => 0x48,
        Peripheral::Radio => 0xa8,
    }
}

/// The place of the register that gates the clock of `peripheral` in the
/// power mode `mode`: the registers for sleep and for deep sleep follow the
/// one for active mode.
pub open spec fn spec_gate_register(peripheral: Peripheral, mode: PowerMode) -> u32 {
    match mode {
        PowerMode::Active => spec_gate_group(peripheral),
        PowerMode::Sleep => (spec_gate_group(peripheral) + 4) as u32,
        PowerMode::DeepSleep => (spec_gate_group(peripheral) + 8) as u32,
    }
}

/// The place of the register that resets `peripheral`, behind the three
/// registers that gate its clock. The radio has none.
pub open spec fn spec_reset_register(peripheral: Peripheral) -> Option<u32> {
    if peripheral == Peripheral::Radio {
        None
    } else {
        Some((spec_gate_group(peripheral) + 12) as u32)
    }
}

/// The bit of `peripheral` in the registers of its group.
pub open spec fn spec_gate_bit(peripheral: Peripheral) -> u32 {
    match peripheral {
        Peripheral::Gpt0 => 0x1,
        Peripheral::Gpt1 => 0x2,
        Peripheral::Gpt2 => 0x4,
        Peripheral::Gpt3 => 0x8,
        Peripheral::Ssi0 => 0x1,
        Peripheral::Ssi1 => 0x2,
        Peripheral::Uart0 => 0x1,
        Peripheral::Uart1 => 0x2,
        Peripheral::I2c => 0x1,
        Peripheral::Pka => 0x1,
        Peripheral::Aes => 0x2,
        Peripheral::Radio => 0x1,
    }
}

/// The value `reg` of a register of a group with the bit of `peripheral`
/// set or cleared.
pub open spec fn spec_gate_value(reg: u32, peripheral: Peripheral, on: bool) -> u32 {
    if on {
        reg | spec_gate_bit(peripheral)
    } else {
        reg & !spec_gate_bit(peripheral)
    }
}

/// The modes `gated` with the clock switched on or off in the mode `mode`.
pub open spec fn spec_gate_mode(gated: Gated, mode: PowerMode, on: bool) -> Gated {
    match mode {
        PowerMode::Active => Gated { active_mode: on, ..gated },
        PowerMode::Sleep => Gated { sleep_mode: on, ..gated },
        PowerMode::DeepSleep => Gated { deep_sleep_mode: on, ..gated },
    }
}

/// The modes in which the clock of `peripheral` runs under `config`.
pub open spec fn spec_gated(config: ClockConfig, peripheral: Peripheral) -> Gated {
    match peripheral {
        Peripheral::Gpt0 => config.gpt0,
        Peripheral::Gpt1 => config.gpt1,
        Peripheral::Gpt2 => config.gpt2,
        Peripheral::Gpt3 => config.gpt3,
        Peripheral::Ssi0 => config.ssi0,
        Peripheral::Ssi1 => config.ssi1,
        Peripheral::Uart0 => config.uart0,
        Peripheral::Uart1 => config.uart1,
        Peripheral::I2c => config.i2c,
        Peripheral::Pka => config.pka,
        Peripheral::Aes => config.aes,
        Peripheral::Radio => config.radio,
    }
}

/// The configuration `config` with `gated` as the modes in which the clock
/// of `peripheral` runs.
pub open spec fn spec_set_gated(config: ClockConfig, peripheral: Peripheral, gated: Gated) -> ClockConfig {
    match peripheral {
        Peripheral::Gpt0 => ClockConfig { gpt0: gated, ..config },
        Peripheral::Gpt1 => ClockConfig { gpt1: gated, ..config },
        Peripheral::Gpt2 => ClockConfig { gpt2: gated, ..config },
        Peripheral::Gpt3 => ClockConfig { gpt3: gated, ..config },
        Peripheral::Ssi0 => ClockConfig { ssi0: gated, ..config },
        Peripheral::Ssi1 => ClockConfig { ssi1: gated, ..config },
        Peripheral::Uart0 => ClockConfig { uart0: gated, ..config },
        Peripheral::Uart1 => ClockConfig { uart1: gated, ..config },
        Peripheral::I2c => ClockConfig { i2c: gated, ..config },
        Peripheral::Pka => ClockConfig { pka: gated, ..config },
        Peripheral::Aes => ClockConfig { aes: gated, ..config },
        Peripheral::Radio => ClockConfig { radio: gated, ..config },
    }
}

/// The configuration `config` with the clock of `peripheral` switched on
/// or off in the mode `mode`.
pub open spec fn spec_with_gate(
    config: ClockConfig,
    peripheral: Peripheral,
    mode: PowerMode,
    on: bool,
) -> ClockConfig {
    spec_set_gated(config, peripheral, spec_gate_mode(spec_gated(config, peripheral), mode, on))
}

/// Switching a clock changes the modes of its peripheral in the one mode,
/// and of no other peripheral, and leaves the clocks as they are.
pub proof fn lemma_with_gate(
    config: ClockConfig,
    peripheral: Peripheral,
    mode: PowerMode,
    on: bool,
    other: Peripheral,
)
    ensures
        spec_gated(spec_with_gate(config, peripheral, mode, on), peripheral) == spec_gate_mode(
            spec_gated(config, peripheral),
            mode,
            on,
        ),
        other != peripheral ==> spec_gated(spec_with_gate(config, peripheral, mode, on), other)
            == spec_gated(config, other),
        spec_with_gate(config, peripheral, mode, on).sys_div == config.sys_div,
        spec_with_gate(config, peripheral, mode, on).io_div == config.io_div,
        spec_with_gate(config, peripheral, mode, on).osc == config.osc,
{
    let gated = spec_gate_mode(spec_gated(config, peripheral), mode, on);
    lemma_set_gated_sets(config, peripheral, gated);
    if other != peripheral {
        lemma_set_gated_keeps(config, peripheral, gated, other);
    }
}

/// Setting the modes of a peripheral sets them and leaves the clocks as
/// they are.
proof fn lemma_set_gated_sets(config: ClockConfig, peripheral: Peripheral, gated: Gated)
    ensures
        spec_gated(spec_set_gated(config, peripheral, gated), peripheral) == gated,
        spec_set_gated(config, peripheral, gated).sys_div == config.sys_div,
        spec_set_gated(config, peripheral, gated).io_div == config.io_div,
        spec_set_gated(config, peripheral, gated).osc == config.osc,
{
}

/// Setting the modes of a peripheral changes those of no other.
proof fn lemma_set_gated_keeps(config: ClockConfig, peripheral: Peripheral, gated: Gated, other: Peripheral)
    requires
        other != peripheral,
    ensures
        spec_gated(spec_set_gated(config, peripheral, gated), other) == spec_gated(config, other),
{
    let after = spec_set_gated(config, peripheral, gated);
    match other {
        Peripheral::Gpt0 => {
            assert(spec_gated(config, other) == config.gpt0);
            assert(after.gpt0 == config.gpt0);
        },
        Peripheral::Gpt1 => {
            assert(spec_gated(config, other) == config.gpt1);
            assert(after.gpt1 == config.gpt1);
        },
        Peripheral::Gpt2 => {
            assert(spec_gated(config, other) == config.gpt2);
            assert(after.gpt2 == config.gpt2);
        },
        Peripheral::Gpt3 => {
            assert(spec_gated(config, other) == config.gpt3);
            assert(after.gpt3 == config.gpt3);
        },
        Peripheral::Ssi0 => {
            assert(spec_gated(config, other) == config.ssi0);
            assert(after.ssi0 == config.ssi0);
        },
        Peripheral::Ssi1 => {
            assert(spec_gated(config, other) == config.ssi1);
            assert(after.ssi1 == config.ssi1);
        },
        Peripheral::Uart0 => {
            assert(spec_gated(config, other) == config.uart0);
            assert(after.uart0 == config.uart0);
        },
        Peripheral::Uart1 => {
            assert(spec_gated(config, other) == config.uart1);
            assert(after.uart1 == config.uart1);
        },
        Peripheral::I2c => {
            assert(spec_gated(config, other) == config.i2c);
            assert(after.i2c == config.i2c);
        },
        Peripheral::Pka => {
            assert(spec_gated(config, other) == config.pka);
            assert(after.pka == config.pka);
        },
        Peripheral::Aes => {
            assert(spec_gated(config, other) == config.aes);
            assert(after.aes == config.aes);
        },
        Peripheral::Radio => {
            assert(spec_gated(config, other) == config.radio);
            assert(after.radio == config.radio);
        },
    }
}

/// The clock configuration after a reset.
pub open spec fn spec_default_config() -> ClockConfig {
    let off = Gated { active_mode: false, sleep_mode: false, deep_sleep_mode: false };
    ClockConfig {
        use_crystal_osc32k: false,
        osc: Osc::Osc16Mhz,
        io_div: ClockDiv::Clock16Mhz,
        sys_div: ClockDiv::Clock16Mhz,
        gpt0: off,
        gpt1: off,
        gpt2: off,
        gpt3: off,
        ssi0: off,
        ssi1: off,
        uart0: off,
        uart1: off,
        i2c: off,
        pka: off,
        aes: off,
        radio: off,
    }
}

impl ClockDiv {
    pub fn as_freq(&self) -> (freq: u32)
        ensures
            freq == spec_freq(*self),
    {
        match self {
            ClockDiv::Clock32Mhz => 32_000_000,
            ClockDiv::Clock16Mhz => 16_000_000,
            ClockDiv::Clock8Mhz => 8_000_000,
            ClockDiv::Clock4Mhz => 4_000_000,
            ClockDiv::Clock2Mhz => 2_000_000,
            ClockDiv::Clock1Mhz => 1_000_000,
            ClockDiv::Clock05Mhz => 500_000,
            ClockDiv::Clock025Mhz => 250_000,
        }
    }

    /// The number that stands for the division in the clock control
    /// register.
    pub fn bits(&self) -> (bits: u8)
        ensures
            bits == spec_div_bits(*self),
    {
        match self {
            ClockDiv::Clock32Mhz => 0,
            ClockDiv::Clock16Mhz => 1,
            ClockDiv::Clock8Mhz => 2,
            ClockDiv::Clock4Mhz => 3,
            ClockDiv::Clock2Mhz => 4,
            ClockDiv::Clock1Mhz => 5,
            ClockDiv::Clock05Mhz => 6,
            ClockDiv::Clock025Mhz => 7,
        }
    }
}

impl Default for Gated {
    fn default() -> (gated: Self)
        ensures
            gated == (Gated { active_mode: false, sleep_mode: false, deep_sleep_mode: false }),
    {
        Gated { active_mode: false, sleep_mode: false, deep_sleep_mode: false }
    }
}

impl Default for ClockConfig {
    fn default() -> (config: Self)
        ensures
            config == spec_default_config(),
    {
        let off = Gated { active_mode: false, sleep_mode: false, deep_sleep_mode: false };
        Self {
            use_crystal_osc32k: false,
            osc: Osc::Osc16Mhz,
            io_div: ClockDiv::Clock16Mhz,
            sys_div: ClockDiv::Clock16Mhz,
            gpt0: off,
            gpt1: off,
            gpt2: off,
            gpt3: off,
            ssi0: off,
            ssi1: off,
            uart0: off,
            uart1: off,
            i2c: off,
            pka: off,
            aes: off,
            radio: off,
        }
    }
}

impl ClockConfig {
    /// The frequency of the system clock in Hz.
    pub fn sys_freq(&self) -> (freq: u32)
        ensures
            freq == spec_freq(self.sys_div),
    {
        self.sys_div.as_freq()
    }

    /// The frequency of the I/O clock in Hz.
    pub fn io_freq(&self) -> (freq: u32)
        ensures
            freq == spec_freq(self.io_div),
    {
        self.io_div.as_freq()
    }

    /// The frequency of the sleep timer in Hz.
    pub fn smwd_freq(&self) -> (freq: u32)
        ensures
            freq == 32_768,
    {
        32_768
    }
}

impl<STATE> View for SysCtrl<STATE> {
    type V = ClockConfig;

    closed spec fn view(&self) -> ClockConfig {
        self.config
    }
}

impl Peripheral {
    /// The place of the register that gates the clock of this peripheral
    /// in the power mode `mode`, in bytes from the start of the system
    /// control.
    pub fn gate_register(&self, mode: PowerMode) -> (offset: u32)
        ensures
            offset == spec_gate_register(*self, mode),
    {
        let group: u32 = match self {
            Peripheral::Gpt0 => 0x08,
            Peripheral::Gpt1 => 0x08,
            Peripheral::Gpt2 => 0x08,
            Peripheral::Gpt3 => 0x08,
            Peripheral::Ssi0 => 0x18,
            Peripheral::Ssi1 => 0x18,
            Peripheral::Uart0 => 0x28,
            Peripheral::Uart1 => 0x28,
            Peripheral::I2c => 0x38,
            Peripheral::Pka => 0x48,
            Peripheral::Aes => 0x48,
            Peripheral::Radio => 0xa8,
        };
        match mode {
            PowerMode::Active => group,
            PowerMode::Sleep => group + 4,
            PowerMode::DeepSleep => group + 8,
        }
    }

    /// The place of the register that resets this peripheral, where there
    /// is one.
    pub fn reset_register(&self) -> (offset: Option<u32>)
        ensures
            offset == spec_reset_register(*self),
    {
        match self {
            Peripheral::Radio => None,
            _ => Some(self.gate_register(PowerMode::Active) + 12),
        }
    }

    /// The bit of this peripheral in the registers of its group.
    pub fn gate_bit(&self) -> (bit: u32)
        ensures
            bit == spec_gate_bit(*self),
    {
        match self {
            Peripheral::Gpt0 => 0x1,
            Peripheral::Gpt1 => 0x2,
            Peripheral::Gpt2 => 0x4,
            Peripheral::Gpt3 => 0x8,
            Peripheral::Ssi0 => 0x1,
            Peripheral::Ssi1 => 0x2,
            Peripheral::Uart0 => 0x1,
            Peripheral::Uart1 => 0x2,
            Peripheral::I2c => 0x1,
            Peripheral::Pka => 0x1,
            Peripheral::Aes => 0x2,
            Peripheral::Radio => 0x1,
        }
    }

    /// The value `reg` of a register of the group with the bit of this
    /// peripheral set or cleared.
    pub fn gate_value(&self, reg: u32, on: bool) -> (value: u32)
        ensures
            value == spec_gate_value(reg, *self, on),
    {
        if on {
            reg | self.gate_bit()
        } else {
            reg & !self.gate_bit()
        }
    }
}

impl Gated {
    /// These modes with the clock switched on or off in the mode `mode`.
    pub fn with_mode(self, mode: PowerMode, on: bool) -> (gated: Gated)
        ensures
            gated == spec_gate_mode(self, mode, on),
    {
        match mode {
            PowerMode::Active => Gated { active_mode: on, ..self },
            PowerMode::Sleep => Gated { sleep_mode: on, ..self },
            PowerMode::DeepSleep => Gated { deep_sleep_mode: on, ..self },
        }
    }
}

impl<STATE> SysCtrl<STATE> {
    /// Switches the clock of `peripheral` on or off in the power mode
    /// `mode`: notes it in the configuration, and gives the new value of
    /// the register of that mode, which holds `reg`.
    pub fn gate(&mut self, peripheral: Peripheral, mode: PowerMode, on: bool, reg: u32) -> (value:
        u32)
        ensures
            final(self)@ == spec_with_gate(old(self)@, peripheral, mode, on),
            value == spec_gate_value(reg, peripheral, on),
    {
        let gated = self.gated(peripheral).with_mode(mode, on);
        self.set_gated(peripheral, gated);
        peripheral.gate_value(reg, on)
    }

    fn set_gated(&mut self, peripheral: Peripheral, gated: Gated)
        ensures
            final(self)@ == spec_set_gated(old(self)@, peripheral, gated),
    {
        match peripheral {
            Peripheral::Gpt0 => {
                self.config.gpt0 = gated;
            },
            Peripheral::Gpt1 => {
                self.config.gpt1 = gated;
            },
            Peripheral::Gpt2 => {
                self.config.gpt2 = gated;
            },
            Peripheral::Gpt3 => {
                self.config.gpt3 = gated;
            },
            Peripheral::Ssi0 => {
                self.config.ssi0 = gated;
            },
            Peripheral::Ssi1 => {
                self.config.ssi1 = gated;
            },
            Peripheral::Uart0 => {
                self.config.uart0 = gated;
            },
            Peripheral::Uart1 => {
                self.config.uart1 = gated;
            },
            Peripheral::I2c => {
                self.config.i2c = gated;
            },
            Peripheral::Pka => {
                self.config.pka = gated;
            },
            Peripheral::Aes => {
                self.config.aes = gated;
            },
            Peripheral::Radio => {
                self.config.radio = gated;
            },
        }
    }

    /// The modes in which the clock of `peripheral` runs.
    pub fn gated(&self, peripheral: Peripheral) -> (gated: Gated)
        ensures
            gated == spec_gated(self@, peripheral),
    {
        match peripheral {
            Peripheral::Gpt0 => self.config.gpt0,
            Peripheral::Gpt1 => self.config.gpt1,
            Peripheral::Gpt2 => self.config.gpt2,
            Peripheral::Gpt3 => self.config.gpt3,
            Peripheral::Ssi0 => self.config.ssi0,
            Peripheral::Ssi1 => self.config.ssi1,
            Peripheral::Uart0 => self.config.uart0,
            Peripheral::Uart1 => self.config.uart1,
            Peripheral::I2c => self.config.i2c,
            Peripheral::Pka => self.config.pka,
            Peripheral::Aes => self.config.aes,
            Peripheral::Radio => self.config.radio,
        }
    }
}

impl SysCtrl<Unconfigured> {
    /// The system control with the clock configuration after a reset.
    pub fn new() -> (sys_ctrl: Self)
        ensures
            sys_ctrl@ == spec_default_config(),
    {
        SysCtrl { config: ClockConfig::default(), _state: PhantomData }
    }

    pub fn disable_crystal_osc32k(&mut self)
        ensures
            final(self)@ == (ClockConfig { use_crystal_osc32k: false, ..old(self)@ }),
    {
        self.config.use_crystal_osc32k = false;
    }

    pub fn set_osc(&mut self, osc: Osc)
        ensures
            final(self)@ == (ClockConfig { osc, ..old(self)@ }),
    {
        self.config.osc = osc;
    }

    pub fn set_io_div(&mut self, div: ClockDiv)
        ensures
            final(self)@ == (ClockConfig { io_div: div, ..old(self)@ }),
    {
        self.config.io_div = div;
    }

    pub fn set_sys_div(&mut self, div: ClockDiv)
        ensures
            final(self)@ == (ClockConfig { sys_div: div, ..old(self)@ }),
    {
        self.config.sys_div = div;
    }

    /// Puts the configuration in force: from here on it cannot change.
    pub fn freeze(self) -> (sys_ctrl: SysCtrl<Frozen>)
        ensures
            sys_ctrl@ == self@,
    {
        SysCtrl { config: self.config, _state: PhantomData }
    }
}

impl SysCtrl<Frozen> {
    /// The clock configuration that is in force.
    pub fn config(&self) -> (config: ClockConfig)
        ensures
            config == self@,
    {
        self.config
    }
}

} // verus!
