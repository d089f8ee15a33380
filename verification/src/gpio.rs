//! General purpose input and output: the values that set a pin up, and the
//! states that a pin goes through.

use core::marker::PhantomData;
use vstd::prelude::*;

verus! {

/// Extension trait to split a GPIO peripheral in independent pins and
/// registers.
pub trait GpioExt {
    /// The parts to split the GPIO into.
    type Parts;

    /// Splits the GPIO block into independent pins and registers.
    fn split(self) -> Self::Parts;
}

/// Enum to select a direction for the pin.
#[derive(Debug, Clone, Copy, PartialEq, Eq, Structural)]
pub enum Direction {
    Input,
    Output,
}

/// Enum to select the pad override.
#[derive(Debug, Clone, Copy, PartialEq, Eq, Structural)]
pub enum PadOveride {
    Output,
    PullUp,
    PullDown,
    Analog,
    Disabled,
}

/// Output type state.
#[derive(Debug)]
pub struct Output<MODE> {
    _mode: PhantomData<MODE>,
}

/// Output enable mode type state.
#[derive(Debug, Clone, Copy)]
pub struct OutputEnable;

/// Input type state.
#[derive(Debug)]
pub struct Input<MODE> {
    _mode: PhantomData<MODE>,
}

/// Input pull up mode type state.
#[derive(Debug, Clone, Copy)]
pub struct PullUpEnable;

/// Input pull down mode type state.
#[derive(Debug, Clone, Copy)]
pub struct PullDownEnable;

/// Input analog mode type state.
#[derive(Debug, Clone, Copy)]
pub struct AnalogEnable;

/// Pin type state of a pin that a peripheral drives.
#[derive(Debug, Clone, Copy)]
pub struct AltFunc;

/// The signal of a peripheral that a pin can put out.
#[derive(Debug, Clone, Copy, PartialEq, Eq, Structural)]
pub enum OutputFunction {
    Uart0Txd,
    Uart1Rts,
    Uart1Txd,
    Ssi0Tx,
    Ssi0ClkOut,
    Ssi0FssOut,
    Ssi0TxSerOut,
    Ssi1Txd,
    Ssi1ClkOut,
    Ssi1FssOut,
    Ssi1TxSerOut,
    I2cSda,
    I2cScl,
    Gpt0Cp1,
    Gpt0Cp2,
    Gpt1Cp1,
    Gpt1Cp2,
    Gpt2Cp1,
    Gpt2Cp2,
    Gpt3Cp1,
    Gpt3Cp2,
}

/// The four ports of the chip.
#[derive(Debug, Clone, Copy, PartialEq, Eq, Structural)]
pub enum Gpio {
    GpioA,
    GpioB,
    GpioC,
    GpioD,
}

/// The bit that stands for a direction in the direction register.
pub open spec fn spec_direction_bit(direction: Direction) -> bool {
    direction == Direction::Output
}

/// The value of the override register of a pad.
pub open spec fn spec_pad_bits(overide: PadOveride) -> u32 {
    match overide {
        PadOveride::Output => 0x8,
        PadOveride::PullUp => 0x4,
        PadOveride::PullDown => 0x2,
        PadOveride::Analog => 0x1,
        PadOveride::Disabled => 0x0,
    }
}

/// The number by which the selection register of a pin names a signal.
pub open spec fn spec_function_bits(func: OutputFunction) -> u32 {
    match func {
        OutputFunction::Uart0Txd => 0x0,
        OutputFunction::Uart1Rts => 0x1,
        OutputFunction::Uart1Txd => 0x2,
        OutputFunction::Ssi0Tx => 0x3,
        OutputFunction::Ssi0ClkOut => 0x4,
        OutputFunction::Ssi0FssOut => 0x5,
        OutputFunction::Ssi0TxSerOut => 0x6,
        OutputFunction::Ssi1Txd => 0x7,
        OutputFunction::Ssi1ClkOut => 0x8,
        OutputFunction::Ssi1FssOut => 0x9,
        OutputFunction::Ssi1TxSerOut => 0xa,
        OutputFunction::I2cSda => 0xb,
        OutputFunction::I2cScl => 0xc,
        OutputFunction::Gpt0Cp1 => 0xd,
        OutputFunction::Gpt0Cp2 => 0xe,
        OutputFunction::Gpt1Cp1 => 0xf,
        OutputFunction::Gpt1Cp2 => 0x10,
        OutputFunction::Gpt2Cp1 => 0x11,
        OutputFunction::Gpt2Cp2 => 0x12,
        OutputFunction::Gpt3Cp1 => 0x13,
        OutputFunction::Gpt3Cp2 => 0x14,
    }
}

/// The place of a port among the four.
pub open spec fn spec_port_index(gpio: Gpio) -> u32 {
    match gpio {
        Gpio::GpioA => 0,
        Gpio::GpioB => 1,
        Gpio::GpioC => 2,
        Gpio::GpioD => 3,
    }
}

/// The number by which an input of a peripheral names the pin `pin` of the
/// port `gpio`: the pins are counted through the ports, eight to a port.
pub open spec fn spec_pin_selector(gpio: Gpio, pin: u8) -> u32 {
    (spec_port_index(gpio) * 8 + pin) as u32
}

/// Whether the bit `pin` of `bits` is set.
pub open spec fn spec_pin_bit(bits: u8, pin: u8) -> bool {
    (bits >> pin) & 1 == 1
}

/// The value `bits` of a register of a port with the bit of the pin `pin`
/// set or cleared.
pub open spec fn spec_with_pin(bits: u8, pin: u8, set: bool) -> u8 {
    if set {
        (bits & !(1u8 << pin)) | (1u8 << pin)
    } else {
        bits & !(1u8 << pin)
    }
}

/// The register of a port with the bit of one pin changed holds that bit
/// as asked for and every other bit as before.
pub proof fn lemma_with_pin(bits: u8, pin: u8, set: bool, other: u8)
    requires
        pin < 8,
        other < 8,
    ensures
        spec_pin_bit(spec_with_pin(bits, pin, set), pin) == set,
        other != pin ==> spec_pin_bit(spec_with_pin(bits, pin, set), other) == spec_pin_bit(
            bits,
            other,
        ),
{
    assert(pin < 8 ==> ((((bits & !(1u8 << pin)) | (1u8 << pin)) >> pin) & 1 == 1 && ((bits & !(1u8
        << pin)) >> pin) & 1 == 0)) by (bit_vector);
    assert(pin < 8 && other < 8 && other != pin ==> ((((bits & !(1u8 << pin)) | (1u8 << pin))
        >> other) & 1 == (bits >> other) & 1 && ((bits & !(1u8 << pin)) >> other) & 1 == (bits
        >> other) & 1)) by (bit_vector);
}

/// What the registers of a pin are set to when the pin takes a new role.
#[derive(Debug, Clone, Copy, PartialEq, Eq, Structural)]
pub struct PinSetup {
    /// The new value of the direction register of the port.
    pub dir: u8,
    /// The new value of the override register of the pad.
    pub pad_over: u32,
}

/// What the registers of a pin are set to when a peripheral takes the pin
/// as its output.
#[derive(Debug, Clone, Copy, PartialEq, Eq, Structural)]
pub struct AltSetup {
    /// The new value of the direction register of the port.
    pub dir: u8,
    /// The new value of the override register of the pad.
    pub pad_over: u32,
    /// The new value of the register of the port that hands pins to
    /// peripherals.
    pub afsel: u8,
    /// The new value of the selection register of the pin.
    pub function: u32,
}

/// The setup of the pin `pin` with the direction `direction` and the
/// override `overide`, on a port whose direction register holds `dir`.
pub open spec fn spec_pin_setup(dir: u8, pin: u8, direction: Direction, overide: PadOveride) -> PinSetup {
    PinSetup {
        dir: spec_with_pin(dir, pin, spec_direction_bit(direction)),
        pad_over: spec_pad_bits(overide),
    }
}

impl Direction {
    /// The bit that stands for this direction.
    pub fn bit(&self) -> (bit: bool)
        ensures
            bit == spec_direction_bit(*self),
    {
        match self {
            Direction::Input => false,
            Direction::Output => true,
        }
    }
}

impl PadOveride {
    /// The value of the override register for this override.
    pub fn bits(&self) -> (bits: u32)
        ensures
            bits == spec_pad_bits(*self),
    {
        match self {
            PadOveride::Output => 0x8,
            PadOveride::PullUp => 0x4,
            PadOveride::PullDown => 0x2,
            PadOveride::Analog => 0x1,
            PadOveride::Disabled => 0x0,
        }
    }
}

impl OutputFunction {
    /// The number by which the selection register of a pin names this
    /// signal.
    pub fn bits(&self) -> (bits: u32)
        ensures
            bits == spec_function_bits(*self),
    {
        match self {
            OutputFunction::Uart0Txd => 0x0,
            OutputFunction::Uart1Rts => 0x1,
            OutputFunction::Uart1Txd => 0x2,
            OutputFunction::Ssi0Tx => 0x3,
            OutputFunction::Ssi0ClkOut => 0x4,
            OutputFunction::Ssi0FssOut => 0x5,
            OutputFunction::Ssi0TxSerOut => 0x6,
            OutputFunction::Ssi1Txd => 0x7,
            OutputFunction::Ssi1ClkOut => 0x8,
            OutputFunction::Ssi1FssOut => 0x9,
            OutputFunction::Ssi1TxSerOut => 0xa,
            OutputFunction::I2cSda => 0xb,
            OutputFunction::I2cScl => 0xc,
            OutputFunction::Gpt0Cp1 => 0xd,
            OutputFunction::Gpt0Cp2 => 0xe,
            OutputFunction::Gpt1Cp1 => 0xf,
            OutputFunction::Gpt1Cp2 => 0x10,
            OutputFunction::Gpt2Cp1 => 0x11,
            OutputFunction::Gpt2Cp2 => 0x12,
            OutputFunction::Gpt3Cp1 => 0x13,
            OutputFunction::Gpt3Cp2 => 0x14,
        }
    }
}

impl Gpio {
    /// The place of this port among the four.
    pub fn index(&self) -> (index: u32)
        ensures
            index == spec_port_index(*self),
    {
        match self {
            Gpio::GpioA => 0,
            Gpio::GpioB => 1,
            Gpio::GpioC => 2,
            Gpio::GpioD => 3,
        }
    }
}

/// The value `bits` of a register of a port with the bit of the pin `pin`
/// set or cleared.
pub fn with_pin(bits: u8, pin: u8, set: bool) -> (r: u8)
    requires
        pin < 8,
    ensures
        r == spec_with_pin(bits, pin, set),
{
    let mask: u8 = 1u8 << pin;
    if set {
        (bits & !mask) | mask
    } else {
        bits & !mask
    }
}

/// Fully erased pin: a pin of any port, in the state `MODE`.
#[derive(Debug)]
pub struct PXx<MODE> {
    pin: u8,
    gpio: Gpio,
    _mode: PhantomData<MODE>,
}

impl<MODE> PXx<MODE> {
    /// The port of the pin.
    pub closed spec fn spec_gpio(&self) -> Gpio {
        self.gpio
    }

    /// The number of the pin in its port.
    pub closed spec fn spec_pin(&self) -> u8 {
        self.pin
    }

    /// A port has eight pins.
    pub open spec fn wf(&self) -> bool {
        self.spec_pin() < 8
    }

    /// Whether `other` is the same pin, whatever its state.
    pub open spec fn same_pin<OTHER>(&self, other: PXx<OTHER>) -> bool {
        self.spec_gpio() == other.spec_gpio() && self.spec_pin() == other.spec_pin()
    }

    /// The pin `pin` of the port `gpio`, where the port has such a pin.
    pub fn new(gpio: Gpio, pin: u8) -> (r: Option<Self>)
        ensures
            r.is_some() == (pin < 8),
            r matches Some(p) ==> p.wf() && p.spec_gpio() == gpio && p.spec_pin() == pin,
    {
        if pin < 8 {
            Some(PXx { pin, gpio, _mode: PhantomData })
        } else {
            None
        }
    }

    /// The port of the pin.
    pub fn gpio(&self) -> (gpio: Gpio)
        ensures
            gpio == self.spec_gpio(),
    {
        self.gpio
    }

    /// The number of the pin in its port.
    pub fn pin(&self) -> (pin: u8)
        ensures
            pin == self.spec_pin(),
    {
        self.pin
    }

    /// The number by which an input of a peripheral names this pin.
    pub fn as_pin_selector(&self) -> (selector: u32)
        requires
            self.wf(),
        ensures
            selector == spec_pin_selector(self.spec_gpio(), self.spec_pin()),
            selector < 32,
    {
        let pin: u32 = self.pin.into();
        self.gpio.index() * 8 + pin
    }

    /// The place of the pin in the data of its port: the word of the port
    /// at this offset holds the level of this pin alone.
    pub fn data_offset(&self) -> (offset: u32)
        requires
            self.wf(),
        ensures
            offset == 1u32 << self.spec_pin(),
    {
        1u32 << self.pin
    }

    /// The value of the register that hands the pins of the port to
    /// peripherals, with this pin handed over or taken back.
    pub fn set_afsel(&self, afsel: u8, set: bool) -> (r: u8)
        requires
            self.wf(),
        ensures
            r == spec_with_pin(afsel, self.spec_pin(), set),
    {
        with_pin(afsel, self.pin, set)
    }

    /// The value of the direction register of the port, which holds `dir`,
    /// with this pin in the direction `direction`.
    pub fn set_direction(&self, dir: u8, direction: Direction) -> (r: u8)
        requires
            self.wf(),
        ensures
            r == spec_with_pin(dir, self.spec_pin(), spec_direction_bit(direction)),
    {
        with_pin(dir, self.pin, direction.bit())
    }

    /// The value of the override register of the pad of this pin for the
    /// override `overide`.
    pub fn set_pad_overide(&self, overide: PadOveride) -> (r: u32)
        ensures
            r == spec_pad_bits(overide),
    {
        overide.bits()
    }

    fn setup<NEXT>(self, dir: u8, direction: Direction, overide: PadOveride) -> (r: (
        PXx<NEXT>,
        PinSetup,
    ))
        requires
            self.wf(),
        ensures
            r.0.wf(),
            self.same_pin(r.0),
            r.1 == spec_pin_setup(dir, self.spec_pin(), direction, overide),
    {
        let setup = PinSetup {
            dir: self.set_direction(dir, direction),
            pad_over: overide.bits(),
        };
        (PXx { pin: self.pin, gpio: self.gpio, _mode: PhantomData }, setup)
    }

    /// Configure the pin to operate as an output pin, on a port whose
    /// direction register holds `dir`.
    pub fn into_output_enable_output(self, dir: u8) -> (r: (PXx<Output<OutputEnable>>, PinSetup))
        requires
            self.wf(),
        ensures
            r.0.wf(),
            self.same_pin(r.0),
            r.1 == spec_pin_setup(dir, self.spec_pin(), Direction::Output, PadOveride::Output),
    {
        self.setup(dir, Direction::Output, PadOveride::Output)
    }

    /// Configure the pin to operate as a pull up input pin, on a port
    /// whose direction register holds `dir`.
    pub fn into_pull_up_enable_input(self, dir: u8) -> (r: (PXx<Input<PullUpEnable>>, PinSetup))
        requires
            self.wf(),
        ensures
            r.0.wf(),
            self.same_pin(r.0),
            r.1 == spec_pin_setup(dir, self.spec_pin(), Direction::Input, PadOveride::PullUp),
    {
        self.setup(dir, Direction::Input, PadOveride::PullUp)
    }

    /// Configure the pin to operate as a pull down input pin, on a port
    /// whose direction register holds `dir`.
    pub fn into_pull_down_enable_input(self, dir: u8) -> (r: (
        PXx<Input<PullDownEnable>>,
        PinSetup,
    ))
        requires
            self.wf(),
        ensures
            r.0.wf(),
            self.same_pin(r.0),
            r.1 == spec_pin_setup(dir, self.spec_pin(), Direction::Input, PadOveride::PullDown),
    {
        self.setup(dir, Direction::Input, PadOveride::PullDown)
    }

    /// Configure the pin to operate as an analog input pin, on a port
    /// whose direction register holds `dir`.
    pub fn into_analog_input(self, dir: u8) -> (r: (PXx<Input<AnalogEnable>>, PinSetup))
        requires
            self.wf(),
        ensures
            r.0.wf(),
            self.same_pin(r.0),
            r.1 == spec_pin_setup(dir, self.spec_pin(), Direction::Input, PadOveride::Analog),
    {
        self.setup(dir, Direction::Input, PadOveride::Analog)
    }

    /// Set the pin as an alternative function output pin that puts out
    /// `func`, on a port whose direction register holds `dir` and whose
    /// register that hands pins to peripherals holds `afsel`.
    pub fn into_alt_output_function(self, dir: u8, afsel: u8, func: OutputFunction) -> (r: (
        PXx<AltFunc>,
        AltSetup,
    ))
        requires
            self.wf(),
        ensures
            r.0.wf(),
            self.same_pin(r.0),
            r.1 == (AltSetup {
                dir: spec_with_pin(dir, self.spec_pin(), true),
                pad_over: spec_pad_bits(PadOveride::Output),
                afsel: spec_with_pin(afsel, self.spec_pin(), true),
                function: spec_function_bits(func),
            }),
    {
        let setup = AltSetup {
            dir: self.set_direction(dir, Direction::Output),
            pad_over: PadOveride::Output.bits(),
            afsel: self.set_afsel(afsel, true),
            function: func.bits(),
        };
        (PXx { pin: self.pin, gpio: self.gpio, _mode: PhantomData }, setup)
    }

    /// Hand the pin to an input of a peripheral: the new value of the
    /// register of the port that hands pins over, which holds `afsel`, and
    /// the value of the selection register of that input.
    pub fn into_alt_input(self, afsel: u8) -> (r: (PXx<AltFunc>, u8, u32))
        requires
            self.wf(),
        ensures
            r.0.wf(),
            self.same_pin(r.0),
            r.1 == spec_with_pin(afsel, self.spec_pin(), true),
            r.2 == spec_pin_selector(self.spec_gpio(), self.spec_pin()),
    {
        let afsel = self.set_afsel(afsel, true);
        let selector = self.as_pin_selector();
        (PXx { pin: self.pin, gpio: self.gpio, _mode: PhantomData }, afsel, selector)
    }
}

impl<MODE> PXx<Output<MODE>> {
    /// The word that drives the pin high, written at the offset of the pin
    /// in the data of its port.
    pub fn set_high(&self) -> (word: u32)
        requires
            self.wf(),
        ensures
            word == 1u32 << self.spec_pin(),
    {
        self.data_offset()
    }

    /// The word that drives the pin low, written at the offset of the pin
    /// in the data of its port.
    pub fn set_low(&self) -> (word: u32)
        ensures
            word == 0,
    {
        0
    }
}

impl<MODE> PXx<Input<MODE>> {
    /// Whether the pin is low, from the word `data` at the offset of the
    /// pin in the data of its port.
    pub fn is_low(&self, data: u32) -> (low: bool)
        ensures
            low == (data == 0),
    {
        data == 0
    }

    /// Whether the pin is high, from the word `data` at the offset of the
    /// pin in the data of its port.
    pub fn is_high(&self, data: u32) -> (high: bool)
        ensures
            high == (data != 0),
    {
        !self.is_low(data)
    }
}

} // verus!
