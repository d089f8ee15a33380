//! The analog-to-digital converter: what a conversion is set up with and
//! what its result means.

use vstd::prelude::*;

verus! {

/// The channel that the converter reads.
#[derive(Debug, Clone, Copy, PartialEq, Eq, Structural)]
pub enum AdcChannel {
    Ain0,
    Ain1,
    Ain2,
    Ain3,
    Ain4,
    Ain5,
    Ain6,
    Ain7,
    Ain0Ain1,
    Ain2Ain3,
    Ain4Ain5,
    Ain6Ain7,
    Gnd,
    TemperatureSensor,
    VddDiv3,
}

/// The reference voltage used for the conversion in the ADC.
#[derive(Debug, Clone, Copy, PartialEq, Eq, Structural)]
pub enum RefVoltage {
    Internal,
    ExternalAin7,
    Avdd5,
    ExternalAin6Ain7,
}

/// The decimation rate of the ADC.
/// The decimation rate also determines the resolution and time required to complete a conversion.
#[derive(Debug, Clone, Copy, PartialEq, Eq, Structural)]
pub enum DecimationRate {
    Dec64,
    Dec128,
    Dec256,
    Dec512,
}

/// What a conversion is set up with.
#[derive(Debug, Clone, Copy, PartialEq, Eq, Structural)]
pub struct Adc {
    pub channel: AdcChannel,
    pub reference: RefVoltage,
    pub rate: DecimationRate,
}

/// The number that stands for a channel.
pub open spec fn spec_channel_bits(channel: AdcChannel) -> u32 {
    match channel {
        AdcChannel::Ain0 => 0b0000,
        AdcChannel::Ain1 => 0b0001,
        AdcChannel::Ain2 => 0b0010,
        AdcChannel::Ain3 => 0b0011,
        AdcChannel::Ain4 => 0b0100,
        AdcChannel::Ain5 => 0b0101,
        AdcChannel::Ain6 => 0b0110,
        AdcChannel::Ain7 => 0b0111,
        AdcChannel::Ain0Ain1 => 0b1000,
        AdcChannel::Ain2Ain3 => 0b1001,
        AdcChannel::Ain4Ain5 => 0b1010,
        AdcChannel::Ain6Ain7 => 0b1011,
        AdcChannel::Gnd => 0b1100,
        AdcChannel::TemperatureSensor => 0b1110,
        AdcChannel::VddDiv3 => 0b1111,
    }
}

/// The number that stands for a reference voltage.
pub open spec fn spec_reference_bits(reference: RefVoltage) -> u32 {
    match reference {
        RefVoltage::Internal => 0b00,
        RefVoltage::ExternalAin7 => 0b01,
        RefVoltage::Avdd5 => 0b10,
        RefVoltage::ExternalAin6Ain7 => 0b11,
    }
}

/// The number that stands for a decimation rate.
pub open spec fn spec_rate_bits(rate: DecimationRate) -> u32 {
    match rate {
        DecimationRate::Dec64 => 0b00,
        DecimationRate::Dec128 => 0b01,
        DecimationRate::Dec256 => 0b10,
        DecimationRate::Dec512 => 0b11,
    }
}

/// The value of the control register that starts a single conversion: the
/// channel in the bits 0 to 3, the decimation rate in the bits 4 and 5, and
/// the reference in the bits 6 and 7.
pub open spec fn spec_control(adc: Adc) -> u32 {
    (spec_channel_bits(adc.channel) & 0xf) | ((spec_rate_bits(adc.rate) & 0x3) << 4) | ((
    spec_reference_bits(adc.reference) & 0x3) << 6)
}

/// The result of a conversion, from the values of its low and its high
/// register: the high byte from the high register, and the low byte from
/// the low register, without its two lowest bits.
pub open spec fn spec_conversion(adcl: u32, adch: u32) -> u16 {
    (((adcl & 0xfc) | (adch << 8)) & 0xffff) as u16
}

/// The temperature in thousandths of a degree that a result of the
/// temperature sensor stands for.
pub open spec fn spec_temperature(val: u16) -> int {
    25_000 + ((val as int / 16) - 1_422) * 10_000 / 42
}

impl Default for RefVoltage {
    fn default() -> (reference: Self)
        ensures
            reference == RefVoltage::Internal,
    {
        Self::Internal
    }
}

impl Default for DecimationRate {
    fn default() -> (rate: Self)
        ensures
            rate == DecimationRate::Dec512,
    {
        Self::Dec512
    }
}

impl AdcChannel {
    /// The number that stands for the channel.
    pub fn bits(&self) -> (bits: u32)
        ensures
            bits == spec_channel_bits(*self),
    {
        match self {
            AdcChannel::Ain0 => 0b0000,
            AdcChannel::Ain1 => 0b0001,
            AdcChannel::Ain2 => 0b0010,
            AdcChannel::Ain3 => 0b0011,
            AdcChannel::Ain4 => 0b0100,
            AdcChannel::Ain5 => 0b0101,
            AdcChannel::Ain6 => 0b0110,
            AdcChannel::Ain7 => 0b0111,
            AdcChannel::Ain0Ain1 => 0b1000,
            AdcChannel::Ain2Ain3 => 0b1001,
            AdcChannel::Ain4Ain5 => 0b1010,
            AdcChannel::Ain6Ain7 => 0b1011,
            AdcChannel::Gnd => 0b1100,
            AdcChannel::TemperatureSensor => 0b1110,
            AdcChannel::VddDiv3 => 0b1111,
        }
    }
}

impl RefVoltage {
    /// The number that stands for the reference voltage.
    pub fn bits(&self) -> (bits: u32)
        ensures
            bits == spec_reference_bits(*self),
    {
        match self {
            RefVoltage::Internal => 0b00,
            RefVoltage::ExternalAin7 => 0b01,
            RefVoltage::Avdd5 => 0b10,
            RefVoltage::ExternalAin6Ain7 => 0b11,
        }
    }
}

impl DecimationRate {
    /// The number that stands for the decimation rate.
    pub fn bits(&self) -> (bits: u32)
        ensures
            bits == spec_rate_bits(*self),
    {
        match self {
            DecimationRate::Dec64 => 0b00,
            DecimationRate::Dec128 => 0b01,
            DecimationRate::Dec256 => 0b10,
            DecimationRate::Dec512 => 0b11,
        }
    }
}

impl Adc {
    /// Create a new ADC for `channel`, with the internal reference and the
    /// highest decimation rate.
    pub fn new(channel: AdcChannel) -> (adc: Self)
        ensures
            adc == (Adc { channel, reference: RefVoltage::Internal, rate: DecimationRate::Dec512 }),
    {
        Self { channel, reference: RefVoltage::default(), rate: DecimationRate::default() }
    }

    /// Set the voltage reference.
    pub fn set_reference(&mut self, reference: RefVoltage)
        ensures
            *final(self) == (Adc { reference, ..*old(self) }),
    {
        self.reference = reference;
    }

    /// Set the decimation rate.
    pub fn set_decimation_rate(&mut self, rate: DecimationRate)
        ensures
            *final(self) == (Adc { rate, ..*old(self) }),
    {
        self.rate = rate;
    }

    /// The value of the control register that starts a single conversion.
    pub fn control(&self) -> (value: u32)
        ensures
            value == spec_control(*self),
    {
        (self.channel.bits() & 0xf) | ((self.rate.bits() & 0x3) << 4) | ((self.reference.bits()
            & 0x3) << 6)
    }

    /// Get the ADC value, from the values of the low and the high register
    /// of the result.
    pub fn read(&self, adcl: u32, adch: u32) -> (value: u16)
        ensures
            value == spec_conversion(adcl, adch),
    {
        let res: u32 = (adcl & 0xfc) | (adch << 8);
        assert(res & 0xffff <= 0xffff) by (bit_vector);
        (res & 0xffff) as u16
    }

    /// Return a temperature value in thousandths of a degree, from a result
    /// of the temperature sensor that stands for 25 degrees or more.
    pub fn get_converted_temperature(&self, val: u16) -> (temperature: u32)
        requires
            val / 16 >= 1_422,
        ensures
            temperature == spec_temperature(val),
    {
        let val: u32 = val as u32;
        25_000 + ((val / 16) - 1_422) * 10_000 / 42
    }
}

} // verus!
