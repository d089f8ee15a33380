//! Direct memory access (DMA) controller.
//!
//! A channel of the controller is described by a control word in the
//! channel configuration table and by one bit in each of the registers of
//! the controller. This module computes these values.

use vstd::prelude::*;

verus! {

/// State of a controller that is not enabled.
pub struct Disabled {}

/// State of a controller that is enabled.
pub struct Enabled {}

/// Number of channels of the controller.
pub const CHANNELS: usize = 32;

/// Extension trait to split the uDMA controller in its channels
pub trait DmaExt {
    type Part;

    fn constrain(self) -> Self::Part;
}

#[derive(Debug, Clone, Copy, PartialEq, Eq, Structural)]
pub enum Priority {
    Default,
    High,
}

#[derive(Debug, Clone, Copy, PartialEq, Eq, Structural)]
pub enum TransferMode {
    Stop,
    Basic,
    AutoRequest,
    PingPong,
    MemoryScatterGather,
    AlternateMemoryScatterGather,
    PeripheralScatterGather,
    AlternatePeripheralScatterGather,
}

#[derive(Debug, Clone, Copy, PartialEq, Eq, Structural)]
pub enum AddressIncrement {
    Increment8bit,
    Increment16bit,
    Increment32bit,
    /// The address stays as it is.
    NoIncrement,
}

#[derive(Debug, Clone, Copy, PartialEq, Eq, Structural)]
pub enum DataSize {
    Data8bit,
    Data16bit,
    Data32bit,
}

#[derive(Debug, Clone, Copy, PartialEq, Eq, Structural)]
pub enum Arbitration {
    Transfer1,
    Transfer2,
    Tranfser4,
    Transfer8,
    Transfer16,
    Transfer32,
    Transfer64,
    Transfer128,
    Transfer256,
    Transfer512,
    NoArbitration,
}

#[derive(Debug, Clone, Copy, PartialEq, Eq, Structural)]
pub enum DmaState {
    Idle,
    ReadingControllerData,
    ReadingSourceEndPointer,
    ReadingDestinationEndPointer,
    ReadingSourceData,
    WritingDestinationData,
    WaitingRequestClear,
    WritingControllerData,
    Stalled,
    Done,
}

/// The control word of a channel.
#[derive(Debug, Clone, Copy, PartialEq, Eq, Structural)]
pub struct ChannelControlWord(pub u32);

/// A channel of the controller.
pub struct Channel {
    control_word: ChannelControlWord,
    channel: usize,
    alternate: bool,
}

/// What a [`Channel`] holds.
pub struct ChannelView {
    /// The control word of the channel.
    pub control_word: u32,
    /// The number of the channel.
    pub channel: usize,
    /// Whether the channel uses its alternate control structure.
    pub alternate: bool,
}

/// The word `word` with `value` in the field of the bits `mask`, which
/// starts at bit `shift`.
pub open spec fn spec_with_field(word: u32, shift: u32, mask: u32, value: u32) -> u32 {
    (word & !(mask << shift)) | ((value & mask) << shift)
}

/// The field of the bits `mask` of `word`, which starts at bit `shift`.
pub open spec fn spec_field(word: u32, shift: u32, mask: u32) -> u32 {
    (word >> shift) & mask
}

/// The number that stands for a transfer mode in the control word.
pub open spec fn spec_transfer_mode_bits(mode: TransferMode) -> u32 {
    match mode {
        TransferMode::Stop => 0,
        TransferMode::Basic => 1,
        TransferMode::AutoRequest => 2,
        TransferMode::PingPong => 3,
        TransferMode::MemoryScatterGather => 4,
        TransferMode::AlternateMemoryScatterGather => 5,
        TransferMode::PeripheralScatterGather => 6,
        TransferMode::AlternatePeripheralScatterGather => 7,
    }
}

/// The number that stands for an address increment in the control word.
pub open spec fn spec_increment_bits(increment: AddressIncrement) -> u32 {
    match increment {
        AddressIncrement::Increment8bit => 0,
        AddressIncrement::Increment16bit => 1,
        AddressIncrement::Increment32bit => 2,
        AddressIncrement::NoIncrement => 3,
    }
}

/// The number that stands for a data size in the control word.
pub open spec fn spec_size_bits(size: DataSize) -> u32 {
    match size {
        DataSize::Data8bit => 0,
        DataSize::Data16bit => 1,
        DataSize::Data32bit => 2,
    }
}

/// The number that stands for an arbitration size in the control word.
pub open spec fn spec_arbitration_bits(size: Arbitration) -> u32 {
    match size {
        Arbitration::Transfer1 => 0,
        Arbitration::Transfer2 => 1,
        Arbitration::Tranfser4 => 2,
        Arbitration::Transfer8 => 3,
        Arbitration::Transfer16 => 4,
        Arbitration::Transfer32 => 5,
        Arbitration::Transfer64 => 6,
        Arbitration::Transfer128 => 7,
        Arbitration::Transfer256 => 8,
        Arbitration::Transfer512 => 9,
        Arbitration::NoArbitration => 10,
    }
}

/// The number that stands for a state of the controller in its status
/// register.
pub open spec fn spec_state_bits(state: DmaState) -> u8 {
    match state {
        DmaState::Idle => 0,
        DmaState::ReadingControllerData => 1,
        DmaState::ReadingSourceEndPointer => 2,
        DmaState::ReadingDestinationEndPointer => 3,
        DmaState::ReadingSourceData => 4,
        DmaState::WritingDestinationData => 5,
        DmaState::WaitingRequestClear => 6,
        DmaState::WritingControllerData => 7,
        DmaState::Stalled => 8,
        DmaState::Done => 9,
    }
}

impl Default for TransferMode {
    fn default() -> (mode: Self)
        ensures
            mode == TransferMode::Stop,
    {
        Self::Stop
    }
}

impl Default for AddressIncrement {
    fn default() -> (increment: Self)
        ensures
            increment == AddressIncrement::Increment8bit,
    {
        Self::Increment8bit
    }
}

impl Default for DataSize {
    fn default() -> (size: Self)
        ensures
            size == DataSize::Data8bit,
    {
        Self::Data8bit
    }
}

impl Default for Arbitration {
    fn default() -> (size: Self)
        ensures
            size == Arbitration::Transfer1,
    {
        Self::Transfer1
    }
}

impl Default for ChannelControlWord {
    fn default() -> (word: Self)
        ensures
            word.0 == 0,
    {
        ChannelControlWord(0)
    }
}

impl TransferMode {
    /// The number that stands for the mode in the control word.
    pub fn bits(self) -> (bits: u32)
        ensures
            bits == spec_transfer_mode_bits(self),
            bits <= 7,
    {
        match self {
            TransferMode::Stop => 0,
            TransferMode::Basic => 1,
            TransferMode::AutoRequest => 2,
            TransferMode::PingPong => 3,
            TransferMode::MemoryScatterGather => 4,
            TransferMode::AlternateMemoryScatterGather => 5,
            TransferMode::PeripheralScatterGather => 6,
            TransferMode::AlternatePeripheralScatterGather => 7,
        }
    }

    /// The mode that `val` stands for.
    pub fn from(val: u32) -> (mode: Self)
        requires
            val <= 7,
        ensures
            spec_transfer_mode_bits(mode) == val,
    {
        if val == 0 {
            Self::Stop
        } else if val == 1 {
            Self::Basic
        } else if val == 2 {
            Self::AutoRequest
        } else if val == 3 {
            Self::PingPong
        } else if val == 4 {
            Self::MemoryScatterGather
        } else if val == 5 {
            Self::AlternateMemoryScatterGather
        } else if val == 6 {
            Self::PeripheralScatterGather
        } else {
            Self::AlternatePeripheralScatterGather
        }
    }
}

impl AddressIncrement {
    /// The number that stands for the increment in the control word.
    pub fn bits(self) -> (bits: u32)
        ensures
            bits == spec_increment_bits(self),
            bits <= 3,
    {
        match self {
            AddressIncrement::Increment8bit => 0,
            AddressIncrement::Increment16bit => 1,
            AddressIncrement::Increment32bit => 2,
            AddressIncrement::NoIncrement => 3,
        }
    }
}

impl DataSize {
    /// The number that stands for the size in the control word.
    pub fn bits(self) -> (bits: u32)
        ensures
            bits == spec_size_bits(self),
            bits <= 2,
    {
        match self {
            DataSize::Data8bit => 0,
            DataSize::Data16bit => 1,
            DataSize::Data32bit => 2,
        }
    }
}

impl Arbitration {
    /// The number that stands for the arbitration size in the control word.
    pub fn bits(self) -> (bits: u32)
        ensures
            bits == spec_arbitration_bits(self),
            bits <= 10,
    {
        match self {
            Arbitration::Transfer1 => 0,
            Arbitration::Transfer2 => 1,
            Arbitration::Tranfser4 => 2,
            Arbitration::Transfer8 => 3,
            Arbitration::Transfer16 => 4,
            Arbitration::Transfer32 => 5,
            Arbitration::Transfer64 => 6,
            Arbitration::Transfer128 => 7,
            Arbitration::Transfer256 => 8,
            Arbitration::Transfer512 => 9,
            Arbitration::NoArbitration => 10,
        }
    }
}

impl DmaState {
    /// The state that `val`, the state field of the status register,
    /// stands for.
    pub fn from(val: u8) -> (state: Self)
        requires
            val <= 9,
        ensures
            spec_state_bits(state) == val,
    {
        if val == 0 {
            Self::Idle
        } else if val == 1 {
            Self::ReadingControllerData
        } else if val == 2 {
            Self::ReadingSourceEndPointer
        } else if val == 3 {
            Self::ReadingDestinationEndPointer
        } else if val == 4 {
            Self::ReadingSourceData
        } else if val == 5 {
            Self::WritingDestinationData
        } else if val == 6 {
            Self::WaitingRequestClear
        } else if val == 7 {
            Self::WritingControllerData
        } else if val == 8 {
            Self::Stalled
        } else {
            Self::Done
        }
    }
}

impl ChannelControlWord {
    /// The word as the configuration table takes it.
    pub fn bits(self) -> (bits: u32)
        ensures
            bits == self.0,
    {
        self.0
    }

    pub fn set_transfer_mode(&mut self, mode: TransferMode)
        ensures
            final(self).0 == spec_with_field(old(self).0, 0, 0b111, spec_transfer_mode_bits(mode)),
    {
        self.0 = (self.0 & !(0b111u32 << 0u32)) | ((mode.bits() & 0b111) << 0u32);
    }

    pub fn use_burst(&mut self, use_burst: bool)
        ensures
            final(self).0 == spec_with_field(
                old(self).0,
                3,
                0b1,
                if use_burst {
                    1u32
                } else {
                    0u32
                },
            ),
    {
        let bit: u32 = if use_burst {
            1
        } else {
            0
        };
        self.0 = (self.0 & !(0b1u32 << 3u32)) | ((bit & 0b1) << 3u32);
    }

    pub fn set_transfer_size(&mut self, size: u8)
        ensures
            final(self).0 == spec_with_field(old(self).0, 4, 0b11_1111_1111, size as u32),
    {
        self.0 = (self.0 & !(0b11_1111_1111u32 << 4u32)) | ((size as u32 & 0b11_1111_1111) << 4u32);
    }

    pub fn set_arbitration_size(&mut self, size: Arbitration)
        ensures
            final(self).0 == spec_with_field(old(self).0, 14, 0b1111, spec_arbitration_bits(size)),
    {
        self.0 = (self.0 & !(0b1111u32 << 14u32)) | ((size.bits() & 0b1111) << 14u32);
    }

    pub fn set_source_size(&mut self, size: DataSize)
        ensures
            final(self).0 == spec_with_field(old(self).0, 24, 0b11, spec_size_bits(size)),
    {
        self.0 = (self.0 & !(0b11u32 << 24u32)) | ((size.bits() & 0b11) << 24u32);
    }

    pub fn set_source_increment(&mut self, increment: AddressIncrement)
        ensures
            final(self).0 == spec_with_field(old(self).0, 26, 0b11, spec_increment_bits(increment)),
    {
        self.0 = (self.0 & !(0b11u32 << 26u32)) | ((increment.bits() & 0b11) << 26u32);
    }

    pub fn set_destination_size(&mut self, size: DataSize)
        ensures
            final(self).0 == spec_with_field(old(self).0, 28, 0b11, spec_size_bits(size)),
    {
        self.0 = (self.0 & !(0b11u32 << 28u32)) | ((size.bits() & 0b11) << 28u32);
    }

    pub fn set_destination_increment(&mut self, increment: AddressIncrement)
        ensures
            final(self).0 == spec_with_field(old(self).0, 30, 0b11, spec_increment_bits(increment)),
    {
        self.0 = (self.0 & !(0b11u32 << 30u32)) | ((increment.bits() & 0b11) << 30u32);
    }
}

/// A field that was set reads back as it was set, and the bits outside the
/// field stay as they were, for every field of the control word: a field
/// of the bits `mask` at bit `shift` that takes a value within `mask`.
pub proof fn lemma_with_field(word: u32, shift: u32, mask: u32, value: u32)
    requires
        (shift == 0 && mask == 0b111) || (shift == 3 && mask == 0b1) || (shift == 4 && mask
            == 0b11_1111_1111) || (shift == 14 && mask == 0b1111) || ((shift == 24 || shift == 26
            || shift == 28 || shift == 30) && mask == 0b11),
    ensures
        spec_field(spec_with_field(word, shift, mask, value), shift, mask) == value & mask,
        spec_with_field(word, shift, mask, value) & !(mask << shift) == word & !(mask << shift),
{
    assert(spec_field(spec_with_field(word, shift, mask, value), shift, mask) == value & mask
        && spec_with_field(word, shift, mask, value) & !(mask << shift) == word & !(mask << shift))
        by (bit_vector)
        requires
            (shift == 0 && mask == 0b111) || (shift == 3 && mask == 0b1) || (shift == 4 && mask
                == 0b11_1111_1111) || (shift == 14 && mask == 0b1111) || ((shift == 24 || shift
                == 26 || shift == 28 || shift == 30) && mask == 0b11),
    ;
}

impl View for Channel {
    type V = ChannelView;

    closed spec fn view(&self) -> ChannelView {
        ChannelView {
            control_word: self.control_word.0,
            channel: self.channel,
            alternate: self.alternate,
        }
    }
}

impl Channel {
    /// The number of the channel is one of the controller.
    pub open spec fn wf(&self) -> bool {
        self@.channel < CHANNELS
    }

    /// The channel `channel`, whose control word in the configuration table
    /// is `control_word`.
    pub fn new(control_word: u32, channel: usize, alternate: bool) -> (c: Self)
        requires
            channel < CHANNELS,
        ensures
            c.wf(),
            c@ == (ChannelView { control_word, channel, alternate }),
    {
        Channel { control_word: ChannelControlWord(control_word), channel, alternate }
    }

    /// The control word of the channel, as the configuration table takes
    /// it.
    pub fn control_word(&self) -> (word: u32)
        ensures
            word == self@.control_word,
    {
        self.control_word.bits()
    }

    /// The index of the control structure of the channel in the
    /// configuration table: the alternate structures come after the 32
    /// primary ones.
    pub fn config_index(&self) -> (index: usize)
        requires
            self.wf(),
        ensures
            index == self@.channel + if self@.alternate {
                32int
            } else {
                0int
            },
            index < 2 * CHANNELS,
    {
        if self.alternate {
            32 + self.channel
        } else {
            self.channel
        }
    }

    /// The bit of the channel in the registers of the controller that hold
    /// one bit for each channel.
    pub fn mask(&self) -> (mask: u32)
        requires
            self.wf(),
        ensures
            mask == 1u32 << (self@.channel as u32),
    {
        1u32 << (self.channel as u32)
    }

    /// Get the current mode of the channel
    pub fn get_mode(&self) -> (mode: TransferMode)
        ensures
            spec_transfer_mode_bits(mode) == self@.control_word & 0x07,
    {
        let word = self.control_word.0;
        assert(word & 0x07 <= 7) by (bit_vector);
        TransferMode::from(word & 0x07)
    }

    /// Chooses between the primary and the alternate control structure of
    /// the channel.
    pub fn use_alternate(&mut self, alternate: bool)
        ensures
            final(self)@ == (ChannelView { alternate, ..old(self)@ }),
    {
        self.alternate = alternate;
    }

    /// The index of the channel map register that holds the assignment of
    /// the channel: each register holds eight channels.
    pub fn assignment_register(&self) -> (index: usize)
        requires
            self.wf(),
        ensures
            index == self@.channel / 8,
            index < 4,
    {
        self.channel / 8
    }

    /// The value of the channel map register of the channel, which holds
    /// `current`, once the channel is assigned to `assignement`: the four
    /// bits of the channel are replaced and the others stay.
    pub fn set_assignment(&self, current: u32, assignement: u8) -> (value: u32)
        requires
            self.wf(),
        ensures
            value == (current & !(0b1111u32 << (((self@.channel * 4) % 32) as u32))) | ((
            assignement as u32) << (((self@.channel * 4) % 32) as u32)),
    {
        let shift: u32 = ((self.channel * 4) % 32) as u32;
        (current & !(0b1111u32 << shift)) | ((assignement as u32) << shift)
    }

    /// Set the destination address increment for this channel
    pub fn set_destination_increment(&mut self, increment: AddressIncrement)
        ensures
            final(self)@ == (ChannelView {
                control_word: spec_with_field(
                    old(self)@.control_word,
                    30,
                    0b11,
                    spec_increment_bits(increment),
                ),
                ..old(self)@
            }),
    {
        self.control_word.set_destination_increment(increment);
    }

    /// Set the destination data size for this channel
    pub fn set_destination_size(&mut self, size: DataSize)
        ensures
            final(self)@ == (ChannelView {
                control_word: spec_with_field(
                    old(self)@.control_word,
                    28,
                    0b11,
                    spec_size_bits(size),
                ),
                ..old(self)@
            }),
    {
        self.control_word.set_destination_size(size);
    }

    /// Set the source address increment for this channel
    pub fn set_source_increment(&mut self, increment: AddressIncrement)
        ensures
            final(self)@ == (ChannelView {
                control_word: spec_with_field(
                    old(self)@.control_word,
                    26,
                    0b11,
                    spec_increment_bits(increment),
                ),
                ..old(self)@
            }),
    {
        self.control_word.set_source_increment(increment);
    }

    /// Set the source data size for this channel
    pub fn set_source_size(&mut self, size: DataSize)
        ensures
            final(self)@ == (ChannelView {
                control_word: spec_with_field(
                    old(self)@.control_word,
                    24,
                    0b11,
                    spec_size_bits(size),
                ),
                ..old(self)@
            }),
    {
        self.control_word.set_source_size(size);
    }

    /// Set the arbitration size for this channel
    pub fn set_arbitration_size(&mut self, size: Arbitration)
        ensures
            final(self)@ == (ChannelView {
                control_word: spec_with_field(
                    old(self)@.control_word,
                    14,
                    0b1111,
                    spec_arbitration_bits(size),
                ),
                ..old(self)@
            }),
    {
        self.control_word.set_arbitration_size(size);
    }

    /// Set the transfer size (the amount of transfers, not in bytes/bits) for this channel
    pub fn set_transfer_size(&mut self, size: u8)
        ensures
            final(self)@ == (ChannelView {
                control_word: spec_with_field(
                    old(self)@.control_word,
                    4,
                    0b11_1111_1111,
                    size as u32,
                ),
                ..old(self)@
            }),
    {
        self.control_word.set_transfer_size(size);
    }

    /// Use burst mode for this channel
    pub fn use_burst(&mut self, use_burst: bool)
        ensures
            final(self)@ == (ChannelView {
                control_word: spec_with_field(
                    old(self)@.control_word,
                    3,
                    0b1,
                    if use_burst {
                        1u32
                    } else {
                        0u32
                    },
                ),
                ..old(self)@
            }),
    {
        self.control_word.use_burst(use_burst);
    }

    /// Set the transfer mode for this channel
    pub fn set_transfer_mode(&mut self, mode: TransferMode)
        ensures
            final(self)@ == (ChannelView {
                control_word: spec_with_field(
                    old(self)@.control_word,
                    0,
                    0b111,
                    spec_transfer_mode_bits(mode),
                ),
                ..old(self)@
            }),
            spec_transfer_mode_bits(mode) == final(self)@.control_word & 0x07,
    {
        self.control_word.set_transfer_mode(mode);
        proof {
            let w = old(self)@.control_word;
            let v = spec_transfer_mode_bits(mode);
            assert(((w & !(0b111u32 << 0u32)) | ((v & 0b111u32) << 0u32)) & 0x07u32 == v) by (bit_vector)
                requires
                    v <= 7,
            ;
        }
    }
}

} // verus!
