//! Radio module HAL: the events of the radio, its interrupt registers, the
//! frames in its FIFO and the channels of the 2.4 GHz band.

use vstd::prelude::*;

verus! {

#[derive(Debug, Clone, Copy, PartialEq, Eq, Structural)]
pub enum ErrorEvent {
    NoLock,
    RxAbo,
    RxOverf,
    RxUnderf,
    TxOverf,
    TxUnderf,
    StrobeErr,
    All,
}

#[derive(Debug, Clone, Copy, PartialEq, Eq, Structural)]
pub enum Event {
    TxAckDone,
    TxDone,
    RfIdle,
    CspManInt,
    CspStop,
    CspWait,
    Sfd,
    Fifop,
    SrcMatchDone,
    SrcMatchFound,
    FrameAccepted,
    RxPktDone,
    RxMaskZero,
    All,
}

#[derive(Debug, Clone, Copy, PartialEq, Eq, Structural)]
pub enum RadioError {
    PayloadTooBig,
    ChannelNotClear,
    UnableToStartTx,
    Collision,
    FailedTransmission,
    IncorrectFrame,
}

/// Number of bytes of the checksum of a packet.
pub const CHECKSUM_LEN: usize = 2;

/// Largest number of bytes of a packet.
pub const MAX_PACKET_LEN: usize = 127;

/// Largest number of bytes of the payload of a packet.
pub const MAX_PAYLOAD_LEN: usize = 125;

/// Radio configuration
#[derive(Debug, Copy, Clone)]
pub struct RadioConfig {
    pub channel: Channel,
    pub src_pan_id: u32,
    pub dst_pan_id: u32,
    pub short_addr: u16,
    pub ext_addr: [u8; 8],
}

#[derive(Debug, Clone, Copy, PartialEq, Eq, Structural)]
pub enum RxMode {
    Normal,
    InfiniteRx,
    InfiniteReception,
    SymbolSearchDisabled,
}

/// A channel of the 2.4 GHz band, by its number.
#[derive(Debug, Clone, Copy, PartialEq, Eq, Structural)]
pub enum Channel {
    Channel11,
    Channel12,
    Channel13,
    Channel14,
    Channel15,
    Channel16,
    Channel17,
    Channel18,
    Channel19,
    Channel20,
    Channel21,
    Channel22,
    Channel23,
    Channel24,
    Channel25,
    Channel26,
}

/// Op Codes for the Command Strobe/CSMA-CA Processor
#[derive(Debug, Clone, Copy, PartialEq, Eq, Structural)]
pub enum CspOpCode {
    /// Decrement Z register
    DecZ,
    /// Decrement Y register
    DecY,
    /// Decrement X register
    DecX,
    /// Increment Z register
    IncZ,
    /// Increment Y register
    IncY,
    /// Increment X register
    IncX,
    /// Increment Y not greater than M
    IncMaxY,
    /// Load random value into X register
    RandXY,
    /// Interrupt
    Int,
    /// Wait for X MAC timer overflows
    WaitX,
    /// Set the compare value of the MAC timer to the current timer value
    SetCmp1,
    /// Wait for W MAC timer overflows
    WaitW,
    /// Wait until MAC timer event 1
    WEvent1,
    /// Wait until MAC timer event 2
    WEvent2,
    /// Set loop label
    Label,
    /// Conditional repeat
    RptC,
    /// Conditional skip instruction
    SkipSC,
    /// Stop program execution
    Stop,
    /// No operation
    SNop,
    /// Enable and calibrate frequency synthesizer for RX
    SRXOn,
    /// Enable TX after calibration
    STXOn,
    /// Enable calibration and TX if CCA indicates a clear channel
    STXOnCca,
    /// Sample the current CCA value to SAMPLED_CCA
    SSampleCca,
    /// Disable RX or TX and frequency synthesizer
    SRFOff,
    /// Flush RX FIFO buffer and reset demodulator
    SFlushRX,
    /// Flush TX FIFO buffer
    SFlushTX,
    /// Send acknowledge frame with pending field cleared
    SAck,
    /// Send acknowledge frame with the pending field set
    SAckPend,
    /// Abort sending of acknowledge frame
    SNack,
    /// Set bit in RXENABLE register
    SRXMaskBitSet,
    /// Clear bit in RXENABLE register
    SRXMaskBitClr,
    /// Immediate stop program execution
    IsStop,
    /// Immediate start program executation
    IsStart,
    /// Immediate enable and calibrate frequency synthesizer for RX
    IsRXon,
    /// Immediate set bit in RXENABLE
    IsRXMaskBitSet,
    /// Immediate clear bit in RXENABLE
    IsRXMaskBitClr,
    /// Immediate enable TX after callibration
    IsTXOn,
    /// Immediate enable calibration and TX if CCA indicates a clear channel
    IsTXOnCca,
    /// Immediate sample the current CCA value to SAMPLED_CCA
    IsSampleCca,
    /// Immediate disable RX or TX and the frequency synthesizer
    IsRFOff,
    /// Immediate flush RX FIFO buffer and reset demodulator
    IsFlushRx,
    /// Immediate flush TX FIFO
    IsFlushTX,
    /// Immediate send acknowledge frame with the pending field cleared
    IsAck,
    /// Immediate send acknowledge frame with the pending field set
    IsAckPend,
    /// Immediate abort sending of acknowledge frame
    IsNack,
    /// Immediate clear CSP program memory, reset program counter
    IsClear,
}

/// The byte that stands for an op code in the instruction register.
pub open spec fn spec_op_code(op_code: CspOpCode) -> u8 {
    match op_code {
        CspOpCode::DecZ => 0xC5,
        CspOpCode::DecY => 0xC4,
        CspOpCode::DecX => 0xC3,
        CspOpCode::IncZ => 0xC2,
        CspOpCode::IncY => 0xC1,
        CspOpCode::IncX => 0xC0,
        CspOpCode::IncMaxY => 0xC8,
        CspOpCode::RandXY => 0xBD,
        CspOpCode::Int => 0xBA,
        CspOpCode::WaitX => 0xBC,
        CspOpCode::SetCmp1 => 0xBE,
        CspOpCode::WaitW => 0x80,
        CspOpCode::WEvent1 => 0xB8,
        CspOpCode::WEvent2 => 0xB9,
        CspOpCode::Label => 0xBB,
        CspOpCode::RptC => 0xA0,
        CspOpCode::SkipSC => 0x00,
        CspOpCode::Stop => 0xD2,
        CspOpCode::SNop => 0xD0,
        CspOpCode::SRXOn => 0xD3,
        CspOpCode::STXOn => 0xD9,
        CspOpCode::STXOnCca => 0xDA,
        CspOpCode::SSampleCca => 0xDB,
        CspOpCode::SRFOff => 0xDF,
        CspOpCode::SFlushRX => 0xDD,
        CspOpCode::SFlushTX => 0xDE,
        CspOpCode::SAck => 0xD6,
        CspOpCode::SAckPend => 0xD7,
        CspOpCode::SNack => 0xD8,
        CspOpCode::SRXMaskBitSet => 0xD4,
        CspOpCode::SRXMaskBitClr => 0xD5,
        CspOpCode::IsStop => 0xE2,
        CspOpCode::IsStart => 0xE1,
        CspOpCode::IsRXon => 0xE3,
        CspOpCode::IsRXMaskBitSet => 0xE4,
        CspOpCode::IsRXMaskBitClr => 0xE5,
        CspOpCode::IsTXOn => 0xE9,
        CspOpCode::IsTXOnCca => 0xEA,
        CspOpCode::IsSampleCca => 0xEB,
        CspOpCode::IsRFOff => 0xEF,
        CspOpCode::IsFlushRx => 0xED,
        CspOpCode::IsFlushTX => 0xEE,
        CspOpCode::IsAck => 0xE6,
        CspOpCode::IsAckPend => 0xE7,
        CspOpCode::IsNack => 0xE8,
        CspOpCode::IsClear => 0xFF,
    }
}

impl CspOpCode {
    /// The byte that stands for the op code in the instruction register.
    pub fn code(&self) -> (code: u8)
        ensures
            code == spec_op_code(*self),
    {
        match self {
            CspOpCode::DecZ => 0xC5,
            CspOpCode::DecY => 0xC4,
            CspOpCode::DecX => 0xC3,
            CspOpCode::IncZ => 0xC2,
            CspOpCode::IncY => 0xC1,
            CspOpCode::IncX => 0xC0,
            CspOpCode::IncMaxY => 0xC8,
            CspOpCode::RandXY => 0xBD,
            CspOpCode::Int => 0xBA,
            CspOpCode::WaitX => 0xBC,
            CspOpCode::SetCmp1 => 0xBE,
            CspOpCode::WaitW => 0x80,
            CspOpCode::WEvent1 => 0xB8,
            CspOpCode::WEvent2 => 0xB9,
            CspOpCode::Label => 0xBB,
            CspOpCode::RptC => 0xA0,
            CspOpCode::SkipSC => 0x00,
            CspOpCode::Stop => 0xD2,
            CspOpCode::SNop => 0xD0,
            CspOpCode::SRXOn => 0xD3,
            CspOpCode::STXOn => 0xD9,
            CspOpCode::STXOnCca => 0xDA,
            CspOpCode::SSampleCca => 0xDB,
            CspOpCode::SRFOff => 0xDF,
            CspOpCode::SFlushRX => 0xDD,
            CspOpCode::SFlushTX => 0xDE,
            CspOpCode::SAck => 0xD6,
            CspOpCode::SAckPend => 0xD7,
            CspOpCode::SNack => 0xD8,
            CspOpCode::SRXMaskBitSet => 0xD4,
            CspOpCode::SRXMaskBitClr => 0xD5,
            CspOpCode::IsStop => 0xE2,
            CspOpCode::IsStart => 0xE1,
            CspOpCode::IsRXon => 0xE3,
            CspOpCode::IsRXMaskBitSet => 0xE4,
            CspOpCode::IsRXMaskBitClr => 0xE5,
            CspOpCode::IsTXOn => 0xE9,
            CspOpCode::IsTXOnCca => 0xEA,
            CspOpCode::IsSampleCca => 0xEB,
            CspOpCode::IsRFOff => 0xEF,
            CspOpCode::IsFlushRx => 0xED,
            CspOpCode::IsFlushTX => 0xEE,
            CspOpCode::IsAck => 0xE6,
            CspOpCode::IsAckPend => 0xE7,
            CspOpCode::IsNack => 0xE8,
            CspOpCode::IsClear => 0xFF,
        }
    }
}

/// The register of the two interrupt registers that holds an event.
#[derive(Debug, Clone, Copy, PartialEq, Eq, Structural)]
pub enum IrqBank {
    /// The register of the events of reception.
    Bank0,
    /// The register of the events of transmission and of the command
    /// processor.
    Bank1,
    /// Both registers.
    Both,
}

/// The register that holds an event; both for `All`.
pub open spec fn spec_event_bank(event: Event) -> IrqBank {
    match event {
        Event::Sfd
        | Event::Fifop
        | Event::SrcMatchDone
        | Event::SrcMatchFound
        | Event::FrameAccepted
        | Event::RxPktDone
        | Event::RxMaskZero => IrqBank::Bank0,
        Event::TxAckDone
        | Event::TxDone
        | Event::RfIdle
        | Event::CspManInt
        | Event::CspStop
        | Event::CspWait => IrqBank::Bank1,
        Event::All => IrqBank::Both,
    }
}

/// The values of the two interrupt mask registers, which hold `masks`, once
/// `event` is listened to. `All` replaces both.
pub open spec fn spec_listen(masks: (u32, u32), event: Event) -> (u32, u32) {
    match spec_event_bank(event) {
        IrqBank::Bank0 => (masks.0 | spec_event_mask(event), masks.1),
        IrqBank::Bank1 => (masks.0, masks.1 | spec_event_mask(event)),
        IrqBank::Both => (spec_event_mask(event), spec_event_mask(event)),
    }
}

/// The values of two interrupt registers, which hold `bits`, once the bit
/// of `event` is cleared. `All` clears both.
pub open spec fn spec_without(bits: (u32, u32), event: Event) -> (u32, u32) {
    match spec_event_bank(event) {
        IrqBank::Bank0 => (bits.0 & !spec_event_mask(event), bits.1),
        IrqBank::Bank1 => (bits.0, bits.1 & !spec_event_mask(event)),
        IrqBank::Both => (0, 0),
    }
}

/// Whether the two interrupt flag registers, which hold `flags`, show
/// `event`; any event for `All`.
pub open spec fn spec_pending(flags: (u32, u32), event: Event) -> bool {
    match spec_event_bank(event) {
        IrqBank::Bank0 => flags.0 & spec_event_mask(event) != 0,
        IrqBank::Bank1 => flags.1 & spec_event_mask(event) != 0,
        IrqBank::Both => flags.0 | flags.1 != 0,
    }
}

/// State of a radio that is on.
pub struct RadioOn {}

/// State of a radio that is off.
pub struct RadioOff {}

/// The bit of an error event in the registers of the error interrupts;
/// every bit for `All`.
pub open spec fn spec_error_event_mask(event: ErrorEvent) -> u32 {
    match event {
        ErrorEvent::NoLock => 0x01,
        ErrorEvent::RxAbo => 0x02,
        ErrorEvent::RxOverf => 0x04,
        ErrorEvent::RxUnderf => 0x08,
        ErrorEvent::TxOverf => 0x10,
        ErrorEvent::TxUnderf => 0x20,
        ErrorEvent::StrobeErr => 0x40,
        ErrorEvent::All => 0xffff_ffff,
    }
}

/// The bit of an event in its register of the interrupts; every bit for
/// `All`. The events of the first and of the second register share the
/// bits.
pub open spec fn spec_event_mask(event: Event) -> u32 {
    match event {
        Event::TxAckDone => 0x01,
        Event::TxDone => 0x02,
        Event::RfIdle => 0x04,
        Event::CspManInt => 0x08,
        Event::CspStop => 0x10,
        Event::CspWait => 0x20,
        Event::Sfd => 0x02,
        Event::Fifop => 0x04,
        Event::SrcMatchDone => 0x08,
        Event::SrcMatchFound => 0x10,
        Event::FrameAccepted => 0x20,
        Event::RxPktDone => 0x40,
        Event::RxMaskZero => 0x80,
        Event::All => 0xffff_ffff,
    }
}

/// The number of a channel, from 11 to 26.
pub open spec fn spec_channel_number(channel: Channel) -> u32 {
    match channel {
        Channel::Channel11 => 11,
        Channel::Channel12 => 12,
        Channel::Channel13 => 13,
        Channel::Channel14 => 14,
        Channel::Channel15 => 15,
        Channel::Channel16 => 16,
        Channel::Channel17 => 17,
        Channel::Channel18 => 18,
        Channel::Channel19 => 19,
        Channel::Channel20 => 20,
        Channel::Channel21 => 21,
        Channel::Channel22 => 22,
        Channel::Channel23 => 23,
        Channel::Channel24 => 24,
        Channel::Channel25 => 25,
        Channel::Channel26 => 26,
    }
}

/// The number that stands for a receive mode in the frame control
/// register.
pub open spec fn spec_rx_mode_bits(mode: RxMode) -> u8 {
    match mode {
        RxMode::Normal => 0b00,
        RxMode::InfiniteRx => 0b01,
        RxMode::InfiniteReception => 0b10,
        RxMode::SymbolSearchDisabled => 0b11,
    }
}

impl ErrorEvent {
    pub fn mask(&self) -> (mask: u32)
        ensures
            mask == spec_error_event_mask(*self),
    {
        match self {
            ErrorEvent::NoLock => 0x01,
            ErrorEvent::RxAbo => 0x02,
            ErrorEvent::RxOverf => 0x04,
            ErrorEvent::RxUnderf => 0x08,
            ErrorEvent::TxOverf => 0x10,
            ErrorEvent::TxUnderf => 0x20,
            ErrorEvent::StrobeErr => 0x40,
            ErrorEvent::All => 0xffff_ffff,
        }
    }
}

impl Event {
    pub fn mask(&self) -> (mask: u32)
        ensures
            mask == spec_event_mask(*self),
    {
        match self {
            Event::TxAckDone => 0x01,
            Event::TxDone => 0x02,
            Event::RfIdle => 0x04,
            Event::CspManInt => 0x08,
            Event::CspStop => 0x10,
            Event::CspWait => 0x20,
            Event::Sfd => 0x02,
            Event::Fifop => 0x04,
            Event::SrcMatchDone => 0x08,
            Event::SrcMatchFound => 0x10,
            Event::FrameAccepted => 0x20,
            Event::RxPktDone => 0x40,
            Event::RxMaskZero => 0x80,
            Event::All => 0xffff_ffff,
        }
    }
}

impl Event {
    /// The register of the two interrupt registers that holds the event.
    pub fn bank(&self) -> (bank: IrqBank)
        ensures
            bank == spec_event_bank(*self),
    {
        match self {
            Event::Sfd
            | Event::Fifop
            | Event::SrcMatchDone
            | Event::SrcMatchFound
            | Event::FrameAccepted
            | Event::RxPktDone
            | Event::RxMaskZero => IrqBank::Bank0,
            Event::TxAckDone
            | Event::TxDone
            | Event::RfIdle
            | Event::CspManInt
            | Event::CspStop
            | Event::CspWait => IrqBank::Bank1,
            Event::All => IrqBank::Both,
        }
    }
}

/// Listen to an interrupt: the values of the two interrupt mask registers,
/// which hold `masks`, with `event` let through.
pub fn listen(masks: (u32, u32), event: Event) -> (r: (u32, u32))
    ensures
        r == spec_listen(masks, event),
{
    match event.bank() {
        IrqBank::Bank0 => (masks.0 | event.mask(), masks.1),
        IrqBank::Bank1 => (masks.0, masks.1 | event.mask()),
        IrqBank::Both => (event.mask(), event.mask()),
    }
}

/// Unlisten to an interrupt: the values of the two interrupt mask
/// registers, which hold `masks`, with `event` held back.
pub fn unlisten(masks: (u32, u32), event: Event) -> (r: (u32, u32))
    ensures
        r == spec_without(masks, event),
{
    match event.bank() {
        IrqBank::Bank0 => (masks.0 & !event.mask(), masks.1),
        IrqBank::Bank1 => (masks.0, masks.1 & !event.mask()),
        IrqBank::Both => (0, 0),
    }
}

/// Clear an interrupt: the values of the two interrupt flag registers,
/// which hold `flags`, without the flag of `event`.
pub fn clear_event(flags: (u32, u32), event: Event) -> (r: (u32, u32))
    ensures
        r == spec_without(flags, event),
{
    unlisten(flags, event)
}

/// Check if an interrupt is pending, from the values of the two interrupt
/// flag registers.
pub fn is_interrupt_pending(flags: (u32, u32), event: Event) -> (pending: bool)
    ensures
        pending == spec_pending(flags, event),
{
    match event.bank() {
        IrqBank::Bank0 => flags.0 & event.mask() != 0,
        IrqBank::Bank1 => flags.1 & event.mask() != 0,
        IrqBank::Both => flags.0 | flags.1 != 0,
    }
}

/// Check for a specific error interrupt, from the value of the error flag
/// register; for any error with `All`.
pub fn is_error_interrupt(flags: u32, event: ErrorEvent) -> (pending: bool)
    ensures
        pending == (flags & spec_error_event_mask(event) != 0),
{
    let mask = event.mask();
    proof {
        assert(flags & 0xffff_ffffu32 == flags) by (bit_vector);
    }
    match event {
        ErrorEvent::All => flags != 0,
        _ => flags & mask != 0,
    }
}

/// The length byte that leads a frame with a payload of `payload_len`
/// bytes in the FIFO: the length of the payload and of the checksum. A
/// payload of more than 125 bytes is too big for a frame.
pub fn frame_length(payload_len: usize) -> (r: Result<u32, RadioError>)
    ensures
        r == if payload_len > MAX_PAYLOAD_LEN {
            Err::<u32, RadioError>(RadioError::PayloadTooBig)
        } else {
            Ok::<u32, RadioError>((payload_len + CHECKSUM_LEN) as u32)
        },
{
    if payload_len > MAX_PAYLOAD_LEN {
        return Err(RadioError::PayloadTooBig);
    }
    Ok((payload_len + CHECKSUM_LEN) as u32)
}

/// The length of the payload of a received frame whose length byte is
/// `len`, for a buffer of `capacity` bytes; or nothing where the frame is
/// to be flushed: one of more than 127 bytes, of 4 bytes or less, or with
/// a payload that the buffer has no room for.
pub fn received_length(len: u32, capacity: usize) -> (payload_len: Option<u32>)
    ensures
        payload_len == if 4 < len <= MAX_PACKET_LEN && len - CHECKSUM_LEN <= capacity {
            Some((len - CHECKSUM_LEN) as u32)
        } else {
            None::<u32>
        },
{
    if len > 127 {
        // If bigger than max packet len: bad sync error.
        return None;
    }
    if len <= 4 {
        // If smaller than min packet len.
        return None;
    }
    if (len - 2) as usize > capacity {
        // Message too long, once the checksum is removed.
        return None;
    }
    Some(len - 2)
}

/// Whether a transmission may start: the channel is clear and no packet is
/// being received. Otherwise the transmission would collide.
pub fn may_transmit(channel_clear: bool, receiving_packet: bool) -> (r: Result<(), RadioError>)
    ensures
        r == if !channel_clear || receiving_packet {
            Err::<(), RadioError>(RadioError::Collision)
        } else {
            Ok::<(), RadioError>(())
        },
{
    if !channel_clear || receiving_packet {
        return Err(RadioError::Collision);
    }
    Ok(())
}

/// Whether a transmission has started, from the flag that tells that the
/// transmitter is active.
pub fn transmit_started(tx_active: bool) -> (r: Result<(), RadioError>)
    ensures
        r == if tx_active {
            Ok::<(), RadioError>(())
        } else {
            Err::<(), RadioError>(RadioError::UnableToStartTx)
        },
{
    if !tx_active {
        return Err(RadioError::UnableToStartTx);
    }
    Ok(())
}

/// Number by which the RSSI register lies above the strength of the
/// signal in dB.
pub const RSSI_OFFSET: i32 = 73;

/// The value of the RSSI register that stands for no valid reading.
pub const RSSI_INVALID: u8 = 0x80;

/// Returns the RSSI value in dB, from a valid reading of the RSSI
/// register.
pub fn get_rssi(rssi_val: u8) -> (rssi: i32)
    ensures
        rssi == rssi_val - RSSI_OFFSET,
{
    rssi_val as i32 - RSSI_OFFSET
}

/// Set the PAN ID to use by the radio: the values of the two registers of
/// the PAN ID, the low byte first.
pub fn set_pan_id(id: u32) -> (r: (u32, u32))
    ensures
        r == (id & 0xFF, id >> 8),
{
    (id & 0xFF, id >> 8)
}

/// The PAN ID that the two registers of the PAN ID hold: the low byte of
/// `high` above the low byte of `low`.
pub open spec fn spec_address_of(low: u32, high: u32) -> u16 {
    ((((high << 8) & 0xff00) | (low & 0xff)) & 0xffff) as u16
}

/// Get the PAN ID used by the radio, from the values of its two
/// registers.
pub fn get_pan_id(low: u32, high: u32) -> (id: u16)
    ensures
        id == spec_address_of(low, high),
{
    let id: u32 = ((high << 8) & 0xff00) | (low & 0xff);
    assert(id & 0xffff <= 0xffff) by (bit_vector);
    (id & 0xffff) as u16
}

/// Get the short address used by the radio, from the values of its two
/// registers.
pub fn get_short_address(low: u32, high: u32) -> (addr: u16)
    ensures
        addr == spec_address_of(low, high),
{
    get_pan_id(low, high)
}

/// The registers give back what they were set to: the low 16 bits of a PAN
/// ID, and a short address as it is.
pub proof fn lemma_address_round_trip(id: u32, addr: u16)
    ensures
        spec_address_of(id & 0xFF, id >> 8) == (id & 0xffff) as u16,
        spec_address_of((addr as u32) & 0xFF, (addr as u32) >> 8) == addr,
{
    assert(((((id >> 8) << 8) & 0xff00) | ((id & 0xff) & 0xff)) & 0xffff == id & 0xffff)
        by (bit_vector);
    let a = addr as u32;
    assert(a <= 0xffff ==> ((((a >> 8) << 8) & 0xff00) | ((a & 0xff) & 0xff)) & 0xffff == a)
        by (bit_vector);
}

/// Return the CCA threshold in dB, from the value of the threshold
/// register.
pub fn get_cca_threshold(cca_thr: u8) -> (threshold: i32)
    ensures
        threshold == cca_thr - RSSI_OFFSET,
{
    cca_thr as i32 - RSSI_OFFSET
}

/// The value of the threshold register for a CCA threshold of `threshold`
/// dB, as a number of 32 bits in two's complement.
pub fn set_cca_threshold(threshold: i32) -> (value: u32)
    requires
        threshold + RSSI_OFFSET <= i32::MAX,
    ensures
        value == if threshold + RSSI_OFFSET >= 0 {
            threshold + RSSI_OFFSET
        } else {
            threshold + RSSI_OFFSET + 0x1_0000_0000
        },
{
    let raw: i64 = threshold as i64 + RSSI_OFFSET as i64;
    if raw >= 0 {
        raw as u32
    } else {
        (raw + 0x1_0000_0000) as u32
    }
}

/// Set the short address: the values of the two registers of the short
/// address, the low byte first.
pub fn set_short_address(addr: u16) -> (r: (u32, u32))
    ensures
        r == ((addr as u32) & 0xFF, (addr as u32) >> 8),
{
    ((addr as u32) & 0xFF, (addr as u32) >> 8)
}

/// Set the extended address: the values of the eight registers of the
/// extended address, from the first register on. The registers take the
/// address with its last byte first.
pub fn set_extended_address(addr: &[u8]) -> (r: [u8; 8])
    requires
        addr@.len() >= 8,
    ensures
        r@ == addr@.subrange(0, 8).reverse(),
{
    let r: [u8; 8] = [addr[7], addr[6], addr[5], addr[4], addr[3], addr[2], addr[1], addr[0]];
    assert(r@ =~= addr@.subrange(0, 8).reverse());
    r
}

/// An event that is listened to and then held back leaves the other events
/// as they were, and is not let through.
pub proof fn lemma_unlisten_after_listen(masks: (u32, u32), event: Event)
    requires
        event != Event::All,
    ensures
        spec_without(spec_listen(masks, event), event) == spec_without(masks, event),
        !spec_pending(spec_without(masks, event), event),
        spec_pending(spec_listen(masks, event), event),
{
    let m = spec_event_mask(event);
    let a = masks.0;
    let b = masks.1;
    assert((a | m) & !m == a & !m) by (bit_vector);
    assert((b | m) & !m == b & !m) by (bit_vector);
    assert((a & !m) & m == 0) by (bit_vector);
    assert((b & !m) & m == 0) by (bit_vector);
    assert(m != 0 ==> (a | m) & m != 0) by (bit_vector);
    assert(m != 0 ==> (b | m) & m != 0) by (bit_vector);
}

impl RxMode {
    /// The number that stands for the mode in the frame control register.
    pub fn bits(&self) -> (bits: u8)
        ensures
            bits == spec_rx_mode_bits(*self),
    {
        match self {
            RxMode::Normal => 0b00,
            RxMode::InfiniteRx => 0b01,
            RxMode::InfiniteReception => 0b10,
            RxMode::SymbolSearchDisabled => 0b11,
        }
    }
}

impl Channel {
    /// The number of the channel, from 11 to 26.
    pub fn number(&self) -> (number: u32)
        ensures
            number == spec_channel_number(*self),
            11 <= number <= 26,
    {
        match self {
            Channel::Channel11 => 11,
            Channel::Channel12 => 12,
            Channel::Channel13 => 13,
            Channel::Channel14 => 14,
            Channel::Channel15 => 15,
            Channel::Channel16 => 16,
            Channel::Channel17 => 17,
            Channel::Channel18 => 18,
            Channel::Channel19 => 19,
            Channel::Channel20 => 20,
            Channel::Channel21 => 21,
            Channel::Channel22 => 22,
            Channel::Channel23 => 23,
            Channel::Channel24 => 24,
            Channel::Channel25 => 25,
            Channel::Channel26 => 26,
        }
    }
}

impl Default for RadioConfig {
    fn default() -> (config: Self)
        ensures
            config.channel == Channel::Channel26,
            config.src_pan_id == 0xabcd,
            config.dst_pan_id == 0xabcd,
            config.short_addr == 0,
            config.ext_addr@ == Seq::new(8, |i: int| 0u8),
    {
        let config = Self {
            channel: Channel::Channel26,
            src_pan_id: 0xabcd,
            dst_pan_id: 0xabcd,
            short_addr: 0,
            ext_addr: [0; 8],
        };
        assert(config.ext_addr@ =~= Seq::new(8, |i: int| 0u8));
        config
    }
}

/// The center frequency of a channel in Hz: 2405 MHz for channel 11, and
/// 5 MHz more from each channel to the next.
pub fn channel_frequency(channel: Channel) -> (frequency: u32)
    ensures
        frequency == (2405 + 5 * (spec_channel_number(channel) - 11)) * 1_000_000,
{
    (2405 + 5 * (channel.number() - 11)) * 1_000_000
}

/// The value of the frequency control register for a channel: 11 for
/// channel 11, and 5 more from each channel to the next.
pub fn channel_freq_reg_val(channel: Channel) -> (value: u32)
    ensures
        value == 11 + 5 * (spec_channel_number(channel) - 11),
{
    11 + 5 * (channel.number() - 11)
}

} // verus!
