//! The serial ports: how a baud rate is set, which interrupts a port is
//! asked for, and the handles of a port.

use core::marker::PhantomData;
use vstd::prelude::*;
use crate::gpio::{AltFunc, PXx};

verus! {

/// The first serial port.
#[derive(Debug)]
pub struct Uart0;

/// The second serial port.
#[derive(Debug)]
pub struct Uart1;

/// A pin that can send for the port `UART`.
pub trait TxPin<UART> {

}

/// A pin that can receive for the port `UART`.
pub trait RxPin<UART> {

}

impl TxPin<Uart0> for PXx<AltFunc> {

}

impl TxPin<Uart1> for PXx<AltFunc> {

}

impl RxPin<Uart0> for PXx<AltFunc> {

}

impl RxPin<Uart1> for PXx<AltFunc> {

}

/// An interrupt of a serial port.
#[derive(Debug, Clone, Copy, PartialEq, Eq, Structural)]
pub enum Event {
    /// The receiver holds data.
    Rxne,
    /// The transmitter can take data.
    Txe,
}

/// What can go wrong on the line.
#[derive(Debug, Clone, Copy, PartialEq, Eq, Structural)]
pub enum Error {
    Framing,
    Noise,
    Overrun,
    Parity,
}

/// The receiving half of a serial port.
#[derive(Debug)]
pub struct Rx<UART> {
    _uart: PhantomData<UART>,
}

/// The sending half of a serial port.
#[derive(Debug)]
pub struct Tx<UART> {
    _uart: PhantomData<UART>,
}

/// A serial port with its pins.
#[derive(Debug)]
pub struct Serial<UART, PINS> {
    uart: UART,
    pins: PINS,
}

/// The bit of the receive interrupt in the interrupt mask of a port.
pub const UART_IM_RXIM: u32 = 0x10;

/// The bit of the transmit interrupt in the interrupt mask of a port.
pub const UART_IM_TXIM: u32 = 0x20;

/// What the registers of a port are set to for a baud rate.
#[derive(Debug, Clone, Copy, PartialEq, Eq, Structural)]
pub struct BaudSetup {
    /// Whether the port runs in high speed mode, on an eighth of the clock
    /// in place of a sixteenth.
    pub high_speed: bool,
    /// The integer part of the divisor.
    pub divint: u16,
    /// The fraction of the divisor, in 64ths.
    pub divfrac: u8,
}

/// Whether the baud rate is too high for a sixteenth of the clock `clk`.
pub open spec fn spec_high_speed(baud_rate: u32, clk: u32) -> bool {
    baud_rate as int * 16 > clk as int
}

/// The rate that the divisor is computed for: half of the baud rate in
/// high speed mode.
pub open spec fn spec_divided_rate(baud_rate: u32, clk: u32) -> int {
    if spec_high_speed(baud_rate, clk) {
        baud_rate as int / 2
    } else {
        baud_rate as int
    }
}

/// Whether a divisor exists for the baud rate: the rate that it is
/// computed for is not zero.
pub open spec fn spec_rate_is_usable(baud_rate: u32, clk: u32) -> bool {
    spec_divided_rate(baud_rate, clk) > 0
}

/// The divisor, in 64ths: the clock over sixteen times the rate, rounded
/// to the nearest 64th.
pub open spec fn spec_divisor(baud_rate: u32, clk: u32) -> int {
    ((clk as int * 8) / spec_divided_rate(baud_rate, clk) + 1) / 2
}

/// The setup for a baud rate: the mode, and the divisor in its two parts,
/// the integer part cut to the sixteen bits of its register.
pub open spec fn spec_baud_setup(baud_rate: u32, clk: u32) -> BaudSetup {
    BaudSetup {
        high_speed: spec_high_speed(baud_rate, clk),
        divint: ((spec_divisor(baud_rate, clk) / 64) % 0x1_0000) as u16,
        divfrac: (spec_divisor(baud_rate, clk) % 64) as u8,
    }
}

/// The bit of an interrupt in the interrupt mask of a port.
pub open spec fn spec_event_bit(event: Event) -> u32 {
    match event {
        Event::Rxne => UART_IM_RXIM,
        Event::Txe => UART_IM_TXIM,
    }
}

/// Whether a divisor exists for the baud rate on the clock `clk`.
pub fn rate_is_usable(baud_rate: u32, clk: u32) -> (usable: bool)
    ensures
        usable == spec_rate_is_usable(baud_rate, clk),
{
    baud_rate >= 2 || (baud_rate == 1 && clk >= 16)
}

/// What the registers of a port are set to for the baud rate `baud_rate`
/// on the clock `clk`.
pub fn baud_setup(baud_rate: u32, clk: u32) -> (setup: BaudSetup)
    requires
        spec_rate_is_usable(baud_rate, clk),
    ensures
        setup == spec_baud_setup(baud_rate, clk),
{
    let clk: u64 = clk as u64;
    let baud_rate: u64 = baud_rate as u64;
    let high_speed = baud_rate * 16 > clk;
    let b_rate: u64 = if high_speed {
        baud_rate / 2
    } else {
        baud_rate
    };
    let div: u64 = ((clk * 8) / b_rate + 1) / 2;
    BaudSetup { high_speed, divint: ((div / 64) % 0x1_0000) as u16, divfrac: (div % 64) as u8 }
}

impl Event {
    /// The bit of this interrupt in the interrupt mask of a port.
    pub fn bit(&self) -> (bit: u32)
        ensures
            bit == spec_event_bit(*self),
    {
        match self {
            Event::Rxne => UART_IM_RXIM,
            Event::Txe => UART_IM_TXIM,
        }
    }
}

/// The interrupt mask `im` of a port that also asks for `event`.
pub fn listen(im: u32, event: Event) -> (r: u32)
    ensures
        r == im | spec_event_bit(event),
{
    im | event.bit()
}

/// The interrupt mask `im` of a port that asks for `event` no more.
pub fn unlisten(im: u32, event: Event) -> (r: u32)
    ensures
        r == im & !spec_event_bit(event),
{
    im & !event.bit()
}

/// A mask that was made to ask for an interrupt asks for it, a mask that
/// was made to ask for it no more does not, and neither changes what is
/// asked of the other interrupt.
pub proof fn lemma_listen(im: u32, event: Event, other: Event)
    ensures
        (im | spec_event_bit(event)) & spec_event_bit(event) == spec_event_bit(event),
        (im & !spec_event_bit(event)) & spec_event_bit(event) == 0,
        other != event ==> (im | spec_event_bit(event)) & spec_event_bit(other) == im
            & spec_event_bit(other),
        other != event ==> (im & !spec_event_bit(event)) & spec_event_bit(other) == im
            & spec_event_bit(other),
{
    assert((im | 0x10) & 0x10 == 0x10 && (im & !0x10u32) & 0x10 == 0 && (im | 0x20) & 0x20 == 0x20
        && (im & !0x20u32) & 0x20 == 0 && (im | 0x10) & 0x20 == im & 0x20 && (im & !0x10u32) & 0x20
        == im & 0x20 && (im | 0x20) & 0x10 == im & 0x10 && (im & !0x20u32) & 0x10 == im & 0x10)
        by (bit_vector);
}

impl<UART, TX, RX> Serial<UART, (TX, RX)> {
    /// The port of this handle.
    pub closed spec fn spec_uart(&self) -> UART {
        self.uart
    }

    /// The pins of this handle.
    pub closed spec fn spec_pins(&self) -> (TX, RX) {
        self.pins
    }

    /// A handle of the port `uart` with the pins `pins`.
    pub fn new(uart: UART, pins: (TX, RX)) -> (serial: Self) where TX: TxPin<UART>, RX: RxPin<UART>
        ensures
            serial.spec_uart() == uart,
            serial.spec_pins() == pins,
    {
        Serial { uart, pins }
    }

    /// Splits the `Serial` abstraction into a transmitter and a receiver
    /// half.
    pub fn split(self) -> (Tx<UART>, Rx<UART>) {
        (Tx { _uart: PhantomData }, Rx { _uart: PhantomData })
    }

    /// Release the UART peripheral and associated pins.
    pub fn free(self) -> (parts: (UART, (TX, RX)))
        ensures
            parts.0 == self.spec_uart(),
            parts.1 == self.spec_pins(),
    {
        (self.uart, self.pins)
    }
}

} // verus!
