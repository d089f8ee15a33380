use cc2538_hal::gpio::{
    with_pin, AltFunc, AltSetup, AnalogEnable, Direction, Gpio, Input, Output, OutputEnable,
    OutputFunction, PXx, PadOveride, PinSetup, PullDownEnable, PullUpEnable,
};
use cc2538_hal::serial::{
    baud_setup, listen, rate_is_usable, unlisten, BaudSetup, Error, Event, Serial, Uart0, Uart1,
};
use cc2538_hal::spi::{received, serial_clock_rate, ClockSource, Disabled, FrameFormat, Spi};
use cc2538_hal::timers::{
    event_bit, one_shot, CaptureMode, Config, CountDirection, Half, Mode, OneShotSetup,
};

fn pin(gpio: Gpio, pin: u8) -> PXx<Input<PullUpEnable>> {
    PXx::new(gpio, pin).unwrap()
}

#[test]
fn a_port_has_eight_pins() {
    for n in 0..8 {
        let p = PXx::<AltFunc>::new(Gpio::GpioB, n).unwrap();
        assert_eq!(p.pin(), n);
        assert_eq!(p.gpio(), Gpio::GpioB);
    }
    assert!(PXx::<AltFunc>::new(Gpio::GpioA, 8).is_none());
    assert!(PXx::<AltFunc>::new(Gpio::GpioD, 255).is_none());
}

#[test]
fn pins_are_counted_through_the_ports() {
    assert_eq!(pin(Gpio::GpioA, 0).as_pin_selector(), 0);
    assert_eq!(pin(Gpio::GpioA, 7).as_pin_selector(), 7);
    assert_eq!(pin(Gpio::GpioB, 0).as_pin_selector(), 8);
    assert_eq!(pin(Gpio::GpioC, 3).as_pin_selector(), 19);
    assert_eq!(pin(Gpio::GpioD, 7).as_pin_selector(), 31);
    assert_eq!(Gpio::GpioC.index(), 2);
}

#[test]
fn a_pin_has_its_own_word_of_the_data() {
    assert_eq!(pin(Gpio::GpioA, 0).data_offset(), 1);
    assert_eq!(pin(Gpio::GpioA, 5).data_offset(), 32);
    assert_eq!(pin(Gpio::GpioA, 7).data_offset(), 128);
}

#[test]
fn one_bit_of_a_port_register_changes() {
    assert_eq!(with_pin(0b1010_1010, 0, true), 0b1010_1011);
    assert_eq!(with_pin(0b1010_1010, 1, true), 0b1010_1010);
    assert_eq!(with_pin(0b1010_1010, 1, false), 0b1010_1000);
    assert_eq!(with_pin(0xff, 7, false), 0x7f);
    assert_eq!(with_pin(0x00, 7, true), 0x80);
    for n in 0..8 {
        for bits in [0x00u8, 0xff, 0x5a, 0xa5] {
            let set = with_pin(bits, n, true);
            let cleared = with_pin(bits, n, false);
            assert_eq!(set, bits | (1 << n));
            assert_eq!(cleared, bits & !(1 << n));
        }
    }
}

#[test]
fn pad_overrides_and_directions_have_their_numbers() {
    assert_eq!(PadOveride::Output.bits(), 0x8);
    assert_eq!(PadOveride::PullUp.bits(), 0x4);
    assert_eq!(PadOveride::PullDown.bits(), 0x2);
    assert_eq!(PadOveride::Analog.bits(), 0x1);
    assert_eq!(PadOveride::Disabled.bits(), 0x0);
    assert!(!Direction::Input.bit());
    assert!(Direction::Output.bit());
}

#[test]
fn output_functions_have_their_numbers() {
    assert_eq!(OutputFunction::Uart0Txd.bits(), 0x0);
    assert_eq!(OutputFunction::Uart1Rts.bits(), 0x1);
    assert_eq!(OutputFunction::Uart1Txd.bits(), 0x2);
    assert_eq!(OutputFunction::Ssi0Tx.bits(), 0x3);
    assert_eq!(OutputFunction::Ssi0ClkOut.bits(), 0x4);
    assert_eq!(OutputFunction::Ssi0FssOut.bits(), 0x5);
    assert_eq!(OutputFunction::Ssi0TxSerOut.bits(), 0x6);
    assert_eq!(OutputFunction::Ssi1Txd.bits(), 0x7);
    assert_eq!(OutputFunction::Ssi1ClkOut.bits(), 0x8);
    assert_eq!(OutputFunction::Ssi1FssOut.bits(), 0x9);
    assert_eq!(OutputFunction::Ssi1TxSerOut.bits(), 0xa);
    assert_eq!(OutputFunction::I2cSda.bits(), 0xb);
    assert_eq!(OutputFunction::I2cScl.bits(), 0xc);
    assert_eq!(OutputFunction::Gpt0Cp1.bits(), 0xd);
    assert_eq!(OutputFunction::Gpt0Cp2.bits(), 0xe);
    assert_eq!(OutputFunction::Gpt1Cp1.bits(), 0xf);
    assert_eq!(OutputFunction::Gpt1Cp2.bits(), 0x10);
    assert_eq!(OutputFunction::Gpt2Cp1.bits(), 0x11);
    assert_eq!(OutputFunction::Gpt2Cp2.bits(), 0x12);
    assert_eq!(OutputFunction::Gpt3Cp1.bits(), 0x13);
    assert_eq!(OutputFunction::Gpt3Cp2.bits(), 0x14);
}

#[test]
fn a_pin_becomes_an_output() {
    let (p, setup): (PXx<Output<OutputEnable>>, PinSetup) =
        pin(Gpio::GpioC, 2).into_output_enable_output(0b0000_0001);
    assert_eq!((p.gpio(), p.pin()), (Gpio::GpioC, 2));
    assert_eq!(setup, PinSetup { dir: 0b0000_0101, pad_over: 0x8 });
    assert_eq!(p.set_high(), 4);
    assert_eq!(p.set_low(), 0);
}

#[test]
fn a_pin_becomes_an_input() {
    let (p, setup) = pin(Gpio::GpioA, 6).into_pull_up_enable_input(0xff);
    assert_eq!((p.gpio(), p.pin()), (Gpio::GpioA, 6));
    assert_eq!(setup, PinSetup { dir: 0b1011_1111, pad_over: 0x4 });
    assert!(p.is_low(0));
    assert!(!p.is_high(0));
    assert!(p.is_high(0x40));
    assert!(!p.is_low(0x40));
    let (p, setup): (PXx<Input<PullDownEnable>>, PinSetup) =
        pin(Gpio::GpioA, 0).into_pull_down_enable_input(0x01);
    assert_eq!(p.pin(), 0);
    assert_eq!(setup, PinSetup { dir: 0x00, pad_over: 0x2 });
    let (p, setup): (PXx<Input<AnalogEnable>>, PinSetup) =
        pin(Gpio::GpioD, 7).into_analog_input(0x0f);
    assert_eq!(p.pin(), 7);
    assert_eq!(setup, PinSetup { dir: 0x0f, pad_over: 0x1 });
}

#[test]
fn a_pin_is_handed_to_a_peripheral() {
    let (p, setup) =
        pin(Gpio::GpioB, 4).into_alt_output_function(0x03, 0x80, OutputFunction::Ssi0ClkOut);
    assert_eq!((p.gpio(), p.pin()), (Gpio::GpioB, 4));
    assert_eq!(setup, AltSetup { dir: 0x13, pad_over: 0x8, afsel: 0x90, function: 0x4 });
    let (p, afsel, selector) = pin(Gpio::GpioB, 1).into_alt_input(0x01);
    assert_eq!((p.gpio(), p.pin()), (Gpio::GpioB, 1));
    assert_eq!(afsel, 0x03);
    assert_eq!(selector, 9);
    assert_eq!(p.set_afsel(0xff, false), 0xfd);
    assert_eq!(p.set_direction(0x00, Direction::Output), 0x02);
    assert_eq!(p.set_direction(0xff, Direction::Input), 0xfd);
    assert_eq!(p.set_pad_overide(PadOveride::Disabled), 0);
}

#[test]
fn baud_rate_of_a_serial_port() {
    assert_eq!(
        baud_setup(115_200, 32_000_000),
        BaudSetup { high_speed: false, divint: 17, divfrac: 23 }
    );
    assert_eq!(
        baud_setup(9_600, 16_000_000),
        BaudSetup { high_speed: false, divint: 104, divfrac: 11 }
    );
    // Sixteen times the rate is the clock: still the slower mode.
    assert_eq!(
        baud_setup(2_000_000, 32_000_000),
        BaudSetup { high_speed: false, divint: 1, divfrac: 0 }
    );
}

#[test]
fn high_baud_rates_halve_the_rate() {
    assert_eq!(
        baud_setup(3_000_000, 32_000_000),
        BaudSetup { high_speed: true, divint: 1, divfrac: 21 }
    );
    assert_eq!(
        baud_setup(u32::MAX, u32::MAX),
        BaudSetup { high_speed: true, divint: 0, divfrac: 8 }
    );
}

#[test]
fn the_integer_part_of_the_divisor_is_cut_to_its_register() {
    assert_eq!(
        baud_setup(1, u32::MAX),
        BaudSetup { high_speed: false, divint: 0xffff, divfrac: 60 }
    );
}

#[test]
fn some_baud_rates_have_no_divisor() {
    assert!(!rate_is_usable(0, 32_000_000));
    assert!(!rate_is_usable(0, 0));
    assert!(!rate_is_usable(1, 15));
    assert!(rate_is_usable(1, 16));
    assert!(rate_is_usable(2, 0));
    assert_eq!(baud_setup(2, 0), BaudSetup { high_speed: true, divint: 0, divfrac: 0 });
}

#[test]
fn interrupts_of_a_serial_port() {
    assert_eq!(Event::Rxne.bit(), 0x10);
    assert_eq!(Event::Txe.bit(), 0x20);
    assert_eq!(listen(0, Event::Rxne), 0x10);
    assert_eq!(listen(0x10, Event::Txe), 0x30);
    assert_eq!(listen(0xffff_0000, Event::Txe), 0xffff_0020);
    assert_eq!(unlisten(0x30, Event::Txe), 0x10);
    assert_eq!(unlisten(0x30, Event::Rxne), 0x20);
    assert_eq!(unlisten(0, Event::Rxne), 0);
    assert_ne!(Error::Framing, Error::Parity);
    assert_ne!(Error::Noise, Error::Overrun);
}

#[test]
fn a_serial_port_gives_back_what_it_was_made_of() {
    let tx = PXx::<AltFunc>::new(Gpio::GpioA, 1).unwrap();
    let rx = PXx::<AltFunc>::new(Gpio::GpioA, 0).unwrap();
    let serial = Serial::new(Uart0, (tx, rx));
    let (_uart, (tx, rx)) = serial.free();
    assert_eq!((tx.pin(), rx.pin()), (1, 0));
    let serial = Serial::new(Uart1, (tx, rx));
    let (_tx, _rx) = serial.split();
}

#[test]
fn clock_rate_of_a_serial_interface() {
    assert_eq!(serial_clock_rate(1_000_000, 32_000_000), 15);
    assert_eq!(serial_clock_rate(1_000_000, 32_000_001), 16);
    assert_eq!(serial_clock_rate(16_000_000, 32_000_000), 0);
    assert_eq!(serial_clock_rate(62_500, 32_000_000), 255);
    // Too slow for 256 periods, and too fast for one.
    assert_eq!(serial_clock_rate(100, 32_000_000), 255);
    assert_eq!(serial_clock_rate(u32::MAX, 1), 0);
    assert_eq!(serial_clock_rate(1, 0), 0);
    assert_eq!(serial_clock_rate(u32::MAX, u32::MAX), 0);
}

#[test]
fn clocks_and_data_of_a_serial_interface() {
    assert_eq!(ClockSource::SysDivSysDivClock.bits(), 0b000);
    assert_eq!(ClockSource::SysDivBaudClock.bits(), 0b001);
    assert_eq!(ClockSource::IoDivSysDivClock.bits(), 0b100);
    assert_eq!(ClockSource::IoDivBaudClock.bits(), 0b101);
    assert_ne!(FrameFormat::Spi, FrameFormat::Microwave);
    assert_eq!(received(0x1234), 0x34);
    assert_eq!(received(0xffff_ffff), 0xff);
    assert_eq!(received(0), 0);
    let spi: Spi<u8, Disabled> = Spi::new(7);
    assert_eq!(*spi.ssi(), 7);
    let spi = spi.enable();
    assert_eq!(*spi.ssi(), 7);
}

#[test]
fn modes_of_a_timer() {
    assert_eq!(Mode::OneShot.bits(), 0x1);
    assert_eq!(Mode::Periodic.bits(), 0x2);
    assert_eq!(Mode::Capture.bits(), 0x3);
    assert_eq!(Config::Timer32Bit.bits(), 0x0);
    assert_eq!(Config::Clock32Bit.bits(), 0x1);
    assert_eq!(Config::Timer16Bit.bits(), 0x4);
    assert!(!CountDirection::Down.counts_up());
    assert!(CountDirection::Up.counts_up());
    assert_eq!(CountDirection::default(), CountDirection::Down);
    assert_eq!(CaptureMode::default(), CaptureMode::EdgeCount);
}

#[test]
fn interrupts_of_a_timer() {
    let e = cc2538_hal::timers::Event::TimeOut;
    assert_eq!(event_bit(Half::A, e), 0x001);
    assert_eq!(event_bit(Half::B, e), 0x100);
    let e = cc2538_hal::timers::Event::CaptureMatch;
    assert_eq!(event_bit(Half::A, e), 0x002);
    assert_eq!(event_bit(Half::B, e), 0x200);
    let e = cc2538_hal::timers::Event::CaptureEvent;
    assert_eq!(event_bit(Half::A, e), 0x004);
    assert_eq!(event_bit(Half::B, e), 0x400);
    let e = cc2538_hal::timers::Event::Match;
    assert_eq!(event_bit(Half::A, e), 0x010);
    assert_eq!(event_bit(Half::B, e), 0x800);
    assert_eq!(cc2538_hal::timers::listen(0x100, Half::A, e), 0x110);
}

#[test]
fn a_short_delay_needs_no_prescaler() {
    assert_eq!(
        one_shot(1_000_000, 16_000_000),
        Some(OneShotSetup { prescaler: 0, start_value: 16_000 })
    );
    assert_eq!(one_shot(0, 32_000_000), Some(OneShotSetup { prescaler: 0, start_value: 0 }));
    assert_eq!(
        one_shot(999, 1_999_999),
        Some(OneShotSetup { prescaler: 0, start_value: 0 })
    );
    assert_eq!(
        one_shot(2_047_000, 32_000_000),
        Some(OneShotSetup { prescaler: 0, start_value: 65_504 })
    );
}

#[test]
fn a_longer_delay_is_divided_by_the_prescaler() {
    assert_eq!(
        one_shot(5_000_000, 16_000_000),
        Some(OneShotSetup { prescaler: 4, start_value: 20_000 })
    );
    assert_eq!(
        one_shot(100_000_000, 1_000_000),
        Some(OneShotSetup { prescaler: 255, start_value: 392 })
    );
}

#[test]
fn a_delay_can_be_too_long_for_the_timer() {
    assert_eq!(one_shot(5_000_000, 32_000_000), None);
    assert_eq!(one_shot(2_048_000, 32_000_000), None);
    assert_eq!(one_shot(20_000_000_001, 1_000_000), None);
    assert_eq!(one_shot(u128::MAX, 32_000_000), None);
    assert_eq!(one_shot(u128::MAX, u32::MAX), None);
}
