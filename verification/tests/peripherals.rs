use gpio::GpioValue;
use kiosk_devices::ccnet_dev::answer;
use kiosk_devices::ccnet_dev::answer_command;
use kiosk_devices::ccnet_dev::quit_requested;
use kiosk_devices::ccnet_dev::Answer;
use kiosk_devices::cmd;
use kiosk_devices::intio::apply_io;
use kiosk_devices::intio::PinLevel;
use kiosk_devices::iobus::init;
use kiosk_devices::iobus::read_dev;
use kiosk_devices::iobus::read_pcf8574;
use kiosk_devices::iobus::write_dev;
use kiosk_devices::iobus::write_pcf8574;
use kiosk_devices::iobus::Chip;
use kiosk_devices::iobus::IoBusDevice;
use kiosk_devices::ledmatrix::blank_draw_data;
use kiosk_devices::ledmatrix::fill_step;
use kiosk_devices::ledmatrix::DISPLAY_HEIGHT;
use kiosk_devices::ledmatrix::DISPLAY_WIDTH;
use kiosk_devices::ledmatrix::DRAW_DATA_SIZE;
use kiosk_devices::ledpanel::next_pos;
use kiosk_devices::ledpanel::pattern;
use kiosk_devices::ledpanel::CS_ACTIVE;
use kiosk_devices::ledpanel::CS_NORMAL;
use kiosk_devices::utils::exit_requested;
use kiosk_devices::utils::Exiter;
use kiosk_devices::wiegand::OrderTooLarge;
use kiosk_devices::wiegand::Wiegand;
use kiosk_devices::wiegand::WiegandMsg;
use std::sync::mpsc::channel;
use std::sync::mpsc::TryRecvError;

#[test]
fn pin_level_inverse() {
    assert_eq!(PinLevel::High.inverse(), PinLevel::Low);
    assert_eq!(PinLevel::Low.inverse(), PinLevel::High);
    assert_eq!(PinLevel::Low.inverse().inverse(), PinLevel::Low);
}

#[test]
fn pin_level_as_gpioval() {
    assert_eq!(PinLevel::High.as_gpioval(), GpioValue::High);
    assert_eq!(PinLevel::Low.as_gpioval(), GpioValue::Low);
    assert_eq!(PinLevel::from_gpioval(GpioValue::High), PinLevel::High);
    assert_eq!(PinLevel::from_gpioval(GpioValue::Low), PinLevel::Low);
}

#[test]
fn output_follows_input() {
    let high = PinLevel::High;
    let low = PinLevel::Low;
    assert_eq!(apply_io(GpioValue::High, &high, &high), GpioValue::High);
    assert_eq!(apply_io(GpioValue::Low, &high, &high), GpioValue::Low);
    assert_eq!(apply_io(GpioValue::High, &high, &low), GpioValue::Low);
    assert_eq!(apply_io(GpioValue::Low, &high, &low), GpioValue::High);
    assert_eq!(apply_io(GpioValue::High, &low, &high), GpioValue::Low);
    assert_eq!(apply_io(GpioValue::Low, &low, &high), GpioValue::High);
    assert_eq!(apply_io(GpioValue::High, &low, &low), GpioValue::High);
    assert_eq!(apply_io(GpioValue::Low, &low, &low), GpioValue::Low);
}

#[test]
fn pcf8574_write_byte() {
    assert_eq!(write_pcf8574(&PinLevel::High, 0b0000_1111, 0b1000_0000, true), 0b1000_1111);
    assert_eq!(write_pcf8574(&PinLevel::High, 0b0000_1111, 0b1000_0000, false), 0b1111_0000);
    assert_eq!(write_pcf8574(&PinLevel::Low, 0b0000_1111, 0b1000_0000, true), 0b1111_0000);
    assert_eq!(write_pcf8574(&PinLevel::Low, 0b0000_1111, 0b1000_0000, false), 0b1000_1111);
    assert_eq!(write_pcf8574(&PinLevel::High, 0, 0, true), 0);
    assert_eq!(write_pcf8574(&PinLevel::High, 0, 0, false), 0xFF);
}

#[test]
fn pcf8574_read_button() {
    assert!(read_pcf8574(0b1000_0000, &PinLevel::High, 0b1000_0000));
    assert!(!read_pcf8574(0b0111_1111, &PinLevel::High, 0b1000_0000));
    assert!(!read_pcf8574(0b1000_0000, &PinLevel::Low, 0b1000_0000));
    assert!(read_pcf8574(0b0111_1111, &PinLevel::Low, 0b1000_0000));
    assert!(read_pcf8574(0b0000_0001, &PinLevel::High, 0b0000_0011));
    assert!(read_pcf8574(0xFF, &PinLevel::Low, 0));
}

#[test]
fn iobus_device_dispatch() {
    let dev = IoBusDevice {
        chip: Chip::PCF8574,
        addr: 0x20,
        active_input: PinLevel::Low,
        active_output: PinLevel::Low,
        input_mask: 0b0000_0001,
        output_mask: 0b1111_0000,
    };
    assert_eq!(init(&dev), 0b0000_0001);
    assert_eq!(write_dev(&dev, true), 0b0000_1111);
    assert_eq!(write_dev(&dev, false), 0b1111_0001);
    assert!(read_dev(&dev, 0b1111_1110));
    assert!(!read_dev(&dev, 0b0000_0001));
}

#[test]
fn ledmatrix_sizes() {
    assert_eq!(DRAW_DATA_SIZE, DISPLAY_HEIGHT * DISPLAY_WIDTH / 2 + 2);
    assert_eq!(DRAW_DATA_SIZE, 1026);
    let buf = blank_draw_data();
    assert_eq!(buf.len(), 1026);
    assert!(buf.iter().all(|b| *b == 0));
}

#[test]
fn ledmatrix_fills_and_starts_over() {
    let mut buf = blank_draw_data();
    let mut i = 0;
    for step in 0..DRAW_DATA_SIZE {
        assert_eq!(i, step);
        i = fill_step(&mut buf, i);
        assert_eq!(buf.iter().filter(|b| **b == 0xFF).count(), step + 1);
        assert_eq!(buf[step], 0xFF);
    }
    assert_eq!(i, 0);
    assert_eq!(fill_step(&mut buf, 0), 1);
    assert!(buf.iter().all(|b| *b == 0xFF));
}

#[test]
fn ledmatrix_place_outside_fills_nothing() {
    let mut buf = blank_draw_data();
    assert_eq!(fill_step(&mut buf, DRAW_DATA_SIZE), 0);
    assert_eq!(fill_step(&mut buf, usize::MAX), 0);
    assert!(buf.iter().all(|b| *b == 0));
    let mut short = vec![0u8; 4];
    assert_eq!(fill_step(&mut short, 3), 4);
    assert_eq!(short, vec![0, 0, 0, 0xFF]);
    assert_eq!(fill_step(&mut short, 4), 0);
}

#[test]
fn ledpanel_patterns() {
    assert_eq!(pattern(0), [0, 0]);
    for pos in 1..=8 {
        assert_eq!(pattern(pos), [1, 0]);
    }
    for pos in 9..=16 {
        assert_eq!(pattern(pos), [1, 1]);
    }
    assert_eq!(pattern(17), [1, 1]);
    assert_eq!(pattern(usize::MAX), [1, 1]);
}

#[test]
fn ledpanel_steps() {
    for pos in 0..15 {
        assert_eq!(next_pos(pos), pos + 1);
    }
    assert_eq!(next_pos(15), 0);
    assert_eq!(next_pos(16), 0);
    assert_eq!(next_pos(usize::MAX), 0);
    assert_eq!(CS_NORMAL, PinLevel::High);
    assert_eq!(CS_ACTIVE, PinLevel::Low);
}

/// Sends the lowest `order` bits of `number` as pulses, lowest first, one
/// poll for the pulse and one for the rest after it.
fn send_bits(wiegand: &mut Wiegand, now: &mut u64, number: u64, order: usize) {
    for bit in 0..order {
        *now += 1000;
        let one = (number >> bit) & 1 == 1;
        let (pin_0, pin_1) = if one {
            (GpioValue::High, GpioValue::Low)
        } else {
            (GpioValue::Low, GpioValue::High)
        };
        assert_eq!(wiegand.poll(*now, pin_0, pin_1), None);
        *now += 1000;
        assert_eq!(wiegand.poll(*now, GpioValue::High, GpioValue::High), None);
    }
}

#[test]
fn wiegand_reads_a_number() {
    let mut wiegand = Wiegand::new(0);
    let mut now = 1000;
    assert_eq!(wiegand.poll(now, GpioValue::High, GpioValue::High), None);
    let number: u64 = 0b10_1100_1010_0111_0001_1010_0101;
    send_bits(&mut wiegand, &mut now, number, 26);
    // The last pulse was polled 1000 microseconds ago.
    now += 23_400;
    assert_eq!(wiegand.poll(now, GpioValue::High, GpioValue::High), None);
    now += 600;
    assert_eq!(
        wiegand.poll(now, GpioValue::High, GpioValue::High),
        Some(WiegandMsg { data: number, order: 26 })
    );
    now += 30_000;
    assert_eq!(wiegand.poll(now, GpioValue::High, GpioValue::High), None);
}

#[test]
fn wiegand_drops_a_number_that_is_too_short() {
    let mut wiegand = Wiegand::new(0);
    let mut now = 1000;
    wiegand.poll(now, GpioValue::High, GpioValue::High);
    send_bits(&mut wiegand, &mut now, 0x7F_FFFF, 23);
    now += 25_000;
    assert_eq!(wiegand.poll(now, GpioValue::High, GpioValue::High), None);
    // The bits are gone: 24 new ones make a number of their own.
    send_bits(&mut wiegand, &mut now, 0x80_0001, 24);
    now += 25_000;
    assert_eq!(
        wiegand.poll(now, GpioValue::High, GpioValue::High),
        Some(WiegandMsg { data: 0x80_0001, order: 24 })
    );
}

#[test]
fn wiegand_stops_counting_at_the_most_bits() {
    let mut wiegand = Wiegand::new(0);
    let mut now = 1000;
    wiegand.poll(now, GpioValue::High, GpioValue::High);
    send_bits(&mut wiegand, &mut now, u64::MAX, 50);
    now += 25_000;
    assert_eq!(
        wiegand.poll(now, GpioValue::High, GpioValue::High),
        Some(WiegandMsg { data: (1 << 44) - 1, order: 44 })
    );
}

#[test]
fn wiegand_holds_64_bits() {
    let mut wiegand = Wiegand::new(0);
    assert_eq!(wiegand.set_max_order(64), Ok(()));
    let mut now = 1000;
    wiegand.poll(now, GpioValue::High, GpioValue::High);
    send_bits(&mut wiegand, &mut now, 0x8123_4567_89AB_CDEF, 70);
    now += 25_000;
    assert_eq!(
        wiegand.poll(now, GpioValue::High, GpioValue::High),
        Some(WiegandMsg { data: 0x8123_4567_89AB_CDEF, order: 64 })
    );
}

#[test]
fn wiegand_refuses_more_than_64_bits() {
    let mut wiegand = Wiegand::new(0);
    assert_eq!(wiegand.set_max_order(65), Err(OrderTooLarge));
    assert_eq!(wiegand.set_max_order(usize::MAX), Err(OrderTooLarge));
    assert_eq!(wiegand.set_max_order(0), Ok(()));
}

#[test]
fn wiegand_settings() {
    let mut wiegand = Wiegand::new(0);
    wiegand.set_min_order(2);
    wiegand.set_max_order(3).unwrap();
    wiegand.set_active_level(GpioValue::High);
    wiegand.set_cutoff(100);
    wiegand.set_poll_period(10);
    assert!(!wiegand.poll_due(9));
    assert!(wiegand.poll_due(10));
    let mut now = 10;
    assert_eq!(wiegand.poll(now, GpioValue::Low, GpioValue::Low), None);
    for (pin_0, pin_1) in [(GpioValue::Low, GpioValue::High), (GpioValue::High, GpioValue::Low)] {
        now += 10;
        assert_eq!(wiegand.poll(now, pin_0, pin_1), None);
        now += 10;
        assert_eq!(wiegand.poll(now, GpioValue::Low, GpioValue::Low), None);
    }
    now += 89;
    assert_eq!(wiegand.poll(now, GpioValue::Low, GpioValue::Low), None);
    now += 10;
    assert_eq!(
        wiegand.poll(now, GpioValue::Low, GpioValue::Low),
        Some(WiegandMsg { data: 0b01, order: 2 })
    );
}

#[test]
fn wiegand_ignores_polls_before_their_time() {
    let mut wiegand = Wiegand::new(1000);
    assert!(!wiegand.poll_due(1499));
    assert!(!wiegand.poll_due(0));
    assert!(wiegand.poll_due(1500));
    // A pulse that is polled too early is not seen.
    assert_eq!(wiegand.poll(1499, GpioValue::High, GpioValue::Low), None);
    assert!(wiegand.poll_due(1500));
    assert_eq!(wiegand.poll(1500, GpioValue::High, GpioValue::High), None);
    assert!(!wiegand.poll_due(1999));
}

#[test]
fn exiter_ends_when_the_sender_is_gone() {
    let (tx, rx) = channel::<()>();
    let exiter = Exiter::new(rx);
    assert!(!exiter.check());
    tx.send(()).unwrap();
    assert!(!exiter.check());
    assert!(!exiter.check());
    drop(tx);
    assert!(exiter.check());
    assert!(exiter.check());
}

#[test]
fn exit_is_requested_by_a_disconnected_channel_only() {
    assert!(!exit_requested(Ok(())));
    assert!(!exit_requested(Err(TryRecvError::Empty)));
    assert!(exit_requested(Err(TryRecvError::Disconnected)));
}

#[test]
fn operator_answers() {
    assert_eq!(answer('y'), Answer::Yes);
    assert_eq!(answer('n'), Answer::No);
    assert_eq!(answer('Y'), Answer::Unclear);
    assert_eq!(answer('q'), Answer::Unclear);
    assert_eq!(answer_command(Answer::Yes), Some(cmd::STACK));
    assert_eq!(answer_command(Answer::No), Some(cmd::STACK));
    assert_eq!(answer_command(Answer::Unclear), None);
    assert!(quit_requested(Some('q')));
    assert!(!quit_requested(Some('y')));
    assert!(!quit_requested(None));
}
