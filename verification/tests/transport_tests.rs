use srxl2::blink::BlinkCommand;
use srxl2::circular_buffer::{BufferNotReadyError, CircularBitBuffer};
use srxl2::led::{Led, Timeout};
use srxl2::onboard_leds_buttons::{Button, FusedLedButton, PinDrive};
use srxl2::robot::{pace, Pace};
use srxl2::software_serial::{calc_compare, SerialError, SerialWriter, Step, WriterState};

#[test]
fn bits_come_out_in_the_order_they_went_in() {
    let mut b = CircularBitBuffer::new();
    assert!(b.write_ready());
    assert!(!b.read_ready());
    assert_eq!(b.read_bit(), Err(BufferNotReadyError));
    let bits = [true, false, false, true, true, true, false, true, false, true];
    for bit in bits {
        assert_eq!(b.write_bit(bit), Ok(()));
    }
    for bit in bits {
        assert_eq!(b.read_bit(), Ok(bit));
    }
    assert!(!b.read_ready());
}

#[test]
fn the_bit_buffer_holds_128_bits() {
    let mut b = CircularBitBuffer::new();
    for i in 0..128 {
        assert_eq!(b.write_bit(i % 3 == 0), Ok(()));
    }
    assert!(!b.write_ready());
    assert_eq!(b.write_bit(true), Err(BufferNotReadyError));
    for i in 0..128 {
        assert_eq!(b.read_bit(), Ok(i % 3 == 0));
    }
    assert_eq!(b.read_bit(), Err(BufferNotReadyError));
}

#[test]
fn the_bit_buffer_goes_round() {
    let mut b = CircularBitBuffer::new();
    for round in 0..50 {
        for i in 0..7 {
            assert_eq!(b.write_bit((round + i) % 2 == 0), Ok(()));
        }
        for i in 0..7 {
            assert_eq!(b.read_bit(), Ok((round + i) % 2 == 0));
        }
    }
    assert!(!b.read_ready());
}

#[test]
fn a_byte_goes_out_between_start_and_stop() {
    let mut w: SerialWriter<4> = SerialWriter::new();
    assert_eq!(w.next_send(), WriterState::Idle);
    assert_eq!(w.send_next_bit(), None);
    assert_eq!(w.write(&[0xA5]), Ok(1));
    assert_eq!(w.len(), 1);
    assert_eq!(w.send_next_bit(), None);
    assert_eq!(w.next_send(), WriterState::Start);
    let mut line = Vec::new();
    for _ in 0..10 {
        line.push(w.send_next_bit().unwrap());
    }
    assert_eq!(
        line,
        vec![false, true, false, true, false, false, true, false, true, true]
    );
    assert_eq!(w.next_send(), WriterState::Idle);
    assert_eq!(w.len(), 0);
}

#[test]
fn the_next_byte_starts_right_after_the_stop_bit() {
    let mut w: SerialWriter<4> = SerialWriter::new();
    assert_eq!(w.write(&[0xFF, 0x00]), Ok(2));
    w.send_next_bit();
    for _ in 0..10 {
        w.send_next_bit();
    }
    assert_eq!(w.next_send(), WriterState::Start);
    assert_eq!(w.len(), 1);
    assert_eq!(w.send_next_bit(), Some(false));
    assert_eq!(w.next_send(), WriterState::Data(0));
    for bit in 0..8u8 {
        assert_eq!(w.send_next_bit(), Some(false));
        let expected = if bit < 7 { WriterState::Data(bit + 1) } else { WriterState::Stop };
        assert_eq!(w.next_send(), expected);
    }
    assert_eq!(w.send_next_bit(), Some(true));
    assert_eq!(w.next_send(), WriterState::Idle);
}

#[test]
fn a_write_that_does_not_fit_takes_nothing() {
    let mut w: SerialWriter<4> = SerialWriter::new();
    assert!(w.write_ready());
    assert_eq!(w.write(&[1, 2, 3]), Ok(3));
    assert_eq!(w.write(&[4, 5]), Err(SerialError::BufferFull));
    assert_eq!(w.len(), 3);
    assert_eq!(w.write(&[4]), Ok(1));
    assert!(!w.write_ready());
    assert_eq!(w.write(&[]), Ok(0));
    assert_eq!(w.flush(), Err(SerialError::NotImplemented));
    assert_eq!(SerialError::BufferFull.describe(), "Buffer full");
    assert_eq!(SerialError::NotImplemented.describe(), "Not implemented");
}

#[test]
fn the_byte_queue_goes_round() {
    let mut w: SerialWriter<3> = SerialWriter::new();
    for round in 0..10u8 {
        assert_eq!(w.write(&[round, round + 100]), Ok(2));
        assert_eq!(w.next_send(), WriterState::Idle);
        assert_eq!(w.send_next_bit(), None);
        for byte in [round, round + 100] {
            assert_eq!(w.next_send(), WriterState::Start);
            assert_eq!(w.send_next_bit(), Some(false));
            let mut got = 0u8;
            for _ in 0..8 {
                got = (got << 1) | w.send_next_bit().unwrap() as u8;
            }
            assert_eq!(got, byte);
            assert_eq!(w.next_send(), WriterState::Stop);
            if byte == round {
                assert_eq!(w.send_next_bit(), Some(true));
            }
        }
        assert_eq!(w.send_next_bit(), Some(true));
        assert_eq!(w.len(), 0);
    }
}

#[test]
fn process_runs_the_timer_while_bytes_wait() {
    let mut w: SerialWriter<4> = SerialWriter::new();
    assert_eq!(w.process(false), Step { timer_on: false, next_bit: None });
    w.write(&[0x80]).unwrap();
    assert_eq!(w.process(true), Step { timer_on: true, next_bit: None });
    assert_eq!(w.next_send(), WriterState::Idle);
    assert_eq!(w.process(false), Step { timer_on: true, next_bit: None });
    assert_eq!(w.next_send(), WriterState::Start);
    assert_eq!(w.process(false), Step { timer_on: true, next_bit: Some(false) });
    assert_eq!(w.process(false), Step { timer_on: true, next_bit: Some(true) });
    assert_eq!(w.process(true), Step { timer_on: true, next_bit: None });
    assert_eq!(w.next_send(), WriterState::Data(1));
}

#[test]
fn compare_value_of_the_bit_timer() {
    // 16 MHz, 9600 baud, prescaler 8: 1666 / 8 - 1 = 207.
    assert_eq!(calc_compare(16_000_000, 9600, 8), 207);
    assert_eq!(calc_compare(16_000_000, 57600, 1), (277 - 1) as u8);
    assert_eq!(calc_compare(16_000_000, 115_200, 1), 137);
    assert_eq!(calc_compare(8, 1, 8), 0);
}

#[test]
fn a_blink_pattern_is_shifted_in_behind_a_marker() {
    assert_eq!(BlinkCommand::new("").pattern(), [0b1, 0]);
    assert_eq!(BlinkCommand::new("-").pattern(), [0b11, 0]);
    assert_eq!(BlinkCommand::new(".").pattern(), [0b10, 0]);
    assert_eq!(BlinkCommand::new("-.-").pattern(), [0b1101, 0]);
    assert_eq!(BlinkCommand::new("..--..-").pattern(), [0b1001_1001, 0]);
    // The marker and the oldest signs leave the byte after seven signs.
    assert_eq!(BlinkCommand::new("-.......").pattern(), [0b1000_0000, 0]);
    assert_eq!(BlinkCommand::new("---------").pattern(), [0xFF, 0]);
}

#[test]
fn a_light_is_switched() {
    let mut led = Led::new();
    assert!(!led.is_lit());
    led.set_lit(true);
    assert!(led.is_lit());
    led.toggle();
    assert!(!led.is_lit());
    led.set_lit_for(100);
    assert_eq!(led, Led { lit: true, off_timeout: None });
    led.tick(5);
    assert!(led.is_lit());
}

#[test]
fn a_light_with_a_time_goes_out() {
    let mut led = Led { lit: true, off_timeout: Some(Timeout { duration: 100, off: 0 }) };
    led.tick(1000);
    assert_eq!(led.off_timeout, Some(Timeout { duration: 100, off: 1100 }));
    led.tick(1100);
    assert!(led.is_lit());
    led.tick(1101);
    assert_eq!(led, Led { lit: false, off_timeout: None });
}

#[test]
fn a_button_is_read_and_debounced() {
    let mut f = FusedLedButton::new();
    assert!(!f.needs_sample(0));
    assert!(f.needs_sample(1));
    assert_eq!(f.refresh(0, true), PinDrive::High);
    assert!(!f.is_pressed());
    assert_eq!(f.refresh(10, true), PinDrive::Leave);
    assert!(f.is_pressed());
    assert_eq!(f.button_debounce, 510);
    assert_eq!(f.refresh(510, false), PinDrive::High);
    assert!(f.is_pressed());
    assert_eq!(f.refresh(511, false), PinDrive::High);
    assert!(!f.is_pressed());
}

#[test]
fn a_lit_light_keeps_the_pin_low() {
    let mut f = FusedLedButton::new();
    srxl2::onboard_leds_buttons::Led::set_lit(&mut f, true);
    assert!(srxl2::onboard_leds_buttons::Led::is_lit(&f));
    assert_eq!(f.refresh(10, true), PinDrive::Low);
    assert!(f.is_pressed());
    srxl2::onboard_leds_buttons::Led::toggle(&mut f);
    assert!(!f.led_lit);
    srxl2::onboard_leds_buttons::Led::set_lit_for(&mut f, 5);
    assert!(!f.led_lit);
}

#[test]
fn the_main_loop_waits_out_its_share_of_time() {
    assert_eq!(pace(20, 100, 120), Pace::Wait(30));
    assert_eq!(pace(20, 100, 100), Pace::Wait(50));
    assert_eq!(pace(20, 100, 150), Pace::Overrun { runtime: 50, time_budget: 50 });
    assert_eq!(pace(20, 100, 200), Pace::Overrun { runtime: 100, time_budget: 50 });
    assert_eq!(pace(3, 0, 0), Pace::Wait(333));
    assert_eq!(pace(2000, 0, 0), Pace::Overrun { runtime: 0, time_budget: 0 });
}
