use rainbow_hat_rs::alphanum4::{Alphanum4, Error, DIGIT_VALUES};
use rainbow_hat_rs::ht16k33::HT16K33_BLINK_OFF;

fn digit(display: &Alphanum4, pos: usize) -> u16 {
    let buffer = display.ht16k33.buffer();
    u16::from(buffer[2 * pos]) | (u16::from(buffer[2 * pos + 1]) << 8)
}

fn glyph(c: char) -> u16 {
    Alphanum4::glyph(c).unwrap()
}

#[test]
fn glyph_lookup() {
    assert_eq!(Alphanum4::glyph('A'), Some(0b0000000011110111));
    assert_eq!(Alphanum4::glyph(' '), Some(0));
    assert_eq!(Alphanum4::glyph('~'), Some(0b0000010100100000));
    assert_eq!(Alphanum4::glyph('0'), Some(0b0000110000111111));
    assert_eq!(Alphanum4::glyph('z'), Some(0b0000100001001000));
    assert_eq!(Alphanum4::glyph('\u{1f}'), None);
    assert_eq!(Alphanum4::glyph('\u{7f}'), None);
    assert_eq!(Alphanum4::glyph('\n'), None);
    assert_eq!(Alphanum4::glyph('é'), None);
    assert_eq!(Alphanum4::glyph('\u{10FFFF}'), None);
}

#[test]
fn every_printable_character_has_its_glyph() {
    assert_eq!(DIGIT_VALUES.len(), 95);
    for code in 0u32..=0x2FF {
        let c = char::from_u32(code).unwrap();
        if (32..=126).contains(&code) {
            assert_eq!(Alphanum4::glyph(c), Some(DIGIT_VALUES[(code - 32) as usize]));
            // No glyph uses the decimal point.
            assert_eq!(DIGIT_VALUES[(code - 32) as usize] & 0x4000, 0);
        } else {
            assert_eq!(Alphanum4::glyph(c), None);
        }
    }
}

#[test]
fn split_into_bytes() {
    assert_eq!(Alphanum4::u16_to_u8(0x1234), (0x34, 0x12));
    assert_eq!(Alphanum4::u16_to_u8(0x00FF), (0xFF, 0x00));
    assert_eq!(Alphanum4::u16_to_u8(0xFF00), (0x00, 0xFF));
    assert_eq!(Alphanum4::u16_to_u8(0), (0, 0));
    assert_eq!(Alphanum4::u16_to_u8(0xFFFF), (0xFF, 0xFF));
}

#[test]
fn raw_digit_reads_back() {
    let masks = [0u16, 1, 0x00FF, 0x0100, 0x1234, 0x4000, 0x8000, 0xABCD, 0xFFFF];
    for pos in 0..4 {
        for mask in masks {
            let mut display = Alphanum4::new().unwrap();
            display.set_digit_raw(pos, mask);
            assert_eq!(digit(&display, pos), mask);
            assert_eq!(display.ht16k33.buffer()[2 * pos], (mask & 0xFF) as u8);
            assert_eq!(display.ht16k33.buffer()[2 * pos + 1], (mask >> 8) as u8);
            for other in 0..4 {
                if other != pos {
                    assert_eq!(digit(&display, other), 0);
                }
            }
        }
    }
}

#[test]
fn raw_digit_past_the_display_is_ignored() {
    let mut display = Alphanum4::new().unwrap();
    display.set_digit_raw(1, 0x1234);
    let before = display.ht16k33.buffer();
    for pos in [4usize, 5, 100, usize::MAX] {
        display.set_digit_raw(pos, 0xFFFF);
        display.set_decimal(pos, true);
        display.set_digit(pos, 'A', true);
        assert_eq!(display.ht16k33.buffer(), before);
    }
}

#[test]
fn decimal_point_is_one_bit() {
    for pos in 0..4 {
        for mask in [0u16, 0x00F7, 0x3FFF, 0xBFFF, 0xFFFF, 0x4000] {
            let mut display = Alphanum4::new().unwrap();
            display.set_digit_raw(pos, mask);
            display.set_decimal(pos, true);
            assert_eq!(digit(&display, pos), mask | 0x4000);
            assert_eq!(display.ht16k33.buffer()[2 * pos + 1] & 0x40, 0x40);
            display.set_decimal(pos, true);
            assert_eq!(digit(&display, pos), mask | 0x4000);
            display.set_decimal(pos, false);
            assert_eq!(digit(&display, pos), mask & !0x4000);
            display.set_decimal(pos, false);
            assert_eq!(digit(&display, pos), mask & !0x4000);
            for other in 0..4 {
                if other != pos {
                    assert_eq!(digit(&display, other), 0);
                }
            }
        }
    }
}

#[test]
fn digit_with_and_without_decimal_point() {
    let mut display = Alphanum4::new().unwrap();
    display.set_digit(0, 'A', false);
    display.set_digit(1, 'A', true);
    display.set_digit(2, '8', true);
    display.set_digit(3, ' ', false);
    assert_eq!(digit(&display, 0), 0b0000000011110111);
    assert_eq!(digit(&display, 1), 0b0100000011110111);
    assert_eq!(digit(&display, 2), 0b0100000011111111);
    assert_eq!(digit(&display, 3), 0);
    // A digit that is set again loses its decimal point.
    display.set_digit(1, 'B', false);
    assert_eq!(digit(&display, 1), glyph('B'));
}

#[test]
fn print_test() {
    let mut display = Alphanum4::new().unwrap();
    display.print_str("TEST", false);
    assert_eq!(digit(&display, 0), glyph('T'));
    assert_eq!(digit(&display, 1), glyph('E'));
    assert_eq!(digit(&display, 2), glyph('S'));
    assert_eq!(digit(&display, 3), glyph('T'));
    assert_eq!(
        display.ht16k33.buffer(),
        [0x01, 0x12, 0xF9, 0x00, 0xED, 0x00, 0x01, 0x12]
    );
    for pos in 0..4 {
        assert_eq!(digit(&display, pos) & 0x4000, 0);
    }
}

#[test]
fn print_clears_decimal_points_where_it_prints() {
    let mut display = Alphanum4::new().unwrap();
    for pos in 0..4 {
        display.set_digit(pos, '8', true);
    }
    display.print_str("AB", false);
    assert_eq!(digit(&display, 0), glyph('A'));
    assert_eq!(digit(&display, 1), glyph('B'));
    assert_eq!(digit(&display, 2), glyph('8') | 0x4000);
    assert_eq!(digit(&display, 3), glyph('8') | 0x4000);
}

#[test]
fn print_short_text() {
    let mut display = Alphanum4::new().unwrap();
    display.print_str("WXYZ", false);

    // No padding: what the text does not reach stays.
    display.print_str("AB", false);
    assert_eq!(digit(&display, 0), glyph('A'));
    assert_eq!(digit(&display, 1), glyph('B'));
    assert_eq!(digit(&display, 2), glyph('Y'));
    assert_eq!(digit(&display, 3), glyph('Z'));

    display.print_str("7", true);
    assert_eq!(digit(&display, 0), glyph('A'));
    assert_eq!(digit(&display, 1), glyph('B'));
    assert_eq!(digit(&display, 2), glyph('Y'));
    assert_eq!(digit(&display, 3), glyph('7'));

    display.print_str("ab", true);
    assert_eq!(digit(&display, 0), glyph('A'));
    assert_eq!(digit(&display, 1), glyph('B'));
    assert_eq!(digit(&display, 2), glyph('a'));
    assert_eq!(digit(&display, 3), glyph('b'));

    let before = display.ht16k33.buffer();
    display.print_str("", false);
    display.print_str("", true);
    assert_eq!(display.ht16k33.buffer(), before);
}

#[test]
fn print_right_justified_full_width() {
    let mut display = Alphanum4::new().unwrap();
    display.print_str("TEST", true);
    assert_eq!(digit(&display, 0), glyph('T'));
    assert_eq!(digit(&display, 1), glyph('E'));
    assert_eq!(digit(&display, 2), glyph('S'));
    assert_eq!(digit(&display, 3), glyph('T'));
}

#[test]
fn print_long_text() {
    // To the left, what follows the fourth character is ignored.
    let mut display = Alphanum4::new().unwrap();
    display.print_str("HELLO WORLD", false);
    assert_eq!(digit(&display, 0), glyph('H'));
    assert_eq!(digit(&display, 1), glyph('E'));
    assert_eq!(digit(&display, 2), glyph('L'));
    assert_eq!(digit(&display, 3), glyph('L'));

    // To the right, the text ends at the last position.
    let mut display = Alphanum4::new().unwrap();
    display.print_str("HELLO", true);
    assert_eq!(digit(&display, 0), glyph('E'));
    assert_eq!(digit(&display, 1), glyph('L'));
    assert_eq!(digit(&display, 2), glyph('L'));
    assert_eq!(digit(&display, 3), glyph('O'));
}

#[test]
fn buffer_changes_leave_the_controller_alone() {
    let mut display = Alphanum4::new().unwrap();
    display.ht16k33.enable_simulation();
    display.ht16k33.set_brightness(4, Ok(())).unwrap();
    display.set_digit_raw(0, 0xFFFF);
    display.set_decimal(1, true);
    display.set_digit(2, 'x', true);
    display.print_str("ok", true);
    assert_eq!(display.ht16k33.brightness(), 4);
    assert_eq!(display.ht16k33.blink_frequency(), HT16K33_BLINK_OFF);
    assert!(display.ht16k33.simulation());
    assert!(display.ht16k33.is_setup());
}

#[test]
fn show_sends_the_buffer() {
    let mut display = Alphanum4::new().unwrap();
    display.print_str("TEST", false);
    assert!(display.ht16k33.must_acquire());
    let write = display.show(Ok(())).unwrap().unwrap();
    assert_eq!(write.command, 0x00);
    assert_eq!(write.payload, vec![0x01, 0x12, 0xF9, 0x00, 0xED, 0x00, 0x01, 0x12]);
    assert!(display.ht16k33.is_setup());
}

#[test]
fn show_of_a_simulated_display_sends_nothing() {
    let mut real = Alphanum4::new().unwrap();
    let mut fake = Alphanum4::new().unwrap();
    fake.ht16k33.enable_simulation();
    for display in [&mut real, &mut fake] {
        display.print_str("Rust", false);
        display.set_decimal(2, true);
        display.set_digit_raw(3, 0x2AAA);
    }
    assert!(real.show(Ok(())).unwrap().is_some());
    assert!(fake.show(Ok(())).unwrap().is_none());
    assert!(fake.ht16k33.is_setup());
    assert_eq!(real.ht16k33.buffer(), fake.ht16k33.buffer());
}

#[test]
fn show_wraps_the_error_of_the_controller() {
    let mut display = Alphanum4::new().unwrap();
    let out = display.show(Err(rppal::i2c::Error::InvalidSlaveAddress(0x70)));
    assert!(matches!(
        out,
        Err(Error::HT16K33(rainbow_hat_rs::ht16k33::Error::I2c(
            rppal::i2c::Error::InvalidSlaveAddress(0x70)
        )))
    ));
    assert!(!display.ht16k33.is_setup());
}
