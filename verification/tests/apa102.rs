use rainbow_hat_rs::apa102::{Error, Line, Pixel, Signal, APA102, NUM_PIXELS};

fn bits(brightness: f32) -> u32 {
    brightness.to_bits()
}

fn simulated() -> APA102 {
    let mut apa102 = APA102::new().unwrap();
    apa102.enable_simulation();
    apa102
}

/// The level at every clock pulse of a plan: what the chain shifts in.
fn clocked_bits(plan: &[Signal]) -> Vec<bool> {
    let mut data = false;
    let mut clock = false;
    let mut bits = Vec::new();
    for signal in plan {
        match *signal {
            Signal::Drive { line: Line::Data, high } => data = high,
            Signal::Drive { line: Line::Clock, high } => {
                if high && !clock {
                    bits.push(data);
                }
                clock = high;
            }
            Signal::Drive { line: Line::ChipSelect, .. } => {}
            Signal::Settle => {}
        }
    }
    bits
}

fn bytes_of(bits: &[bool]) -> Vec<u8> {
    assert_eq!(bits.len() % 8, 0);
    bits.chunks(8)
        .map(|byte| byte.iter().fold(0u8, |acc, bit| (acc << 1) | u8::from(*bit)))
        .collect()
}

/// Tests the setup of the chain.
#[test]
fn test_apa102_setup() -> Result<(), Error> {
    let mut apa102 = APA102::new()?;
    apa102.enable_simulation();

    // Not setup
    assert!(apa102.is_setup() == false);

    // Force setup
    let _result = apa102.setup(Ok(()));

    assert!(apa102.is_setup() == true);

    Ok(())
}

/// Tests setting the brightness of every pixel.
#[test]
fn test_apa102_set_brightness() -> Result<(), Error> {
    let mut apa102 = APA102::new()?;
    apa102.enable_simulation();
    let _result = apa102.setup(Ok(()));

    apa102.set_brightness(bits(0.0));
    for i in 0..apa102.pixels().len() {
        assert!(apa102.pixels()[i].level == 0);
    }

    apa102.set_brightness(bits(1.0));
    for i in 0..apa102.pixels().len() {
        assert!(apa102.pixels()[i].level == 31);
    }

    Ok(())
}

/// Test clearing the buffer.
#[test]
fn test_apa102_clear() -> Result<(), Error> {
    let mut apa102 = APA102::new()?;
    apa102.enable_simulation();
    let _result = apa102.setup(Ok(()));

    apa102.set_all(250, 250, 250, bits(1.0));
    for i in 0..apa102.pixels().len() {
        assert!(apa102.pixels()[i] == Pixel { red: 250, green: 250, blue: 250, level: 31 });
    }

    apa102.clear();

    // The RGB pixels are clear but the brightness is unchanged
    for i in 0..apa102.pixels().len() {
        assert!(apa102.pixels()[i].red == 0);
        assert!(apa102.pixels()[i].green == 0);
        assert!(apa102.pixels()[i].blue == 0);
        assert!(apa102.pixels()[i].level == 31);
    }

    Ok(())
}

/// Tests to set pixel colors.
#[test]
fn test_apa102_set_pixel() -> Result<(), Error> {
    let mut apa102 = APA102::new()?;
    apa102.enable_simulation();
    let _result = apa102.setup(Ok(()));

    apa102.set_pixel(0, 123, 234, 012, bits(1.0));
    apa102.set_pixel(6, 12, 58, 123, bits(0.0));

    assert!(apa102.pixels()[0].red == 123);
    assert!(apa102.pixels()[0].green == 234);
    assert!(apa102.pixels()[0].blue == 12);
    assert!(apa102.pixels()[0].level == 31);

    assert!(apa102.pixels()[6].red == 12);
    assert!(apa102.pixels()[6].green == 58);
    assert!(apa102.pixels()[6].blue == 123);
    assert!(apa102.pixels()[6].level == 0);
    Ok(())
}

/// Tests to set all
#[test]
fn test_apa102_set_all() -> Result<(), Error> {
    let mut apa102 = APA102::new()?;
    apa102.enable_simulation();
    let _result = apa102.setup(Ok(()));

    apa102.set_all(123, 234, 012, bits(1.0));

    for i in 0..apa102.pixels().len() {
        assert!(apa102.pixels()[i].red == 123);
        assert!(apa102.pixels()[i].green == 234);
        assert!(apa102.pixels()[i].blue == 12);
        assert!(apa102.pixels()[i].level == 31);
    }

    Ok(())
}

/// Tests obtaining a bit from a byte.
#[test]
fn test_apa102_get_bit_at() -> Result<(), Error> {
    let value = 0b00010101 as u8;

    assert!(APA102::get_bit_at(value, 0) == true);
    assert!(APA102::get_bit_at(value, 1) == false);
    assert!(APA102::get_bit_at(value, 2) == true);
    assert!(APA102::get_bit_at(value, 3) == false);
    assert!(APA102::get_bit_at(value, 4) == true);
    assert!(APA102::get_bit_at(value, 5) == false);
    assert!(APA102::get_bit_at(value, 6) == false);
    assert!(APA102::get_bit_at(value, 7) == false);

    Ok(())
}

#[test]
fn new_chain_is_dark_and_idle() {
    let apa102 = APA102::new().unwrap();
    assert_eq!(apa102.pixels().len(), NUM_PIXELS);
    assert_eq!(apa102.pixels(), [Pixel { red: 0, green: 0, blue: 0, level: 0 }; 7]);
    assert!(!apa102.is_setup());
    assert!(!apa102.simulation());
    assert!(apa102.must_acquire());
}

#[test]
fn set_pixel_past_the_chain_is_ignored() {
    let mut apa102 = simulated();
    apa102.set_all(1, 2, 3, bits(0.5));
    let before = apa102.pixels();
    apa102.set_pixel(7, 9, 9, 9, bits(1.0));
    apa102.set_pixel(usize::MAX, 9, 9, 9, bits(1.0));
    assert_eq!(apa102.pixels(), before);
}

#[test]
fn set_pixel_leaves_the_other_pixels() {
    let mut apa102 = simulated();
    apa102.set_all(1, 2, 3, bits(1.0));
    apa102.set_pixel(3, 40, 50, 60, bits(0.0));
    for i in 0..NUM_PIXELS {
        let expected = if i == 3 {
            Pixel { red: 40, green: 50, blue: 60, level: 0 }
        } else {
            Pixel { red: 1, green: 2, blue: 3, level: 31 }
        };
        assert_eq!(apa102.pixels()[i], expected);
    }
}

#[test]
fn set_brightness_keeps_the_colours() {
    let mut apa102 = simulated();
    for i in 0..NUM_PIXELS {
        apa102.set_pixel(i, i as u8, 10 + i as u8, 20 + i as u8, bits(1.0));
    }
    apa102.set_brightness(bits(0.5));
    for i in 0..NUM_PIXELS {
        assert_eq!(
            apa102.pixels()[i],
            Pixel { red: i as u8, green: 10 + i as u8, blue: 20 + i as u8, level: 16 }
        );
    }
}

#[test]
fn brightness_is_rounded_to_the_nearest_level() {
    let mut apa102 = simulated();
    let cases: [(f32, u8); 9] = [
        (0.0, 0),
        (0.01, 0),
        (0.02, 1),
        (0.1, 3),
        (0.25, 8),
        (0.5, 16),
        (0.75, 23),
        (0.99, 31),
        (1.0, 31),
    ];
    for (brightness, level) in cases {
        apa102.set_pixel(2, 0, 0, 0, bits(brightness));
        assert_eq!(apa102.pixels()[2].level, level, "brightness {}", brightness);
    }
}

#[test]
fn simulated_show_sends_nothing_and_sets_up() {
    let mut apa102 = simulated();
    apa102.set_all(255, 128, 1, bits(1.0));
    let before = apa102.pixels();
    assert!(!apa102.must_acquire());
    let plan = apa102.show(Ok(())).unwrap();
    assert!(plan.is_empty());
    assert!(apa102.is_setup());
    assert_eq!(apa102.pixels(), before);
}

#[test]
fn simulated_show_ignores_the_outcome_of_a_claim() {
    let mut apa102 = simulated();
    let plan = apa102.show(Err(rppal::gpio::Error::PinNotAvailable(10))).unwrap();
    assert!(plan.is_empty());
    assert!(apa102.is_setup());
}

#[test]
fn buffer_is_the_same_simulated_or_not() {
    let mut real = APA102::new().unwrap();
    let mut fake = simulated();
    for chain in [&mut real, &mut fake] {
        chain.set_all(9, 8, 7, bits(0.25));
        chain.set_pixel(1, 200, 100, 50, bits(1.0));
        chain.set_brightness(bits(0.75));
        chain.set_pixel(5, 1, 1, 1, bits(0.0));
        chain.clear();
        chain.set_pixel(6, 3, 2, 1, bits(0.5));
        let _plan = chain.show(Ok(())).unwrap();
    }
    assert_eq!(real.pixels(), fake.pixels());
}

#[test]
fn failed_claim_surfaces_and_is_tried_again() {
    let mut apa102 = APA102::new().unwrap();
    assert!(apa102.must_acquire());
    let out = apa102.show(Err(rppal::gpio::Error::PinNotAvailable(11)));
    assert!(matches!(out, Err(Error::Gpio(rppal::gpio::Error::PinNotAvailable(11)))));
    assert!(!apa102.is_setup());
    assert!(apa102.must_acquire());

    let out = apa102.setup(Err(rppal::gpio::Error::UnknownModel));
    assert!(matches!(out, Err(Error::Gpio(rppal::gpio::Error::UnknownModel))));
    assert!(!apa102.is_setup());

    assert!(apa102.show(Ok(())).is_ok());
    assert!(apa102.is_setup());
    assert!(!apa102.must_acquire());

    // Set up once: a later outcome is not looked at.
    assert!(apa102.setup(Err(rppal::gpio::Error::UnknownModel)).is_ok());
    assert!(apa102.show(Err(rppal::gpio::Error::UnknownModel)).is_ok());
    assert!(apa102.is_setup());
}

#[test]
fn frame_has_start_pixels_and_end() {
    let mut apa102 = APA102::new().unwrap();
    for i in 0..NUM_PIXELS {
        apa102.set_pixel(i, 0x10 + i as u8, 0x20 + i as u8, 0x30 + i as u8, bits(i as f32 / 6.0));
    }
    let plan = apa102.show(Ok(())).unwrap();

    // Chip select frames the whole transfer.
    assert_eq!(plan[0], Signal::Drive { line: Line::ChipSelect, high: false });
    assert_eq!(plan[plan.len() - 1], Signal::Drive { line: Line::ChipSelect, high: true });
    let selects = plan
        .iter()
        .filter(|signal| matches!(signal, Signal::Drive { line: Line::ChipSelect, .. }))
        .count();
    assert_eq!(selects, 2);

    // 32 + 28 * 8 + 36 clock pulses, each with a pause after either edge.
    let pulses = 32 + 28 * 8 + 36;
    let rising = plan
        .iter()
        .filter(|signal| matches!(signal, Signal::Drive { line: Line::Clock, high: true }))
        .count();
    let falling = plan
        .iter()
        .filter(|signal| matches!(signal, Signal::Drive { line: Line::Clock, high: false }))
        .count();
    let pauses = plan.iter().filter(|signal| matches!(signal, Signal::Settle)).count();
    assert_eq!(rising, pulses);
    assert_eq!(falling, pulses);
    assert_eq!(pauses, 2 * pulses);
    assert_eq!(plan.len(), 2 + 2 + 28 * 8 + 4 * pulses);

    let clocked = clocked_bits(&plan);
    assert_eq!(clocked.len(), pulses);
    assert!(clocked[..32].iter().all(|bit| !bit));
    assert!(clocked[32 + 28 * 8..].iter().all(|bit| !bit));

    let bytes = bytes_of(&clocked[32..32 + 28 * 8]);
    let levels: [u8; 7] = [0, 5, 10, 16, 21, 26, 31];
    for i in 0..NUM_PIXELS {
        assert_eq!(apa102.pixels()[i].level, levels[i]);
        assert_eq!(
            bytes[4 * i..4 * i + 4],
            [0b1110_0000 | levels[i], 0x30 + i as u8, 0x20 + i as u8, 0x10 + i as u8]
        );
    }
}

#[test]
fn first_steps_of_a_frame() {
    let mut apa102 = APA102::new().unwrap();
    let plan = apa102.show(Ok(())).unwrap();
    let pulse = [
        Signal::Drive { line: Line::Clock, high: true },
        Signal::Settle,
        Signal::Drive { line: Line::Clock, high: false },
        Signal::Settle,
    ];
    assert_eq!(plan[1], Signal::Drive { line: Line::Data, high: false });
    assert_eq!(plan[2..6], pulse);
    // The first byte of the first pixel is 0b11100000: its first bit is high.
    let first_bit = 2 + 32 * 4;
    assert_eq!(plan[first_bit], Signal::Drive { line: Line::Data, high: true });
    assert_eq!(plan[first_bit + 1..first_bit + 5], pulse);
    // Its fourth bit is low.
    assert_eq!(plan[first_bit + 15], Signal::Drive { line: Line::Data, high: false });
}

#[test]
fn exit_clears_and_shows() {
    let mut apa102 = APA102::new().unwrap();
    apa102.set_all(255, 255, 255, bits(1.0));
    let plan = apa102.exit(Ok(())).unwrap();
    assert!(apa102.is_setup());
    for pixel in apa102.pixels() {
        assert_eq!(pixel, Pixel { red: 0, green: 0, blue: 0, level: 31 });
    }
    let clocked = clocked_bits(&plan);
    let bytes = bytes_of(&clocked[32..32 + 28 * 8]);
    for i in 0..NUM_PIXELS {
        assert_eq!(bytes[4 * i..4 * i + 4], [0xFF, 0, 0, 0]);
    }

    let mut fake = simulated();
    fake.set_all(255, 255, 255, bits(1.0));
    assert!(fake.exit(Ok(())).unwrap().is_empty());
    assert_eq!(fake.pixels(), apa102.pixels());
}

#[test]
fn lines_are_on_their_pins() {
    assert_eq!(Line::Data.bcm_pin(), 10);
    assert_eq!(Line::Clock.bcm_pin(), 11);
    assert_eq!(Line::ChipSelect.bcm_pin(), 8);
}
