use rainbow_hat_rs::touch::{Button, Buttons, Error, GPIO_TOUCH_A, GPIO_TOUCH_B, GPIO_TOUCH_C};

/// Tests the setup of the button.
#[test]
fn test_button_setup() -> Result<(), Error> {
    let mut button = Button::new(GPIO_TOUCH_A)?;

    // enable simulation
    button.enable_simulation();

    // Not setup
    assert!(button.is_setup() == false);

    // Force setup
    let _result = button.setup(Ok(()));

    assert!(button.is_setup() == true);

    Ok(())
}

/// Tests when a button is pressed.
#[test]
fn test_button_is_pressed() -> Result<(), Error> {
    let mut button = Button::new(GPIO_TOUCH_A)?;

    // enable simulation
    button.enable_simulation();

    // Not setup
    assert!(button.is_setup() == false);

    // Lazy setup
    // For simulation the button is not pressed by default
    assert!(button.is_pressed(Ok(()), true)? == false);
    assert!(button.is_setup() == true);

    // Force the state
    button.state = true;
    assert!(button.is_pressed(Ok(()), true)? == true);

    Ok(())
}

/// Tests the pins of the buttons.
#[test]
fn test_buttons_new() -> Result<(), Error> {
    let buttons = Buttons::new()?;

    // Verify the buttons use the right pin
    assert!(buttons.a.bcm_pin == 21);
    assert!(buttons.b.bcm_pin == 20);
    assert!(buttons.c.bcm_pin == 16);

    Ok(())
}

/// Tests to enable the simulation.
#[test]
fn test_buttons_enable_simulation() -> Result<(), Error> {
    let mut buttons = Buttons::new()?;

    // Simulation off by default
    assert!(!buttons.a.simulation());
    assert!(!buttons.b.simulation());
    assert!(!buttons.c.simulation());

    // Turn on simulation
    buttons.enable_simulation();

    assert!(buttons.a.simulation());
    assert!(buttons.b.simulation());
    assert!(buttons.c.simulation());

    Ok(())
}

#[test]
fn button_is_pressed_while_its_line_is_low() {
    let mut button = Button::new(GPIO_TOUCH_B).unwrap();
    assert!(button.must_acquire());
    assert_eq!(button.is_pressed(Ok(()), false).unwrap(), true);
    assert!(button.state);
    assert!(button.is_setup());
    assert_eq!(button.is_pressed(Ok(()), true).unwrap(), false);
    assert!(!button.state);
    assert_eq!(button.bcm_pin, GPIO_TOUCH_B);
}

#[test]
fn simulated_button_keeps_its_state() {
    let mut button = Button::new(GPIO_TOUCH_C).unwrap();
    button.enable_simulation();
    assert_eq!(button.is_pressed(Ok(()), false).unwrap(), false);
    assert_eq!(button.is_pressed(Err(rppal::gpio::Error::UnknownModel), false).unwrap(), false);
    button.state = true;
    assert_eq!(button.is_pressed(Ok(()), true).unwrap(), true);
    assert!(button.state);
}

#[test]
fn button_surfaces_a_failed_claim() {
    let mut button = Button::new(GPIO_TOUCH_A).unwrap();
    button.state = true;
    let out = button.is_pressed(Err(rppal::gpio::Error::PinNotAvailable(21)), true);
    assert!(matches!(out, Err(Error::Gpio(rppal::gpio::Error::PinNotAvailable(21)))));
    assert!(button.state);
    assert!(!button.is_setup());
    assert!(button.must_acquire());
    let out = button.setup(Err(rppal::gpio::Error::UnknownModel));
    assert!(matches!(out, Err(Error::Gpio(rppal::gpio::Error::UnknownModel))));
    assert_eq!(button.is_pressed(Ok(()), true).unwrap(), false);
    assert!(button.is_setup());
}
