use rainbow_hat_rs::lifecycle::Lifecycle;

#[test]
fn new_device_is_neither_set_up_nor_simulated() {
    let life = Lifecycle::new();
    assert!(!life.is_setup());
    assert!(!life.simulation());
    assert!(life.must_acquire());
}

#[test]
fn setup_takes_the_acquisition() {
    let mut life = Lifecycle::new();
    assert_eq!(life.setup(Err("busy")), Err("busy"));
    assert!(!life.is_setup());
    assert!(life.must_acquire());
    assert_eq!(life.setup::<&str>(Ok(())), Ok(()));
    assert!(life.is_setup());
    assert!(!life.must_acquire());
    assert!(!life.simulation());
}

#[test]
fn setup_happens_once() {
    let mut life = Lifecycle::new();
    assert_eq!(life.setup::<u8>(Ok(())), Ok(()));
    assert_eq!(life.setup(Err(1u8)), Ok(()));
    assert_eq!(life.setup::<u8>(Ok(())), Ok(()));
    assert!(life.is_setup());
    assert!(!life.simulation());
}

#[test]
fn simulated_device_is_set_up_without_acquisition() {
    let mut life = Lifecycle::new();
    life.enable_simulation();
    assert!(life.simulation());
    assert!(!life.is_setup());
    assert!(!life.must_acquire());
    assert_eq!(life.setup(Err(7u8)), Ok(()));
    assert!(life.is_setup());
    assert!(life.simulation());
    life.enable_simulation();
    assert!(life.simulation());
    assert!(life.is_setup());
}
