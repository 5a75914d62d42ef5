//! The three capacitive touch buttons of the board.

use vstd::prelude::*;
use rppal::gpio::Error as GpioError;
use crate::lifecycle::Lifecycle;

verus! {

/// GPIO BCM pin number of touch button A.
pub const GPIO_TOUCH_A: u8 = 21;

/// GPIO BCM pin number of touch button B.
pub const GPIO_TOUCH_B: u8 = 20;

/// GPIO BCM pin number of touch button C.
pub const GPIO_TOUCH_C: u8 = 16;

/// Errors that can occur.
#[derive(Debug)]
pub enum Error {
    /// The GPIO line could not be claimed.
    Gpio(GpioError),
}

impl From<GpioError> for Error {
    fn from(err: GpioError) -> (error: Error) {
        Error::Gpio(err)
    }
}

impl vstd::std_specs::convert::FromSpecImpl<GpioError> for Error {
    open spec fn obeys_from_spec() -> bool {
        true
    }

    open spec fn from_spec(err: GpioError) -> Error {
        Error::Gpio(err)
    }
}

/// The state of a button after its line was read: a simulated button keeps
/// its state, any other is pressed exactly if its line is low.
pub open spec fn sensed(simulation: bool, state: bool, line_high: bool) -> bool {
    if simulation {
        state
    } else {
        !line_high
    }
}

/// A simulated button does not look at its line: it is pressed exactly if
/// its state says so.
pub proof fn lemma_simulation_reads_no_line(state: bool, line_high: bool)
    ensures
        sensed(true, state, line_high) == state,
        sensed(false, state, line_high) == !line_high,
{
}

/// A touch button on the board.
#[derive(Debug)]
pub struct Button {
    /// GPIO pin number in the BCM numbering.
    pub bcm_pin: u8,
    /// State of the button: true for pressed, false for released.
    pub state: bool,
    /// Whether the button is set up, and whether it is simulated.
    pub life: Lifecycle,
}

impl Button {
    pub open spec fn spec_is_setup(&self) -> bool {
        self.life.is_setup()
    }

    pub open spec fn spec_simulation(&self) -> bool {
        self.life.simulation()
    }

    pub open spec fn spec_must_acquire(&self) -> bool {
        !self.is_setup() && !self.simulation()
    }

    /// Creates a touch button on a GPIO pin. The button is released.
    pub fn new(bcm_pin: u8) -> (out: Result<Button, Error>)
        ensures
            out matches Ok(button) && button.bcm_pin == bcm_pin && !button.state
                && !button.is_setup() && !button.simulation(),
    {
        Ok(Button { bcm_pin, state: false, life: Lifecycle::new() })
    }

    /// Whether setup has completed.
    #[verifier::when_used_as_spec(spec_is_setup)]
    pub fn is_setup(&self) -> (done: bool)
        ensures
            done == self.is_setup(),
    {
        self.life.is_setup()
    }

    /// Whether the button is simulated.
    #[verifier::when_used_as_spec(spec_simulation)]
    pub fn simulation(&self) -> (simulated: bool)
        ensures
            simulated == self.simulation(),
    {
        self.life.simulation()
    }

    /// Whether the line has to be claimed before the next operation that
    /// takes the outcome of doing so.
    #[verifier::when_used_as_spec(spec_must_acquire)]
    pub fn must_acquire(&self) -> (due: bool)
        ensures
            due == self.must_acquire(),
    {
        self.life.must_acquire()
    }

    /// Turns simulation on: from now on the line is never claimed nor read,
    /// and the button is pressed exactly if `state` says so.
    pub fn enable_simulation(&mut self)
        requires
            !old(self).is_setup() || old(self).simulation(),
        ensures
            final(self).simulation(),
            final(self).is_setup() == old(self).is_setup(),
            final(self).bcm_pin == old(self).bcm_pin,
            final(self).state == old(self).state,
    {
        self.life.enable_simulation();
    }

    /// Initializes the driver.
    ///
    /// `claimed` is the outcome of claiming the line as an input and is
    /// looked at only where `must_acquire()` holds. Once set up, the driver
    /// stays set up and further calls change nothing.
    pub fn setup(&mut self, claimed: Result<(), GpioError>) -> (out: Result<(), Error>)
        ensures
            final(self).bcm_pin == old(self).bcm_pin,
            final(self).state == old(self).state,
            final(self).simulation() == old(self).simulation(),
            final(self).is_setup() == (old(self).is_setup() || old(self).simulation()
                || claimed is Ok),
            out is Err <==> old(self).must_acquire() && claimed is Err,
            out matches Err(error) ==> error == Error::Gpio(claimed->Err_0),
    {
        match self.life.setup(claimed) {
            Ok(()) => Ok(()),
            Err(fault) => Err(Error::from(fault)),
        }
    }

    /// Gets the state of the button: true if it is pressed.
    ///
    /// The driver is set up first if that has not happened yet, with
    /// `claimed` as in `setup`; if that fails, the error is handed back and
    /// the state stays as it is. `line_high` is the level read from the line
    /// and is looked at only if the button is not simulated: the button is
    /// pressed while its line is low. A simulated button keeps its state.
    pub fn is_pressed(&mut self, claimed: Result<(), GpioError>, line_high: bool) -> (out: Result<
        bool,
        Error,
    >)
        ensures
            final(self).bcm_pin == old(self).bcm_pin,
            final(self).simulation() == old(self).simulation(),
            final(self).is_setup() == (old(self).is_setup() || old(self).simulation()
                || claimed is Ok),
            out is Err <==> old(self).must_acquire() && claimed is Err,
            out matches Err(error) ==> error == Error::Gpio(claimed->Err_0) && final(self).state
                == old(self).state,
            out matches Ok(pressed) ==> pressed == sensed(
                old(self).simulation(),
                old(self).state,
                line_high,
            ) && final(self).state == pressed,
    {
        self.setup(claimed)?;
        if !self.life.simulation() {
            self.state = !line_high;
        }
        Ok(self.state)
    }
}

/// The three buttons of the board.
#[derive(Debug)]
pub struct Buttons {
    /// Button A.
    pub a: Button,
    /// Button B.
    pub b: Button,
    /// Button C.
    pub c: Button,
}

impl Buttons {
    /// Creates the set of buttons, each on its own pin and released.
    pub fn new() -> (out: Result<Buttons, Error>)
        ensures
            out matches Ok(buttons) && buttons.a.bcm_pin == GPIO_TOUCH_A && buttons.b.bcm_pin
                == GPIO_TOUCH_B && buttons.c.bcm_pin == GPIO_TOUCH_C && !buttons.a.state
                && !buttons.b.state && !buttons.c.state && !buttons.a.is_setup()
                && !buttons.b.is_setup() && !buttons.c.is_setup() && !buttons.a.simulation()
                && !buttons.b.simulation() && !buttons.c.simulation(),
    {
        let a = Button::new(GPIO_TOUCH_A)?;
        let b = Button::new(GPIO_TOUCH_B)?;
        let c = Button::new(GPIO_TOUCH_C)?;
        Ok(Buttons { a, b, c })
    }

    /// Turns simulation on for the three buttons.
    pub fn enable_simulation(&mut self)
        requires
            !old(self).a.is_setup() || old(self).a.simulation(),
            !old(self).b.is_setup() || old(self).b.simulation(),
            !old(self).c.is_setup() || old(self).c.simulation(),
        ensures
            final(self).a.simulation(),
            final(self).b.simulation(),
            final(self).c.simulation(),
            final(self).a.is_setup() == old(self).a.is_setup(),
            final(self).b.is_setup() == old(self).b.is_setup(),
            final(self).c.is_setup() == old(self).c.is_setup(),
            final(self).a.bcm_pin == old(self).a.bcm_pin,
            final(self).b.bcm_pin == old(self).b.bcm_pin,
            final(self).c.bcm_pin == old(self).c.bcm_pin,
            final(self).a.state == old(self).a.state,
            final(self).b.state == old(self).b.state,
            final(self).c.state == old(self).c.state,
    {
        self.a.enable_simulation();
        self.b.enable_simulation();
        self.c.enable_simulation();
    }
}

} // verus!
