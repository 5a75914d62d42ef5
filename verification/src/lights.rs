//! The three status lights of the board.

use vstd::prelude::*;
use rppal::gpio::Error as GpioError;
use crate::lifecycle::Lifecycle;

verus! {

/// GPIO BCM pin number of the red light.
pub const GPIO_LIGHT_RED: u8 = 6;

/// GPIO BCM pin number of the green light.
pub const GPIO_LIGHT_GREEN: u8 = 19;

/// GPIO BCM pin number of the blue light.
pub const GPIO_LIGHT_BLUE: u8 = 26;

/// One write to an output line: the line goes high or low.
#[derive(Clone, Copy, Debug, PartialEq, Eq, Structural)]
pub struct PinWrite {
    pub pin: u8,
    pub high: bool,
}

/// Errors that can occur.
#[derive(Debug)]
pub enum Error {
    /// The GPIO line could not be claimed.
    Gpio(GpioError),
}

impl From<GpioError> for Error {
    fn from(err: GpioError) -> (error: Error) {
        Error::Gpio(err)
    }
}

impl vstd::std_specs::convert::FromSpecImpl<GpioError> for Error {
    open spec fn obeys_from_spec() -> bool {
        true
    }

    open spec fn from_spec(err: GpioError) -> Error {
        Error::Gpio(err)
    }
}

/// What a light sends when it is written: nothing if it is simulated, else
/// its line goes high for on and low for off.
pub open spec fn driven(simulation: bool, pin: u8, state: bool) -> Option<PinWrite> {
    if simulation {
        None
    } else {
        Some(PinWrite { pin, high: state })
    }
}

/// A write, if there is one, as a plan of one step or none.
pub open spec fn steps(write: Option<PinWrite>) -> Seq<PinWrite> {
    match write {
        Some(write) => seq![write],
        None => Seq::empty(),
    }
}

/// A simulated light is handed no write, whatever its pin and its state, and
/// any other light is handed one write, to its own pin.
pub proof fn lemma_simulation_drives_no_line(pin: u8, state: bool)
    ensures
        steps(driven(true, pin, state)).len() == 0,
        steps(driven(false, pin, state)) == seq![PinWrite { pin, high: state }],
{
}

/// A light on the board.
#[derive(Debug)]
pub struct Light {
    /// GPIO pin number in the BCM numbering.
    pub bcm_pin: u8,
    /// State of the light: true for on, false for off.
    pub state: bool,
    /// Whether the light is set up, and whether it is simulated.
    pub life: Lifecycle,
}

impl Light {
    pub open spec fn spec_is_setup(&self) -> bool {
        self.life.is_setup()
    }

    pub open spec fn spec_simulation(&self) -> bool {
        self.life.simulation()
    }

    pub open spec fn spec_must_acquire(&self) -> bool {
        !self.is_setup() && !self.simulation()
    }

    /// Creates a light on a GPIO pin. The light is off.
    pub fn new(bcm_pin: u8) -> (out: Result<Light, Error>)
        ensures
            out matches Ok(light) && light.bcm_pin == bcm_pin && !light.state && !light.is_setup()
                && !light.simulation(),
    {
        Ok(Light { bcm_pin, state: false, life: Lifecycle::new() })
    }

    /// Whether setup has completed.
    #[verifier::when_used_as_spec(spec_is_setup)]
    pub fn is_setup(&self) -> (done: bool)
        ensures
            done == self.is_setup(),
    {
        self.life.is_setup()
    }

    /// Whether the light is simulated.
    #[verifier::when_used_as_spec(spec_simulation)]
    pub fn simulation(&self) -> (simulated: bool)
        ensures
            simulated == self.simulation(),
    {
        self.life.simulation()
    }

    /// Whether the line has to be claimed before the next operation that
    /// takes the outcome of doing so.
    #[verifier::when_used_as_spec(spec_must_acquire)]
    pub fn must_acquire(&self) -> (due: bool)
        ensures
            due == self.must_acquire(),
    {
        self.life.must_acquire()
    }

    /// Turns simulation on: from now on the line is never claimed and no
    /// operation hands back a write.
    pub fn enable_simulation(&mut self)
        requires
            !old(self).is_setup() || old(self).simulation(),
        ensures
            final(self).simulation(),
            final(self).is_setup() == old(self).is_setup(),
            final(self).bcm_pin == old(self).bcm_pin,
            final(self).state == old(self).state,
    {
        self.life.enable_simulation();
    }

    /// Initializes the driver.
    ///
    /// `claimed` is the outcome of claiming the line as an output and is
    /// looked at only where `must_acquire()` holds. Once set up, the driver
    /// stays set up and further calls change nothing.
    pub fn setup(&mut self, claimed: Result<(), GpioError>) -> (out: Result<(), Error>)
        ensures
            final(self).bcm_pin == old(self).bcm_pin,
            final(self).state == old(self).state,
            final(self).simulation() == old(self).simulation(),
            final(self).is_setup() == (old(self).is_setup() || old(self).simulation()
                || claimed is Ok),
            out is Err <==> old(self).must_acquire() && claimed is Err,
            out matches Err(error) ==> error == Error::Gpio(claimed->Err_0),
    {
        match self.life.setup(claimed) {
            Ok(()) => Ok(()),
            Err(fault) => Err(Error::from(fault)),
        }
    }

    /// Sets the state of the light.
    ///
    /// The state is kept in any case. The driver is set up first if that has
    /// not happened yet, with `claimed` as in `setup`; if that fails, the
    /// error is handed back. Else the result is the write to perform, or
    /// nothing if the light is simulated.
    pub fn write(&mut self, state: bool, claimed: Result<(), GpioError>) -> (out: Result<
        Option<PinWrite>,
        Error,
    >)
        ensures
            final(self).state == state,
            final(self).bcm_pin == old(self).bcm_pin,
            final(self).simulation() == old(self).simulation(),
            final(self).is_setup() == (old(self).is_setup() || old(self).simulation()
                || claimed is Ok),
            out is Err <==> old(self).must_acquire() && claimed is Err,
            out matches Err(error) ==> error == Error::Gpio(claimed->Err_0),
            out matches Ok(write) ==> write == driven(
                old(self).simulation(),
                old(self).bcm_pin,
                state,
            ),
    {
        self.state = state;
        self.setup(claimed)?;
        if self.life.simulation() {
            Ok(None)
        } else {
            Ok(Some(PinWrite { pin: self.bcm_pin, high: state }))
        }
    }

    /// Turns the light on.
    pub fn on(&mut self, claimed: Result<(), GpioError>) -> (out: Result<Option<PinWrite>, Error>)
        ensures
            final(self).state,
            final(self).bcm_pin == old(self).bcm_pin,
            final(self).simulation() == old(self).simulation(),
            final(self).is_setup() == (old(self).is_setup() || old(self).simulation()
                || claimed is Ok),
            out is Err <==> old(self).must_acquire() && claimed is Err,
            out matches Err(error) ==> error == Error::Gpio(claimed->Err_0),
            out matches Ok(write) ==> write == driven(
                old(self).simulation(),
                old(self).bcm_pin,
                true,
            ),
    {
        self.write(true, claimed)
    }

    /// Turns the light off.
    pub fn off(&mut self, claimed: Result<(), GpioError>) -> (out: Result<Option<PinWrite>, Error>)
        ensures
            !final(self).state,
            final(self).bcm_pin == old(self).bcm_pin,
            final(self).simulation() == old(self).simulation(),
            final(self).is_setup() == (old(self).is_setup() || old(self).simulation()
                || claimed is Ok),
            out is Err <==> old(self).must_acquire() && claimed is Err,
            out matches Err(error) ==> error == Error::Gpio(claimed->Err_0),
            out matches Ok(write) ==> write == driven(
                old(self).simulation(),
                old(self).bcm_pin,
                false,
            ),
    {
        self.write(false, claimed)
    }

    /// Turns the light on if it is off, and off if it is on.
    pub fn toggle(&mut self, claimed: Result<(), GpioError>) -> (out: Result<
        Option<PinWrite>,
        Error,
    >)
        ensures
            final(self).state == !old(self).state,
            final(self).bcm_pin == old(self).bcm_pin,
            final(self).simulation() == old(self).simulation(),
            final(self).is_setup() == (old(self).is_setup() || old(self).simulation()
                || claimed is Ok),
            out is Err <==> old(self).must_acquire() && claimed is Err,
            out matches Err(error) ==> error == Error::Gpio(claimed->Err_0),
            out matches Ok(write) ==> write == driven(
                old(self).simulation(),
                old(self).bcm_pin,
                !old(self).state,
            ),
    {
        let state = !self.state;
        self.write(state, claimed)
    }
}

/// The three lights of the board.
#[derive(Debug)]
pub struct Lights {
    /// Red light.
    pub red: Light,
    /// Green light.
    pub green: Light,
    /// Blue light.
    pub blue: Light,
}

impl Lights {
    /// Creates the set of lights, each on its own pin and off.
    pub fn new() -> (out: Result<Lights, Error>)
        ensures
            out matches Ok(lights) && lights.red.bcm_pin == GPIO_LIGHT_RED
                && lights.green.bcm_pin == GPIO_LIGHT_GREEN && lights.blue.bcm_pin
                == GPIO_LIGHT_BLUE && !lights.red.state && !lights.green.state
                && !lights.blue.state && !lights.red.is_setup() && !lights.green.is_setup()
                && !lights.blue.is_setup() && !lights.red.simulation()
                && !lights.green.simulation() && !lights.blue.simulation(),
    {
        let red = Light::new(GPIO_LIGHT_RED)?;
        let green = Light::new(GPIO_LIGHT_GREEN)?;
        let blue = Light::new(GPIO_LIGHT_BLUE)?;
        Ok(Lights { red, green, blue })
    }

    /// Sets the state of each light.
    ///
    /// Every light keeps its state and is set up if that has not happened
    /// yet, each with the outcome of claiming its own line, as in
    /// `Light::write`. If a claim that was due has failed, the error of the
    /// first such light, in the order red, green, blue, is handed back. Else
    /// the result holds the writes to perform, in that order and without
    /// those of simulated lights.
    pub fn rgb(
        &mut self,
        r: bool,
        g: bool,
        b: bool,
        red_claimed: Result<(), GpioError>,
        green_claimed: Result<(), GpioError>,
        blue_claimed: Result<(), GpioError>,
    ) -> (out: Result<Vec<PinWrite>, Error>)
        ensures
            final(self).red.state == r,
            final(self).green.state == g,
            final(self).blue.state == b,
            final(self).red.bcm_pin == old(self).red.bcm_pin,
            final(self).green.bcm_pin == old(self).green.bcm_pin,
            final(self).blue.bcm_pin == old(self).blue.bcm_pin,
            final(self).red.simulation() == old(self).red.simulation(),
            final(self).green.simulation() == old(self).green.simulation(),
            final(self).blue.simulation() == old(self).blue.simulation(),
            final(self).red.is_setup() == (old(self).red.is_setup() || old(self).red.simulation()
                || red_claimed is Ok),
            final(self).green.is_setup() == (old(self).green.is_setup()
                || old(self).green.simulation() || green_claimed is Ok),
            final(self).blue.is_setup() == (old(self).blue.is_setup()
                || old(self).blue.simulation() || blue_claimed is Ok),
            out is Err <==> (old(self).red.must_acquire() && red_claimed is Err) || (old(
                self,
            ).green.must_acquire() && green_claimed is Err) || (old(self).blue.must_acquire()
                && blue_claimed is Err),
            out matches Err(error) ==> error == Error::Gpio(
                if old(self).red.must_acquire() && red_claimed is Err {
                    red_claimed->Err_0
                } else if old(self).green.must_acquire() && green_claimed is Err {
                    green_claimed->Err_0
                } else {
                    blue_claimed->Err_0
                },
            ),
            out matches Ok(plan) ==> plan@ == steps(
                driven(old(self).red.simulation(), old(self).red.bcm_pin, r),
            ) + steps(driven(old(self).green.simulation(), old(self).green.bcm_pin, g)) + steps(
                driven(old(self).blue.simulation(), old(self).blue.bcm_pin, b),
            ),
    {
        let red = self.red.write(r, red_claimed);
        let green = self.green.write(g, green_claimed);
        let blue = self.blue.write(b, blue_claimed);
        let mut plan: Vec<PinWrite> = Vec::new();
        if let Some(write) = red? {
            plan.push(write);
        }
        if let Some(write) = green? {
            plan.push(write);
        }
        if let Some(write) = blue? {
            plan.push(write);
        }
        Ok(plan)
    }

    /// Sets the state of all the lights, as `rgb` does with one state for the
    /// three.
    pub fn all(
        &mut self,
        state: bool,
        red_claimed: Result<(), GpioError>,
        green_claimed: Result<(), GpioError>,
        blue_claimed: Result<(), GpioError>,
    ) -> (out: Result<Vec<PinWrite>, Error>)
        ensures
            final(self).red.state == state,
            final(self).green.state == state,
            final(self).blue.state == state,
            final(self).red.bcm_pin == old(self).red.bcm_pin,
            final(self).green.bcm_pin == old(self).green.bcm_pin,
            final(self).blue.bcm_pin == old(self).blue.bcm_pin,
            final(self).red.simulation() == old(self).red.simulation(),
            final(self).green.simulation() == old(self).green.simulation(),
            final(self).blue.simulation() == old(self).blue.simulation(),
            final(self).red.is_setup() == (old(self).red.is_setup() || old(self).red.simulation()
                || red_claimed is Ok),
            final(self).green.is_setup() == (old(self).green.is_setup()
                || old(self).green.simulation() || green_claimed is Ok),
            final(self).blue.is_setup() == (old(self).blue.is_setup()
                || old(self).blue.simulation() || blue_claimed is Ok),
            out is Err <==> (old(self).red.must_acquire() && red_claimed is Err) || (old(
                self,
            ).green.must_acquire() && green_claimed is Err) || (old(self).blue.must_acquire()
                && blue_claimed is Err),
            out matches Err(error) ==> error == Error::Gpio(
                if old(self).red.must_acquire() && red_claimed is Err {
                    red_claimed->Err_0
                } else if old(self).green.must_acquire() && green_claimed is Err {
                    green_claimed->Err_0
                } else {
                    blue_claimed->Err_0
                },
            ),
            out matches Ok(plan) ==> plan@ == steps(
                driven(old(self).red.simulation(), old(self).red.bcm_pin, state),
            ) + steps(driven(old(self).green.simulation(), old(self).green.bcm_pin, state))
                + steps(driven(old(self).blue.simulation(), old(self).blue.bcm_pin, state)),
    {
        self.rgb(state, state, state, red_claimed, green_claimed, blue_claimed)
    }

    /// Turns simulation on for the three lights.
    pub fn enable_simulation(&mut self)
        requires
            !old(self).red.is_setup() || old(self).red.simulation(),
            !old(self).green.is_setup() || old(self).green.simulation(),
            !old(self).blue.is_setup() || old(self).blue.simulation(),
        ensures
            final(self).red.simulation(),
            final(self).green.simulation(),
            final(self).blue.simulation(),
            final(self).red.is_setup() == old(self).red.is_setup(),
            final(self).green.is_setup() == old(self).green.is_setup(),
            final(self).blue.is_setup() == old(self).blue.is_setup(),
            final(self).red.bcm_pin == old(self).red.bcm_pin,
            final(self).green.bcm_pin == old(self).green.bcm_pin,
            final(self).blue.bcm_pin == old(self).blue.bcm_pin,
            final(self).red.state == old(self).red.state,
            final(self).green.state == old(self).green.state,
            final(self).blue.state == old(self).blue.state,
    {
        self.red.enable_simulation();
        self.green.enable_simulation();
        self.blue.enable_simulation();
    }
}

} // verus!
