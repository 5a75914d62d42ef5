//! The piezo buzzer of the board.
//!
//! A tone is a square wave on the buzzer's line. The driver takes the
//! frequency and the duration of a tone as bit patterns of IEEE 754
//! double-precision numbers (what `f64::to_bits` returns) and hands them on
//! in the plan of a note as they are.

use vstd::prelude::*;
use rppal::gpio::Error as GpioError;
use crate::lifecycle::Lifecycle;

verus! {

/// GPIO BCM pin number of the buzzer.
pub const GPIO_BUZZER: u8 = 13;

/// Share of each period of a tone, in percent, during which the line is
/// high.
pub const DUTY_CYCLE_PERCENT: u8 = 90;

/// The bit pattern of positive infinity, the largest pattern of a positive
/// number.
pub const POSITIVE_INFINITY: u64 = 0x7FF0_0000_0000_0000;

/// One step of playing a note.
#[derive(Clone, Copy, Debug, PartialEq, Eq, Structural)]
pub enum Tone {
    /// Start a square wave of `frequency` hertz, with the line high for
    /// `DUTY_CYCLE_PERCENT` percent of each period.
    Sound { frequency: u64 },
    /// Wait `duration` seconds.
    Hold { duration: u64 },
    /// Stop the square wave.
    Silence,
}

/// Errors that can occur.
#[derive(Debug)]
pub enum Error {
    /// The GPIO line could not be claimed or driven.
    Gpio(GpioError),
}

impl From<GpioError> for Error {
    fn from(err: GpioError) -> (error: Error) {
        Error::Gpio(err)
    }
}

impl vstd::std_specs::convert::FromSpecImpl<GpioError> for Error {
    open spec fn obeys_from_spec() -> bool {
        true
    }

    open spec fn from_spec(err: GpioError) -> Error {
        Error::Gpio(err)
    }
}

/// Whether `bits` denotes a number above zero: the sign bit is clear and the
/// pattern is neither that of zero nor that of a NaN.
pub open spec fn is_positive(bits: u64) -> bool {
    0 < bits <= POSITIVE_INFINITY
}

/// The plan of a note: the tone starts, lasts, and stops.
pub open spec fn note_plan(frequency: u64, duration: u64) -> Seq<Tone> {
    seq![Tone::Sound { frequency }, Tone::Hold { duration }, Tone::Silence]
}

/// What a plan comes to for a driver: nothing if the buzzer is simulated.
pub open spec fn played(simulation: bool, plan: Seq<Tone>) -> Seq<Tone> {
    if simulation {
        Seq::empty()
    } else {
        plan
    }
}

/// A simulated buzzer is handed nothing to play, whatever the plan, and any
/// other buzzer is handed the plan as it is.
pub proof fn lemma_simulation_plays_nothing(plan: Seq<Tone>)
    ensures
        played(true, plan).len() == 0,
        played(false, plan) == plan,
{
}

/// The buzzer on the board.
#[derive(Debug)]
pub struct Buzzer {
    life: Lifecycle,
}

impl Buzzer {
    pub closed spec fn spec_is_setup(&self) -> bool {
        self.life.is_setup()
    }

    pub closed spec fn spec_simulation(&self) -> bool {
        self.life.simulation()
    }

    pub open spec fn spec_must_acquire(&self) -> bool {
        !self.is_setup() && !self.simulation()
    }

    /// Creates a buzzer.
    pub fn new() -> (out: Result<Buzzer, Error>)
        ensures
            out matches Ok(buzzer) && !buzzer.is_setup() && !buzzer.simulation(),
    {
        Ok(Buzzer { life: Lifecycle::new() })
    }

    /// Whether setup has completed.
    #[verifier::when_used_as_spec(spec_is_setup)]
    pub fn is_setup(&self) -> (done: bool)
        ensures
            done == self.is_setup(),
    {
        self.life.is_setup()
    }

    /// Whether the buzzer is simulated.
    #[verifier::when_used_as_spec(spec_simulation)]
    pub fn simulation(&self) -> (simulated: bool)
        ensures
            simulated == self.simulation(),
    {
        self.life.simulation()
    }

    /// Whether the line has to be claimed before the next operation that
    /// takes the outcome of doing so.
    #[verifier::when_used_as_spec(spec_must_acquire)]
    pub fn must_acquire(&self) -> (due: bool)
        ensures
            due == self.must_acquire(),
    {
        self.life.must_acquire()
    }

    /// Turns simulation on: from now on the line is never claimed and no
    /// operation hands back anything to play.
    pub fn enable_simulation(&mut self)
        requires
            !old(self).is_setup() || old(self).simulation(),
        ensures
            final(self).simulation(),
            final(self).is_setup() == old(self).is_setup(),
    {
        self.life.enable_simulation();
    }

    /// Whether `frequency` can be played: it has to be above zero.
    pub fn accepts(frequency: u64) -> (accepted: bool)
        ensures
            accepted == is_positive(frequency),
    {
        0 < frequency && frequency <= POSITIVE_INFINITY
    }

    /// Sets the buzzer up.
    ///
    /// `claimed` is the outcome of claiming the line as an output and is
    /// looked at only where `must_acquire()` holds. Once set up, the driver
    /// stays set up and further calls change nothing.
    pub fn setup(&mut self, claimed: Result<(), GpioError>) -> (out: Result<(), Error>)
        ensures
            final(self).simulation() == old(self).simulation(),
            final(self).is_setup() == (old(self).is_setup() || old(self).simulation()
                || claimed is Ok),
            out is Err <==> old(self).must_acquire() && claimed is Err,
            out matches Err(error) ==> error == Error::Gpio(claimed->Err_0),
    {
        match self.life.setup(claimed) {
            Ok(()) => Ok(()),
            Err(fault) => Err(Error::from(fault)),
        }
    }

    /// Plays a single note of `frequency` hertz for `duration` seconds.
    ///
    /// The driver is set up first if that has not happened yet, with
    /// `claimed` as in `setup`; if that fails, the error is handed back. Else
    /// the result is the plan of the note, or nothing if the buzzer is
    /// simulated.
    pub fn note(&mut self, frequency: u64, duration: u64, claimed: Result<(), GpioError>) -> (out:
        Result<Vec<Tone>, Error>)
        requires
            is_positive(frequency),
        ensures
            final(self).simulation() == old(self).simulation(),
            final(self).is_setup() == (old(self).is_setup() || old(self).simulation()
                || claimed is Ok),
            out is Err <==> old(self).must_acquire() && claimed is Err,
            out matches Err(error) ==> error == Error::Gpio(claimed->Err_0),
            out matches Ok(plan) ==> plan@ == played(
                old(self).simulation(),
                note_plan(frequency, duration),
            ),
    {
        self.setup(claimed)?;
        let mut plan: Vec<Tone> = Vec::new();
        if !self.life.simulation() {
            plan.push(Tone::Sound { frequency });
            plan.push(Tone::Hold { duration });
            plan.push(Tone::Silence);
        }
        Ok(plan)
    }

    /// Silences the buzzer at once.
    ///
    /// The driver is set up first if that has not happened yet, with
    /// `claimed` as in `setup`; if that fails, the error is handed back. Else
    /// the result is the one step that stops the tone, or nothing if the
    /// buzzer is simulated.
    pub fn stop(&mut self, claimed: Result<(), GpioError>) -> (out: Result<Vec<Tone>, Error>)
        ensures
            final(self).simulation() == old(self).simulation(),
            final(self).is_setup() == (old(self).is_setup() || old(self).simulation()
                || claimed is Ok),
            out is Err <==> old(self).must_acquire() && claimed is Err,
            out matches Err(error) ==> error == Error::Gpio(claimed->Err_0),
            out matches Ok(plan) ==> plan@ == played(old(self).simulation(), seq![Tone::Silence]),
    {
        self.setup(claimed)?;
        let mut plan: Vec<Tone> = Vec::new();
        if !self.life.simulation() {
            plan.push(Tone::Silence);
        }
        Ok(plan)
    }
}

} // verus!
