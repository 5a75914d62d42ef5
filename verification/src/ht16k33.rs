//! The HT16K33 LED controller behind the alphanumeric display.
//!
//! The driver keeps the display buffer and the controller's settings and says
//! which block writes have to go over the I2C bus.

use vstd::prelude::*;
use rppal::i2c::Error as I2cError;
use crate::lifecycle::Lifecycle;

verus! {

/// I2C address of the controller.
pub const DEFAULT_ADDRESS: u16 = 0x70;

/// Command that sets the blink rate.
pub const HT16K33_BLINK_CMD: u8 = 0x80;

/// Bit of the blink command that turns the display on.
pub const HT16K33_BLINK_DISPLAYON: u8 = 0x01;

/// Blink rate: steady.
pub const HT16K33_BLINK_OFF: u8 = 0x00;

/// Blink rate: 2 Hz.
pub const HT16K33_BLINK_2HZ: u8 = 0x02;

/// Blink rate: 1 Hz.
pub const HT16K33_BLINK_1HZ: u8 = 0x04;

/// Blink rate: 0.5 Hz.
pub const HT16K33_BLINK_HALFHZ: u8 = 0x06;

/// Command that configures the system.
pub const HT16K33_SYSTEM_SETUP: u8 = 0x20;

/// Bit of the system command that turns the oscillator on.
pub const HT16K33_OSCILLATOR: u8 = 0x01;

/// Command that sets the brightness.
pub const HT16K33_CMD_BRIGHTNESS: u8 = 0xE0;

/// Command that loads the display buffer, starting at its first byte.
pub const HT16K33_DISPLAY_DATA: u8 = 0x00;

/// Number of bytes in the display buffer.
pub const BUFFER_SIZE: usize = 8;

/// The highest brightness.
pub const MAX_BRIGHTNESS: u8 = 15;

/// One block write on the bus: a command byte and the bytes that follow it.
#[derive(Debug)]
pub struct BlockWrite {
    pub command: u8,
    pub payload: Vec<u8>,
}

impl View for BlockWrite {
    type V = (u8, Seq<u8>);

    open spec fn view(&self) -> (u8, Seq<u8>) {
        (self.command, self.payload@)
    }
}

/// Errors that can occur.
#[derive(Debug)]
pub enum Error {
    /// The bus could not be opened or written to.
    I2c(I2cError),
}

impl From<I2cError> for Error {
    fn from(err: I2cError) -> (error: Error) {
        Error::I2c(err)
    }
}

impl vstd::std_specs::convert::FromSpecImpl<I2cError> for Error {
    open spec fn obeys_from_spec() -> bool {
        true
    }

    open spec fn from_spec(err: I2cError) -> Error {
        Error::I2c(err)
    }
}

pub open spec fn spec_is_blink_frequency(frequency: u8) -> bool {
    frequency == HT16K33_BLINK_OFF || frequency == HT16K33_BLINK_2HZ || frequency
        == HT16K33_BLINK_1HZ || frequency == HT16K33_BLINK_HALFHZ
}

/// Whether `frequency` is one of the four blink rates of the controller.
#[verifier::when_used_as_spec(spec_is_blink_frequency)]
pub fn is_blink_frequency(frequency: u8) -> (legal: bool)
    ensures
        legal == is_blink_frequency(frequency),
{
    frequency == HT16K33_BLINK_OFF || frequency == HT16K33_BLINK_2HZ || frequency
        == HT16K33_BLINK_1HZ || frequency == HT16K33_BLINK_HALFHZ
}

/// The command that turns the oscillator on.
pub open spec fn oscillator_command() -> u8 {
    HT16K33_SYSTEM_SETUP | HT16K33_OSCILLATOR
}

/// The command that turns the display on at a blink rate.
pub open spec fn blink_command(frequency: u8) -> u8 {
    HT16K33_BLINK_CMD | HT16K33_BLINK_DISPLAYON | frequency
}

/// The command that sets a brightness.
pub open spec fn brightness_command(brightness: u8) -> u8 {
    HT16K33_CMD_BRIGHTNESS | brightness
}

/// What the bus sees of a write that the driver may hold back: nothing from a
/// simulated device.
pub open spec fn sent(simulation: bool, command: u8, payload: Seq<u8>) -> Option<(u8, Seq<u8>)> {
    if simulation {
        None
    } else {
        Some((command, payload))
    }
}

/// A simulated controller is handed no write, whatever the command and the
/// payload, and any other controller is handed the write as it is.
pub proof fn lemma_simulation_sends_no_write(command: u8, payload: Seq<u8>)
    ensures
        sent(true, command, payload) is None,
        sent(false, command, payload) == Some((command, payload)),
{
}

/// What a write is on the bus, if there is one.
pub open spec fn on_bus(write: Option<BlockWrite>) -> Option<(u8, Seq<u8>)> {
    match write {
        Some(write) => Some(write@),
        None => None,
    }
}

/// Driver of the HT16K33.
#[derive(Debug)]
pub struct HT16K33 {
    buffer: [u8; BUFFER_SIZE],
    blink_frequency: u8,
    brightness: u8,
    life: Lifecycle,
}

impl HT16K33 {
    #[verifier::type_invariant]
    spec fn settings_in_range(&self) -> bool {
        is_blink_frequency(self.blink_frequency) && self.brightness <= MAX_BRIGHTNESS
    }

    pub closed spec fn spec_buffer(&self) -> [u8; BUFFER_SIZE] {
        self.buffer
    }

    pub closed spec fn spec_blink_frequency(&self) -> u8 {
        self.blink_frequency
    }

    pub closed spec fn spec_brightness(&self) -> u8 {
        self.brightness
    }

    pub closed spec fn spec_is_setup(&self) -> bool {
        self.life.is_setup()
    }

    pub closed spec fn spec_simulation(&self) -> bool {
        self.life.simulation()
    }

    pub open spec fn spec_must_acquire(&self) -> bool {
        !self.is_setup() && !self.simulation()
    }

    /// Everything but the display buffer is the same in `self` and `other`.
    pub open spec fn same_controller(&self, other: &HT16K33) -> bool {
        &&& self.blink_frequency() == other.blink_frequency()
        &&& self.brightness() == other.brightness()
        &&& self.is_setup() == other.is_setup()
        &&& self.simulation() == other.simulation()
    }

    /// The writes that bring the controller up: oscillator on, then the blink
    /// rate and the brightness that the driver holds.
    pub open spec fn spec_setup_writes(&self) -> Seq<(u8, Seq<u8>)> {
        seq![
            (oscillator_command(), Seq::<u8>::empty()),
            (blink_command(self.blink_frequency()), Seq::<u8>::empty()),
            (brightness_command(self.brightness()), Seq::<u8>::empty()),
        ]
    }

    /// Creates a driver with an empty display buffer, steady display and full
    /// brightness.
    pub fn new() -> (out: Result<HT16K33, Error>)
        ensures
            out matches Ok(driver) && !driver.is_setup() && !driver.simulation()
                && driver.blink_frequency() == HT16K33_BLINK_OFF && driver.brightness()
                == MAX_BRIGHTNESS && driver.buffer()@ == Seq::new(
                BUFFER_SIZE as nat,
                |i: int| 0u8,
            ),
    {
        Ok(
            HT16K33 {
                buffer: [0u8; BUFFER_SIZE],
                blink_frequency: HT16K33_BLINK_OFF,
                brightness: MAX_BRIGHTNESS,
                life: Lifecycle::new(),
            },
        )
    }

    /// The display buffer: for each of the four positions the low byte and the
    /// high byte of its bitmask.
    #[verifier::when_used_as_spec(spec_buffer)]
    pub fn buffer(&self) -> (buffer: [u8; BUFFER_SIZE])
        ensures
            buffer == self.buffer(),
    {
        self.buffer
    }

    /// The blink rate, always one of the four that the controller knows.
    #[verifier::when_used_as_spec(spec_blink_frequency)]
    pub fn blink_frequency(&self) -> (frequency: u8)
        ensures
            frequency == self.blink_frequency(),
            is_blink_frequency(frequency),
    {
        proof {
            use_type_invariant(self);
        }
        self.blink_frequency
    }

    /// The brightness, from 0 to 15.
    #[verifier::when_used_as_spec(spec_brightness)]
    pub fn brightness(&self) -> (brightness: u8)
        ensures
            brightness == self.brightness(),
            brightness <= MAX_BRIGHTNESS,
    {
        proof {
            use_type_invariant(self);
        }
        self.brightness
    }

    /// Whether setup has completed.
    #[verifier::when_used_as_spec(spec_is_setup)]
    pub fn is_setup(&self) -> (done: bool)
        ensures
            done == self.is_setup(),
    {
        self.life.is_setup()
    }

    /// Whether the controller is simulated.
    #[verifier::when_used_as_spec(spec_simulation)]
    pub fn simulation(&self) -> (simulated: bool)
        ensures
            simulated == self.simulation(),
    {
        self.life.simulation()
    }

    /// Whether the bus has to be opened and the controller brought up before
    /// the next operation that takes the outcome of doing so.
    #[verifier::when_used_as_spec(spec_must_acquire)]
    pub fn must_acquire(&self) -> (due: bool)
        ensures
            due == self.must_acquire(),
    {
        self.life.must_acquire()
    }

    /// Turns simulation on: from now on the bus is never opened and no
    /// operation hands back a write.
    pub fn enable_simulation(&mut self)
        requires
            !old(self).is_setup() || old(self).simulation(),
        ensures
            final(self).simulation(),
            final(self).is_setup() == old(self).is_setup(),
            final(self).blink_frequency() == old(self).blink_frequency(),
            final(self).brightness() == old(self).brightness(),
            final(self).buffer() == old(self).buffer(),
    {
        proof {
            use_type_invariant(&*self);
        }
        self.life.enable_simulation();
    }

    /// Encapsulates a block write: the write is held back if the controller is
    /// simulated.
    pub fn i2c_block_write(&self, command: u8, payload: Vec<u8>) -> (write: Option<BlockWrite>)
        ensures
            on_bus(write) == sent(self.simulation(), command, payload@),
    {
        if self.life.simulation() {
            None
        } else {
            Some(BlockWrite { command, payload })
        }
    }

    /// The writes that bring the controller up once the bus is open and
    /// addressed: oscillator on, then the blink rate and the brightness that
    /// the driver holds.
    pub fn setup_writes(&self) -> (writes: Vec<BlockWrite>)
        ensures
            writes@.len() == 3,
            forall|i: int| 0 <= i < 3 ==> (#[trigger] writes@[i])@ == self.spec_setup_writes()[i],
    {
        proof {
            use_type_invariant(self);
        }
        let mut writes: Vec<BlockWrite> = Vec::new();
        writes.push(
            BlockWrite { command: HT16K33_SYSTEM_SETUP | HT16K33_OSCILLATOR, payload: Vec::new() },
        );
        writes.push(
            BlockWrite {
                command: HT16K33_BLINK_CMD | HT16K33_BLINK_DISPLAYON | self.blink_frequency,
                payload: Vec::new(),
            },
        );
        writes.push(
            BlockWrite { command: HT16K33_CMD_BRIGHTNESS | self.brightness, payload: Vec::new() },
        );
        writes
    }

    /// Initializes the driver.
    ///
    /// `ready` is the outcome of opening the bus, addressing the controller
    /// and sending it `setup_writes()`; it is looked at only where
    /// `must_acquire()` holds. Once set up, the driver stays set up and
    /// further calls change nothing.
    pub fn setup(&mut self, ready: Result<(), I2cError>) -> (out: Result<(), Error>)
        ensures
            final(self).buffer() == old(self).buffer(),
            final(self).blink_frequency() == old(self).blink_frequency(),
            final(self).brightness() == old(self).brightness(),
            final(self).simulation() == old(self).simulation(),
            final(self).is_setup() == (old(self).is_setup() || old(self).simulation()
                || ready is Ok),
            out is Err <==> old(self).must_acquire() && ready is Err,
            out matches Err(error) ==> error == Error::I2c(ready->Err_0),
    {
        proof {
            use_type_invariant(&*self);
        }
        match self.life.setup(ready) {
            Ok(()) => Ok(()),
            Err(fault) => Err(Error::from(fault)),
        }
    }

    /// Blinks the display at a rate, which has to be one of
    /// `HT16K33_BLINK_OFF`, `HT16K33_BLINK_2HZ`, `HT16K33_BLINK_1HZ` and
    /// `HT16K33_BLINK_HALFHZ`.
    ///
    /// The rate is kept in any case. The driver is set up first if that has
    /// not happened yet, with `ready` as in `setup`; if that fails, the error
    /// is handed back. Else the result is the command to send, or nothing if
    /// the controller is simulated.
    pub fn set_blink(&mut self, frequency: u8, ready: Result<(), I2cError>) -> (out: Result<
        Option<BlockWrite>,
        Error,
    >)
        requires
            is_blink_frequency(frequency),
        ensures
            final(self).blink_frequency() == frequency,
            final(self).buffer() == old(self).buffer(),
            final(self).brightness() == old(self).brightness(),
            final(self).simulation() == old(self).simulation(),
            final(self).is_setup() == (old(self).is_setup() || old(self).simulation()
                || ready is Ok),
            out is Err <==> old(self).must_acquire() && ready is Err,
            out matches Err(error) ==> error == Error::I2c(ready->Err_0),
            out matches Ok(write) ==> on_bus(write) == sent(
                old(self).simulation(),
                blink_command(frequency),
                Seq::empty(),
            ),
    {
        proof {
            use_type_invariant(&*self);
        }
        self.blink_frequency = frequency;
        self.setup(ready)?;
        Ok(
            self.i2c_block_write(
                HT16K33_BLINK_CMD | HT16K33_BLINK_DISPLAYON | frequency,
                Vec::new(),
            ),
        )
    }

    /// Sets the brightness of the whole display, from 0 to 15.
    ///
    /// The brightness is kept in any case. The driver is set up first if that
    /// has not happened yet, with `ready` as in `setup`; if that fails, the
    /// error is handed back. Else the result is the command to send, or
    /// nothing if the controller is simulated.
    pub fn set_brightness(&mut self, brightness: u8, ready: Result<(), I2cError>) -> (out: Result<
        Option<BlockWrite>,
        Error,
    >)
        requires
            brightness <= MAX_BRIGHTNESS,
        ensures
            final(self).brightness() == brightness,
            final(self).buffer() == old(self).buffer(),
            final(self).blink_frequency() == old(self).blink_frequency(),
            final(self).simulation() == old(self).simulation(),
            final(self).is_setup() == (old(self).is_setup() || old(self).simulation()
                || ready is Ok),
            out is Err <==> old(self).must_acquire() && ready is Err,
            out matches Err(error) ==> error == Error::I2c(ready->Err_0),
            out matches Ok(write) ==> on_bus(write) == sent(
                old(self).simulation(),
                brightness_command(brightness),
                Seq::empty(),
            ),
    {
        proof {
            use_type_invariant(&*self);
        }
        self.brightness = brightness;
        self.setup(ready)?;
        Ok(self.i2c_block_write(HT16K33_CMD_BRIGHTNESS | brightness, Vec::new()))
    }

    /// Writes the display buffer to the display.
    ///
    /// The driver is set up first if that has not happened yet, with `ready`
    /// as in `setup`; if that fails, the error is handed back. Else the result
    /// is one block write that carries the whole buffer, or nothing if the
    /// controller is simulated.
    pub fn write_display(&mut self, ready: Result<(), I2cError>) -> (out: Result<
        Option<BlockWrite>,
        Error,
    >)
        ensures
            final(self).buffer() == old(self).buffer(),
            final(self).blink_frequency() == old(self).blink_frequency(),
            final(self).brightness() == old(self).brightness(),
            final(self).simulation() == old(self).simulation(),
            final(self).is_setup() == (old(self).is_setup() || old(self).simulation()
                || ready is Ok),
            out is Err <==> old(self).must_acquire() && ready is Err,
            out matches Err(error) ==> error == Error::I2c(ready->Err_0),
            out matches Ok(write) ==> on_bus(write) == sent(
                old(self).simulation(),
                HT16K33_DISPLAY_DATA,
                old(self).buffer()@,
            ),
    {
        self.setup(ready)?;
        let mut payload: Vec<u8> = Vec::new();
        let mut i: usize = 0;
        while i < BUFFER_SIZE
            invariant
                i <= BUFFER_SIZE,
                payload@ == self.buffer@.take(i as int),
            decreases BUFFER_SIZE - i,
        {
            payload.push(self.buffer[i]);
            i += 1;
        }
        Ok(self.i2c_block_write(HT16K33_DISPLAY_DATA, payload))
    }

    /// Clears the display buffer.
    pub fn clear(&mut self)
        ensures
            final(self).same_controller(old(self)),
            final(self).buffer()@ == Seq::new(BUFFER_SIZE as nat, |i: int| 0u8),
    {
        let mut i: usize = 0;
        while i < BUFFER_SIZE
            invariant
                i <= BUFFER_SIZE,
                self.life == old(self).life,
                self.blink_frequency == old(self).blink_frequency,
                self.brightness == old(self).brightness,
                forall|j: int| 0 <= j < i ==> self.buffer@[j] == 0,
            decreases BUFFER_SIZE - i,
        {
            proof {
                use_type_invariant(&*self);
            }
            self.buffer[i] = 0;
            i += 1;
        }
    }

    /// Puts `value` into the display buffer at `index`. An index past the end
    /// of the buffer is ignored.
    pub fn set_buffer_byte(&mut self, index: usize, value: u8)
        ensures
            final(self).same_controller(old(self)),
            final(self).buffer()@ == if index < BUFFER_SIZE {
                old(self).buffer()@.update(index as int, value)
            } else {
                old(self).buffer()@
            },
    {
        proof {
            use_type_invariant(&*self);
        }
        if index < BUFFER_SIZE {
            self.buffer[index] = value;
        }
    }
}

} // verus!
