//! The chain of seven addressable RGB LEDs.
//!
//! The chain has no bus controller of its own: a frame is clocked out bit by
//! bit on three GPIO lines. The driver keeps the pixel buffer and turns it into
//! the exact sequence of line changes that makes up a frame.

use vstd::prelude::*;
use rppal::gpio::Error as GpioError;
use crate::brightness::is_unit;
use crate::brightness::nearest_level;
use crate::brightness::quantize;
use crate::brightness::MAX_LEVEL;
use crate::lifecycle::Lifecycle;

verus! {

/// GPIO BCM pin number of the data line.
pub const GPIO_DAT: u8 = 10;

/// GPIO BCM pin number of the clock line.
pub const GPIO_CLK: u8 = 11;

/// GPIO BCM pin number of the chip-select line.
pub const GPIO_CS: u8 = 8;

/// Number of pixels in the chain.
pub const NUM_PIXELS: usize = 7;

/// Milliseconds to let the lines settle after each clock edge.
pub const SLEEP_TIME: u64 = 0;

/// Clock pulses of the start frame.
pub const START_PULSES: usize = 32;

/// Clock pulses of the end frame, enough to latch a chain of seven pixels.
pub const END_PULSES: usize = 36;

/// The marker in the three high bits of the first byte of a pixel.
pub const PIXEL_MARKER: u8 = 0b1110_0000;

/// One of the three lines that the chain hangs on.
#[derive(Clone, Copy, Debug, PartialEq, Eq, Structural)]
pub enum Line {
    Data,
    Clock,
    ChipSelect,
}

/// One step of a frame.
#[derive(Clone, Copy, Debug, PartialEq, Eq, Structural)]
pub enum Signal {
    /// Drive `line` high or low.
    Drive { line: Line, high: bool },
    /// Wait `SLEEP_TIME` milliseconds.
    Settle,
}

/// One pixel of the chain: its colour, and its brightness as a level from 0 to
/// 31.
#[derive(Clone, Copy, Debug, PartialEq, Eq, Structural)]
pub struct Pixel {
    pub red: u8,
    pub green: u8,
    pub blue: u8,
    pub level: u8,
}

/// Errors that can occur.
#[derive(Debug)]
pub enum Error {
    /// The GPIO lines could not be claimed.
    Gpio(GpioError),
}

impl From<GpioError> for Error {
    fn from(err: GpioError) -> (error: Error) {
        Error::Gpio(err)
    }
}

impl vstd::std_specs::convert::FromSpecImpl<GpioError> for Error {
    open spec fn obeys_from_spec() -> bool {
        true
    }

    open spec fn from_spec(err: GpioError) -> Error {
        Error::Gpio(err)
    }
}

impl Line {
    /// The GPIO BCM pin number of the line.
    pub fn bcm_pin(self) -> (pin: u8)
        ensures
            pin == match self {
                Line::Data => GPIO_DAT,
                Line::Clock => GPIO_CLK,
                Line::ChipSelect => GPIO_CS,
            },
    {
        match self {
            Line::Data => GPIO_DAT,
            Line::Clock => GPIO_CLK,
            Line::ChipSelect => GPIO_CS,
        }
    }
}

/// Bit `n` of `byte`, bit 0 being the least significant.
pub open spec fn bit_at(byte: u8, n: u8) -> bool {
    byte & (1u8 << n) != 0
}

/// One clock pulse: the clock line goes high and low again, with a pause
/// after each edge.
pub open spec fn clock_pulse() -> Seq<Signal> {
    seq![
        Signal::Drive { line: Line::Clock, high: true },
        Signal::Settle,
        Signal::Drive { line: Line::Clock, high: false },
        Signal::Settle,
    ]
}

/// `count` clock pulses.
pub open spec fn clock_pulses(count: nat) -> Seq<Signal>
    decreases count,
{
    if count == 0 {
        Seq::empty()
    } else {
        clock_pulses((count - 1) as nat) + clock_pulse()
    }
}

/// One bit on the wire: the data line takes the bit's value, then the clock
/// pulses once.
pub open spec fn bit_signals(bit: bool) -> Seq<Signal> {
    seq![Signal::Drive { line: Line::Data, high: bit }] + clock_pulse()
}

/// The `count` most significant bits of `byte` on the wire, the most
/// significant first.
pub open spec fn leading_bits_signals(byte: u8, count: nat) -> Seq<Signal>
    decreases count,
{
    if count == 0 {
        Seq::empty()
    } else {
        leading_bits_signals(byte, (count - 1) as nat) + bit_signals(
            bit_at(byte, (8 - count) as u8),
        )
    }
}

/// One byte on the wire, most significant bit first.
pub open spec fn byte_signals(byte: u8) -> Seq<Signal> {
    leading_bits_signals(byte, 8)
}

/// One pixel on the wire: the marker with the brightness level, then blue,
/// green and red.
pub open spec fn pixel_signals(pixel: Pixel) -> Seq<Signal> {
    byte_signals(PIXEL_MARKER | pixel.level) + byte_signals(pixel.blue) + byte_signals(
        pixel.green,
    ) + byte_signals(pixel.red)
}

/// The first `count` pixels on the wire, in order.
pub open spec fn leading_pixels_signals(pixels: Seq<Pixel>, count: nat) -> Seq<Signal>
    decreases count,
{
    if count == 0 {
        Seq::empty()
    } else {
        leading_pixels_signals(pixels, (count - 1) as nat) + pixel_signals(pixels[count - 1])
    }
}

/// The start of a frame: 32 clock pulses with the data line low.
pub open spec fn start_frame() -> Seq<Signal> {
    seq![Signal::Drive { line: Line::Data, high: false }] + clock_pulses(START_PULSES as nat)
}

/// The end of a frame: 36 clock pulses with the data line low.
pub open spec fn end_frame() -> Seq<Signal> {
    seq![Signal::Drive { line: Line::Data, high: false }] + clock_pulses(END_PULSES as nat)
}

/// A whole frame: chip select goes low, then come the start of the frame,
/// every pixel in order and the end of the frame, and chip select goes high
/// again.
pub open spec fn frame(pixels: Seq<Pixel>) -> Seq<Signal> {
    seq![Signal::Drive { line: Line::ChipSelect, high: false }] + start_frame()
        + leading_pixels_signals(pixels, pixels.len()) + end_frame()
        + seq![Signal::Drive { line: Line::ChipSelect, high: true }]
}

/// What `show` hands back: nothing for a simulated chain, else the frame.
pub open spec fn shown(pixels: Seq<Pixel>, simulation: bool) -> Seq<Signal> {
    if simulation {
        Seq::empty()
    } else {
        frame(pixels)
    }
}

/// A simulated chain is handed nothing to send, whatever its buffer holds,
/// and any other chain is handed the frame of its buffer.
pub proof fn lemma_simulation_sends_no_signal(pixels: Seq<Pixel>)
    ensures
        shown(pixels, true).len() == 0,
        shown(pixels, false) == frame(pixels),
{
}

/// The pixel that `set_pixel` stores: the colour as given, and the level
/// nearest to 31 times the brightness.
pub open spec fn lit(r: u8, g: u8, b: u8, brightness: u32) -> Pixel {
    Pixel { red: r, green: g, blue: b, level: nearest_level(brightness) as u8 }
}

/// `pixel` with its colour gone and its level kept.
pub open spec fn cleared(pixel: Pixel) -> Pixel {
    Pixel { red: 0, green: 0, blue: 0, level: pixel.level }
}

/// `pixel` with its colour kept, at the level nearest to 31 times the
/// brightness.
pub open spec fn dimmed(pixel: Pixel, brightness: u32) -> Pixel {
    Pixel {
        red: pixel.red,
        green: pixel.green,
        blue: pixel.blue,
        level: nearest_level(brightness) as u8,
    }
}

/// Driver of the LED chain.
#[derive(Debug)]
pub struct APA102 {
    pixels: [Pixel; NUM_PIXELS],
    life: Lifecycle,
}

impl APA102 {
    #[verifier::type_invariant]
    spec fn levels_in_range(&self) -> bool {
        forall|i: int| 0 <= i < NUM_PIXELS ==> (#[trigger] self.pixels[i]).level <= MAX_LEVEL
    }

    pub closed spec fn spec_pixels(&self) -> [Pixel; NUM_PIXELS] {
        self.pixels
    }

    pub closed spec fn spec_is_setup(&self) -> bool {
        self.life.is_setup()
    }

    pub closed spec fn spec_simulation(&self) -> bool {
        self.life.simulation()
    }

    pub open spec fn spec_must_acquire(&self) -> bool {
        !self.is_setup() && !self.simulation()
    }

    /// Creates a driver with every pixel black and at level 0.
    pub fn new() -> (out: Result<APA102, Error>)
        ensures
            out matches Ok(chain) && !chain.is_setup() && !chain.simulation() && chain.pixels()@
                == Seq::new(
                NUM_PIXELS as nat,
                |i: int| Pixel { red: 0, green: 0, blue: 0, level: 0 },
            ),
    {
        let dark = Pixel { red: 0, green: 0, blue: 0, level: 0 };
        let chain = APA102 { pixels: [dark; NUM_PIXELS], life: Lifecycle::new() };
        Ok(chain)
    }

    /// The pixel buffer. Every level in it is at most 31.
    #[verifier::when_used_as_spec(spec_pixels)]
    pub fn pixels(&self) -> (pixels: [Pixel; NUM_PIXELS])
        ensures
            pixels == self.pixels(),
            forall|i: int| 0 <= i < NUM_PIXELS ==> (#[trigger] pixels[i]).level <= MAX_LEVEL,
    {
        proof {
            use_type_invariant(self);
        }
        self.pixels
    }

    /// Whether setup has completed.
    #[verifier::when_used_as_spec(spec_is_setup)]
    pub fn is_setup(&self) -> (done: bool)
        ensures
            done == self.is_setup(),
    {
        self.life.is_setup()
    }

    /// Whether the chain is simulated.
    #[verifier::when_used_as_spec(spec_simulation)]
    pub fn simulation(&self) -> (simulated: bool)
        ensures
            simulated == self.simulation(),
    {
        self.life.simulation()
    }

    /// Whether the three lines have to be claimed before the next `setup`,
    /// `show` or `exit`.
    #[verifier::when_used_as_spec(spec_must_acquire)]
    pub fn must_acquire(&self) -> (due: bool)
        ensures
            due == self.must_acquire(),
    {
        self.life.must_acquire()
    }

    /// Turns simulation on: from now on nothing is claimed and `show` hands
    /// back nothing to send.
    pub fn enable_simulation(&mut self)
        requires
            !old(self).is_setup() || old(self).simulation(),
        ensures
            final(self).simulation(),
            final(self).is_setup() == old(self).is_setup(),
            final(self).pixels() == old(self).pixels(),
    {
        proof {
            use_type_invariant(&*self);
        }
        self.life.enable_simulation();
    }

    /// Initializes the driver.
    ///
    /// `claimed` is the outcome of claiming the three lines as outputs and is
    /// looked at only where `must_acquire()` holds. Once set up, the driver
    /// stays set up and further calls change nothing.
    pub fn setup(&mut self, claimed: Result<(), GpioError>) -> (out: Result<(), Error>)
        ensures
            final(self).pixels() == old(self).pixels(),
            final(self).simulation() == old(self).simulation(),
            final(self).is_setup() == (old(self).is_setup() || old(self).simulation()
                || claimed is Ok),
            out is Err <==> old(self).must_acquire() && claimed is Err,
            out matches Err(error) ==> error == Error::Gpio(claimed->Err_0),
    {
        proof {
            use_type_invariant(&*self);
        }
        match self.life.setup(claimed) {
            Ok(()) => Ok(()),
            Err(fault) => Err(Error::from(fault)),
        }
    }

    /// Sets the colour and the brightness of one pixel.
    ///
    /// `brightness` is a number from 0 to 1 as an IEEE 754 single-precision
    /// bit pattern; the pixel gets the level nearest to 31 times that number.
    /// A position past the end of the chain is ignored.
    pub fn set_pixel(&mut self, x: usize, r: u8, g: u8, b: u8, brightness: u32)
        requires
            is_unit(brightness),
        ensures
            final(self).is_setup() == old(self).is_setup(),
            final(self).simulation() == old(self).simulation(),
            final(self).pixels()@ == if x < NUM_PIXELS {
                old(self).pixels()@.update(x as int, lit(r, g, b, brightness))
            } else {
                old(self).pixels()@
            },
    {
        proof {
            use_type_invariant(&*self);
        }
        let level = quantize(brightness);
        if x < NUM_PIXELS {
            self.pixels[x] = Pixel { red: r, green: g, blue: b, level };
        }
    }

    /// Sets the colour and the brightness of every pixel.
    pub fn set_all(&mut self, r: u8, g: u8, b: u8, brightness: u32)
        requires
            is_unit(brightness),
        ensures
            final(self).is_setup() == old(self).is_setup(),
            final(self).simulation() == old(self).simulation(),
            final(self).pixels()@ == Seq::new(
                NUM_PIXELS as nat,
                |i: int| lit(r, g, b, brightness),
            ),
    {
        let mut i: usize = 0;
        while i < NUM_PIXELS
            invariant
                i <= NUM_PIXELS,
                is_unit(brightness),
                self.is_setup() == old(self).is_setup(),
                self.simulation() == old(self).simulation(),
                forall|j: int| 0 <= j < i ==> self.pixels()@[j] == lit(r, g, b, brightness),
            decreases NUM_PIXELS - i,
        {
            self.set_pixel(i, r, g, b, brightness);
            i += 1;
        }
    }

    /// Sets the brightness of every pixel and leaves the colours as they are.
    pub fn set_brightness(&mut self, brightness: u32)
        requires
            is_unit(brightness),
        ensures
            final(self).is_setup() == old(self).is_setup(),
            final(self).simulation() == old(self).simulation(),
            final(self).pixels()@ == old(self).pixels()@.map_values(
                |pixel: Pixel| dimmed(pixel, brightness),
            ),
    {
        proof {
            use_type_invariant(&*self);
        }
        let level = quantize(brightness);
        let mut i: usize = 0;
        while i < NUM_PIXELS
            invariant
                i <= NUM_PIXELS,
                level == nearest_level(brightness),
                level <= MAX_LEVEL,
                self.life == old(self).life,
                forall|j: int|
                    0 <= j < i ==> self.pixels@[j] == dimmed(old(self).pixels@[j], brightness),
                forall|j: int| i <= j < NUM_PIXELS ==> self.pixels@[j] == old(self).pixels@[j],
            decreases NUM_PIXELS - i,
        {
            proof {
                use_type_invariant(&*self);
            }
            let pixel = self.pixels[i];
            self.pixels[i] = Pixel { red: pixel.red, green: pixel.green, blue: pixel.blue, level };
            i += 1;
        }
    }

    /// Clears the colour of every pixel. The brightness levels stay as they
    /// are.
    pub fn clear(&mut self)
        ensures
            final(self).is_setup() == old(self).is_setup(),
            final(self).simulation() == old(self).simulation(),
            final(self).pixels()@ == old(self).pixels()@.map_values(|pixel: Pixel| cleared(pixel)),
    {
        let mut i: usize = 0;
        while i < NUM_PIXELS
            invariant
                i <= NUM_PIXELS,
                self.life == old(self).life,
                forall|j: int| 0 <= j < i ==> self.pixels@[j] == cleared(old(self).pixels@[j]),
                forall|j: int| i <= j < NUM_PIXELS ==> self.pixels@[j] == old(self).pixels@[j],
            decreases NUM_PIXELS - i,
        {
            proof {
                use_type_invariant(&*self);
            }
            let pixel = self.pixels[i];
            self.pixels[i] = Pixel { red: 0, green: 0, blue: 0, level: pixel.level };
            i += 1;
        }
    }
    /// Gets the bit at position `n` of `byte`, position 0 being the least
    /// significant.
    pub fn get_bit_at(byte: u8, n: u8) -> (bit: bool)
        requires
            n < 8,
        ensures
            bit == bit_at(byte, n),
    {
        byte & (1u8 << n) != 0
    }

    /// Adds one clock pulse to a plan.
    fn pulse(plan: &mut Vec<Signal>)
        ensures
            final(plan)@ == old(plan)@ + clock_pulse(),
    {
        plan.push(Signal::Drive { line: Line::Clock, high: true });
        plan.push(Signal::Settle);
        plan.push(Signal::Drive { line: Line::Clock, high: false });
        plan.push(Signal::Settle);
    }

    /// Adds `count` clock pulses with the data line low to a plan.
    fn idle(plan: &mut Vec<Signal>, count: usize)
        ensures
            final(plan)@ == old(plan)@ + seq![Signal::Drive { line: Line::Data, high: false }]
                + clock_pulses(count as nat),
    {
        plan.push(Signal::Drive { line: Line::Data, high: false });
        let mut sent: usize = 0;
        while sent < count
            invariant
                sent <= count,
                plan@ == old(plan)@ + seq![Signal::Drive { line: Line::Data, high: false }]
                    + clock_pulses(sent as nat),
            decreases count - sent,
        {
            Self::pulse(plan);
            sent += 1;
        }
    }

    /// Adds one byte to a plan, most significant bit first.
    fn write_byte(plan: &mut Vec<Signal>, byte: u8)
        ensures
            final(plan)@ == old(plan)@ + byte_signals(byte),
    {
        let mut sent: u8 = 0;
        while sent < 8
            invariant
                sent <= 8,
                plan@ == old(plan)@ + leading_bits_signals(byte, sent as nat),
            decreases 8 - sent,
        {
            let bit = Self::get_bit_at(byte, 7 - sent);
            plan.push(Signal::Drive { line: Line::Data, high: bit });
            Self::pulse(plan);
            sent += 1;
        }
    }

    /// Adds the start of a frame to a plan.
    fn sof(plan: &mut Vec<Signal>)
        ensures
            final(plan)@ == old(plan)@ + start_frame(),
    {
        Self::idle(plan, START_PULSES);
    }

    /// Adds the end of a frame to a plan.
    fn eof(plan: &mut Vec<Signal>)
        ensures
            final(plan)@ == old(plan)@ + end_frame(),
    {
        Self::idle(plan, END_PULSES);
    }

    /// Outputs the buffer.
    ///
    /// Sets the driver up first if that has not happened yet; `claimed` is the
    /// outcome of claiming the three lines and is looked at only where
    /// `must_acquire()` holds. If the lines could not be claimed, the error is
    /// handed back and the driver is not set up. Else the result is what has
    /// to be sent: nothing for a simulated chain, one frame otherwise. The
    /// buffer stays as it is.
    pub fn show(&mut self, claimed: Result<(), GpioError>) -> (out: Result<Vec<Signal>, Error>)
        ensures
            final(self).pixels() == old(self).pixels(),
            final(self).simulation() == old(self).simulation(),
            final(self).is_setup() == (old(self).is_setup() || old(self).simulation()
                || claimed is Ok),
            out is Err <==> old(self).must_acquire() && claimed is Err,
            out matches Err(error) ==> error == Error::Gpio(claimed->Err_0),
            out matches Ok(plan) ==> plan@ == shown(old(self).pixels()@, old(self).simulation()),
    {
        self.setup(claimed)?;
        let mut plan: Vec<Signal> = Vec::new();
        if !self.simulation() {
            plan.push(Signal::Drive { line: Line::ChipSelect, high: false });
            Self::sof(&mut plan);
            let mut i: usize = 0;
            while i < NUM_PIXELS
                invariant
                    i <= NUM_PIXELS,
                    plan@ == seq![Signal::Drive { line: Line::ChipSelect, high: false }]
                        + start_frame() + leading_pixels_signals(self.pixels@, i as nat),
                decreases NUM_PIXELS - i,
            {
                let pixel = self.pixels[i];
                Self::write_byte(&mut plan, PIXEL_MARKER | pixel.level);
                Self::write_byte(&mut plan, pixel.blue);
                Self::write_byte(&mut plan, pixel.green);
                Self::write_byte(&mut plan, pixel.red);
                i += 1;
            }
            Self::eof(&mut plan);
            plan.push(Signal::Drive { line: Line::ChipSelect, high: true });
        }
        Ok(plan)
    }

    /// Turns every pixel off: clears the buffer and outputs it.
    pub fn exit(&mut self, claimed: Result<(), GpioError>) -> (out: Result<Vec<Signal>, Error>)
        ensures
            final(self).pixels()@ == old(self).pixels()@.map_values(|pixel: Pixel| cleared(pixel)),
            final(self).simulation() == old(self).simulation(),
            final(self).is_setup() == (old(self).is_setup() || old(self).simulation()
                || claimed is Ok),
            out is Err <==> old(self).must_acquire() && claimed is Err,
            out matches Err(error) ==> error == Error::Gpio(claimed->Err_0),
            out matches Ok(plan) ==> plan@ == shown(final(self).pixels()@, old(self).simulation()),
    {
        self.clear();
        self.show(claimed)
    }
}

} // verus!
