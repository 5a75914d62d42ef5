//! What the LED chain receives from the signals of a frame.
//!
//! The chain shifts in the level of the data line at every rising edge of
//! the clock while it is selected. This module follows the three lines through
//! a sequence of signals and shows which bits a frame delivers.

use vstd::prelude::*;
use crate::apa102::bit_at;
use crate::apa102::bit_signals;
use crate::apa102::byte_signals;
use crate::apa102::clock_pulse;
use crate::apa102::clock_pulses;
use crate::apa102::end_frame;
use crate::apa102::frame;
use crate::apa102::leading_bits_signals;
use crate::apa102::leading_pixels_signals;
use crate::apa102::pixel_signals;
use crate::apa102::start_frame;
use crate::apa102::Line;
use crate::apa102::Pixel;
use crate::apa102::Signal;
use crate::apa102::END_PULSES;
use crate::apa102::PIXEL_MARKER;
use crate::apa102::START_PULSES;

verus! {

/// The lines as the chain sees them, and the bits that it has shifted in.
pub struct Wire {
    /// The data line is high.
    pub data: bool,
    /// The clock line is high.
    pub clock: bool,
    /// The chain is selected: its chip-select line is low.
    pub selected: bool,
    /// The bits shifted in so far, the first one first.
    pub received: Seq<bool>,
}

/// The wire after one signal.
pub open spec fn after_signal(wire: Wire, signal: Signal) -> Wire {
    match signal {
        Signal::Drive { line: Line::Data, high } => Wire { data: high, ..wire },
        Signal::Drive { line: Line::Clock, high } => Wire {
            clock: high,
            received: if high && !wire.clock && wire.selected {
                wire.received.push(wire.data)
            } else {
                wire.received
            },
            ..wire
        },
        Signal::Drive { line: Line::ChipSelect, high } => Wire { selected: !high, ..wire },
        Signal::Settle => wire,
    }
}

/// The wire after a sequence of signals.
pub open spec fn after_signals(wire: Wire, signals: Seq<Signal>) -> Wire
    decreases signals.len(),
{
    if signals.len() == 0 {
        wire
    } else {
        after_signal(after_signals(wire, signals.drop_last()), signals.last())
    }
}

/// `count` bits that are all zero.
pub open spec fn zeros(count: nat) -> Seq<bool> {
    Seq::new(count, |i: int| false)
}

/// The `count` most significant bits of a byte, the most significant first.
pub open spec fn leading_bits(byte: u8, count: nat) -> Seq<bool> {
    Seq::new(count, |i: int| bit_at(byte, (7 - i) as u8))
}

/// The bits of a byte, the most significant first.
pub open spec fn byte_bits(byte: u8) -> Seq<bool> {
    leading_bits(byte, 8)
}

/// The 32 bits of a pixel: the marker with the brightness level, then blue,
/// green and red.
pub open spec fn pixel_bits(pixel: Pixel) -> Seq<bool> {
    byte_bits(PIXEL_MARKER | pixel.level) + byte_bits(pixel.blue) + byte_bits(pixel.green)
        + byte_bits(pixel.red)
}

/// The bits of the first `count` pixels, in order.
pub open spec fn leading_pixels_bits(pixels: Seq<Pixel>, count: nat) -> Seq<bool>
    decreases count,
{
    if count == 0 {
        Seq::empty()
    } else {
        leading_pixels_bits(pixels, (count - 1) as nat) + pixel_bits(pixels[count - 1])
    }
}

/// The bits of a frame: 32 zeros, every pixel in order, and 36 zeros.
pub open spec fn frame_bits(pixels: Seq<Pixel>) -> Seq<bool> {
    zeros(START_PULSES as nat) + leading_pixels_bits(pixels, pixels.len()) + zeros(
        END_PULSES as nat,
    )
}

/// A wire that took in `bits` since `before`, is selected and has its clock
/// low.
pub open spec fn took_in(after: Wire, before: Wire, bits: Seq<bool>) -> bool {
    &&& after.received == before.received + bits
    &&& after.selected
    &&& !after.clock
}

proof fn lemma_one_more(wire: Wire, signals: Seq<Signal>, signal: Signal)
    ensures
        after_signals(wire, signals.push(signal)) == after_signal(
            after_signals(wire, signals),
            signal,
        ),
{
    assert(signals.push(signal).drop_last() == signals);
}

/// Signals that follow each other act one after the other.
pub proof fn lemma_in_sequence(wire: Wire, first: Seq<Signal>, second: Seq<Signal>)
    ensures
        after_signals(wire, first + second) == after_signals(after_signals(wire, first), second),
    decreases second.len(),
{
    if second.len() == 0 {
        assert(first + second == first);
    } else {
        lemma_in_sequence(wire, first, second.drop_last());
        assert((first + second).drop_last() == first + second.drop_last());
        assert((first + second).last() == second.last());
    }
}

proof fn lemma_pulse(wire: Wire)
    requires
        wire.selected,
        !wire.clock,
    ensures
        took_in(after_signals(wire, clock_pulse()), wire, seq![wire.data]),
        after_signals(wire, clock_pulse()).data == wire.data,
{
    let rise = Signal::Drive { line: Line::Clock, high: true };
    let fall = Signal::Drive { line: Line::Clock, high: false };
    let none = Seq::<Signal>::empty();
    assert(clock_pulse() == none.push(rise).push(Signal::Settle).push(fall).push(Signal::Settle));
    lemma_one_more(wire, none, rise);
    lemma_one_more(wire, none.push(rise), Signal::Settle);
    lemma_one_more(wire, none.push(rise).push(Signal::Settle), fall);
    lemma_one_more(wire, none.push(rise).push(Signal::Settle).push(fall), Signal::Settle);
    assert(wire.received.push(wire.data) == wire.received + seq![wire.data]);
}

proof fn lemma_pulses(wire: Wire, count: nat)
    requires
        wire.selected,
        !wire.clock,
        !wire.data,
    ensures
        took_in(after_signals(wire, clock_pulses(count)), wire, zeros(count)),
        !after_signals(wire, clock_pulses(count)).data,
    decreases count,
{
    if count == 0 {
        assert(wire.received + zeros(0) == wire.received);
    } else {
        let before = after_signals(wire, clock_pulses((count - 1) as nat));
        lemma_pulses(wire, (count - 1) as nat);
        lemma_in_sequence(wire, clock_pulses((count - 1) as nat), clock_pulse());
        lemma_pulse(before);
        assert(wire.received + zeros((count - 1) as nat) + seq![false] == wire.received + zeros(
            count,
        ));
    }
}

proof fn lemma_idle(wire: Wire, count: nat)
    requires
        wire.selected,
        !wire.clock,
    ensures
        took_in(
            after_signals(
                wire,
                seq![Signal::Drive { line: Line::Data, high: false }] + clock_pulses(count),
            ),
            wire,
            zeros(count),
        ),
{
    let low = Signal::Drive { line: Line::Data, high: false };
    lemma_one_more(wire, Seq::empty(), low);
    assert(seq![low] == Seq::<Signal>::empty().push(low));
    lemma_in_sequence(wire, seq![low], clock_pulses(count));
    lemma_pulses(after_signals(wire, seq![low]), count);
}

proof fn lemma_bit(wire: Wire, bit: bool)
    requires
        wire.selected,
        !wire.clock,
    ensures
        took_in(after_signals(wire, bit_signals(bit)), wire, seq![bit]),
{
    let set = Signal::Drive { line: Line::Data, high: bit };
    lemma_one_more(wire, Seq::empty(), set);
    assert(seq![set] == Seq::<Signal>::empty().push(set));
    lemma_in_sequence(wire, seq![set], clock_pulse());
    lemma_pulse(after_signals(wire, seq![set]));
}

proof fn lemma_leading_bits(wire: Wire, byte: u8, count: nat)
    requires
        wire.selected,
        !wire.clock,
        count <= 8,
    ensures
        took_in(
            after_signals(wire, leading_bits_signals(byte, count)),
            wire,
            leading_bits(byte, count),
        ),
    decreases count,
{
    if count == 0 {
        assert(wire.received + leading_bits(byte, 0) == wire.received);
    } else {
        let shorter = (count - 1) as nat;
        let bit = bit_at(byte, (8 - count) as u8);
        let before = after_signals(wire, leading_bits_signals(byte, shorter));
        lemma_leading_bits(wire, byte, shorter);
        lemma_in_sequence(wire, leading_bits_signals(byte, shorter), bit_signals(bit));
        lemma_bit(before, bit);
        assert(leading_bits(byte, shorter) + seq![bit] == leading_bits(byte, count));
        assert(wire.received + leading_bits(byte, shorter) + seq![bit] == wire.received + (
        leading_bits(byte, shorter) + seq![bit]));
    }
}

proof fn lemma_byte(wire: Wire, byte: u8)
    requires
        wire.selected,
        !wire.clock,
    ensures
        took_in(after_signals(wire, byte_signals(byte)), wire, byte_bits(byte)),
{
    lemma_leading_bits(wire, byte, 8);
}

proof fn lemma_pixel(wire: Wire, pixel: Pixel)
    requires
        wire.selected,
        !wire.clock,
    ensures
        took_in(after_signals(wire, pixel_signals(pixel)), wire, pixel_bits(pixel)),
{
    let level = byte_signals(PIXEL_MARKER | pixel.level);
    let blue = byte_signals(pixel.blue);
    let green = byte_signals(pixel.green);
    let red = byte_signals(pixel.red);
    let after_level = after_signals(wire, level);
    let after_blue = after_signals(after_level, blue);
    let after_green = after_signals(after_blue, green);
    lemma_byte(wire, PIXEL_MARKER | pixel.level);
    lemma_byte(after_level, pixel.blue);
    lemma_byte(after_blue, pixel.green);
    lemma_byte(after_green, pixel.red);
    lemma_in_sequence(wire, level, blue);
    lemma_in_sequence(wire, level + blue, green);
    lemma_in_sequence(wire, level + blue + green, red);
    assert(wire.received + byte_bits(PIXEL_MARKER | pixel.level) + byte_bits(pixel.blue)
        + byte_bits(pixel.green) + byte_bits(pixel.red) == wire.received + pixel_bits(pixel));
}

proof fn lemma_leading_pixels(wire: Wire, pixels: Seq<Pixel>, count: nat)
    requires
        wire.selected,
        !wire.clock,
    ensures
        took_in(
            after_signals(wire, leading_pixels_signals(pixels, count)),
            wire,
            leading_pixels_bits(pixels, count),
        ),
    decreases count,
{
    if count == 0 {
        assert(wire.received + leading_pixels_bits(pixels, 0) == wire.received);
    } else {
        let shorter = (count - 1) as nat;
        let pixel = pixels[count - 1];
        let before = after_signals(wire, leading_pixels_signals(pixels, shorter));
        lemma_leading_pixels(wire, pixels, shorter);
        lemma_in_sequence(wire, leading_pixels_signals(pixels, shorter), pixel_signals(pixel));
        lemma_pixel(before, pixel);
        assert(wire.received + leading_pixels_bits(pixels, shorter) + pixel_bits(pixel)
            == wire.received + leading_pixels_bits(pixels, count));
    }
}

/// What a frame delivers.
///
/// Wherever the data and chip-select lines stand, if the clock is low when
/// the frame begins, the chain shifts in exactly the bits of the frame: 32
/// zeros, then for every pixel in order the marker with its level, its blue,
/// its green and its red, each byte with the most significant bit first, then
/// 36 zeros. The frame leaves the chain deselected and the clock and data
/// lines low.
pub proof fn lemma_frame_delivers_its_bits(wire: Wire, pixels: Seq<Pixel>)
    requires
        !wire.clock,
    ensures
        after_signals(wire, frame(pixels)).received == wire.received + frame_bits(pixels),
        !after_signals(wire, frame(pixels)).selected,
        !after_signals(wire, frame(pixels)).clock,
        !after_signals(wire, frame(pixels)).data,
{
    let select = seq![Signal::Drive { line: Line::ChipSelect, high: false }];
    let release = seq![Signal::Drive { line: Line::ChipSelect, high: true }];
    let body = leading_pixels_signals(pixels, pixels.len());
    let selected = after_signals(wire, select);
    let started = after_signals(selected, start_frame());
    let filled = after_signals(started, body);
    let ended = after_signals(filled, end_frame());

    lemma_one_more(wire, Seq::empty(), Signal::Drive { line: Line::ChipSelect, high: false });
    assert(select == Seq::<Signal>::empty().push(
        Signal::Drive { line: Line::ChipSelect, high: false },
    ));
    lemma_idle(selected, START_PULSES as nat);
    lemma_leading_pixels(started, pixels, pixels.len());
    lemma_idle(filled, END_PULSES as nat);
    lemma_one_more(ended, Seq::empty(), Signal::Drive { line: Line::ChipSelect, high: true });
    assert(release == Seq::<Signal>::empty().push(
        Signal::Drive { line: Line::ChipSelect, high: true },
    ));

    lemma_in_sequence(wire, select, start_frame());
    lemma_in_sequence(wire, select + start_frame(), body);
    lemma_in_sequence(wire, select + start_frame() + body, end_frame());
    lemma_in_sequence(wire, select + start_frame() + body + end_frame(), release);

    // The end of the frame leaves the data line low.
    let low = Signal::Drive { line: Line::Data, high: false };
    lemma_one_more(filled, Seq::empty(), low);
    assert(seq![low] == Seq::<Signal>::empty().push(low));
    lemma_in_sequence(filled, seq![low], clock_pulses(END_PULSES as nat));
    lemma_pulses(after_signals(filled, seq![low]), END_PULSES as nat);

    assert(wire.received + zeros(START_PULSES as nat) + leading_pixels_bits(pixels, pixels.len())
        + zeros(END_PULSES as nat) == wire.received + frame_bits(pixels));
}

/// A frame for seven pixels has 292 bits: 32 to start, 32 for each pixel, 36
/// to end.
pub proof fn lemma_frame_length(pixels: Seq<Pixel>)
    requires
        pixels.len() == 7,
    ensures
        frame_bits(pixels).len() == 32 + 7 * 32 + 36,
{
    lemma_pixels_length(pixels, 7);
}

proof fn lemma_pixels_length(pixels: Seq<Pixel>, count: nat)
    ensures
        leading_pixels_bits(pixels, count).len() == 32 * count,
    decreases count,
{
    if count > 0 {
        lemma_pixels_length(pixels, (count - 1) as nat);
    }
}

} // verus!
