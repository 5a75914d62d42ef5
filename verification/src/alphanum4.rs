//! The four-digit, fourteen-segment alphanumeric display.
//!
//! Every printable ASCII character has a glyph, a bitmask of the segments to
//! light. The driver writes glyphs into the display buffer of the controller,
//! two bytes for each of the four positions.

use vstd::prelude::*;
use rppal::i2c::Error as I2cError;
use crate::ht16k33::on_bus;
use crate::ht16k33::sent;
use crate::ht16k33::BlockWrite;
use crate::ht16k33::BUFFER_SIZE;
use crate::ht16k33::HT16K33;
use crate::ht16k33::HT16K33_DISPLAY_DATA;

verus! {

/// Number of positions of the display.
pub const NUM_DIGITS: usize = 4;

/// The first character that has a glyph, the space.
pub const FIRST_PRINTABLE: u32 = 32;

/// The last character that has a glyph, the tilde.
pub const LAST_PRINTABLE: u32 = 126;

/// The bit of a bitmask that lights the decimal point.
pub const DECIMAL_POINT: u16 = 0x4000;

/// The bit of the high byte of a position that lights the decimal point.
pub const DECIMAL_POINT_HIGH: u8 = 0x40;

/// The glyphs of the printable ASCII characters, from the space to the tilde.
pub const DIGIT_VALUES: [u16; 95] = [
    0b0000000000000000,  // space
    0b0000000000000110,  // exclamation mark
    0b0000001000100000,  // quotation mark
    0b0001001011001110,  // number sign
    0b0001001011101101,  // dollar sign
    0b0000110000100100,  // percent sign
    0b0010001101011101,  // ampersand
    0b0000010000000000,  // apostrophe
    0b0010010000000000,  // left parenthesis
    0b0000100100000000,  // right parenthesis
    0b0011111111000000,  // asterisk
    0b0001001011000000,  // plus sign
    0b0000100000000000,  // comma
    0b0000000011000000,  // hyphen
    0b0000000000000000,  // full stop
    0b0000110000000000,  // solidus
    0b0000110000111111,  // 0
    0b0000000000000110,  // 1
    0b0000000011011011,  // 2
    0b0000000010001111,  // 3
    0b0000000011100110,  // 4
    0b0010000001101001,  // 5
    0b0000000011111101,  // 6
    0b0000000000000111,  // 7
    0b0000000011111111,  // 8
    0b0000000011101111,  // 9
    0b0001001000000000,  // colon
    0b0000101000000000,  // semicolon
    0b0010010000000000,  // less-than sign
    0b0000000011001000,  // equals sign
    0b0000100100000000,  // greater-than sign
    0b0001000010000011,  // question mark
    0b0000001010111011,  // commercial at
    0b0000000011110111,  // A
    0b0001001010001111,  // B
    0b0000000000111001,  // C
    0b0001001000001111,  // D
    0b0000000011111001,  // E
    0b0000000001110001,  // F
    0b0000000010111101,  // G
    0b0000000011110110,  // H
    0b0001001000000000,  // I
    0b0000000000011110,  // J
    0b0010010001110000,  // K
    0b0000000000111000,  // L
    0b0000010100110110,  // M
    0b0010000100110110,  // N
    0b0000000000111111,  // O
    0b0000000011110011,  // P
    0b0010000000111111,  // Q
    0b0010000011110011,  // R
    0b0000000011101101,  // S
    0b0001001000000001,  // T
    0b0000000000111110,  // U
    0b0000110000110000,  // V
    0b0010100000110110,  // W
    0b0010110100000000,  // X
    0b0001010100000000,  // Y
    0b0000110000001001,  // Z
    0b0000000000111001,  // left square bracket
    0b0010000100000000,  // reverse solidus
    0b0000000000001111,  // right square bracket
    0b0000110000000011,  // circumflex accent
    0b0000000000001000,  // low line
    0b0000000100000000,  // grave accent
    0b0001000001011000,  // a
    0b0010000001111000,  // b
    0b0000000011011000,  // c
    0b0000100010001110,  // d
    0b0000100001011000,  // e
    0b0000000001110001,  // f
    0b0000010010001110,  // g
    0b0001000001110000,  // h
    0b0001000000000000,  // i
    0b0000000000001110,  // j
    0b0011011000000000,  // k
    0b0000000000110000,  // l
    0b0001000011010100,  // m
    0b0001000001010000,  // n
    0b0000000011011100,  // o
    0b0000000101110000,  // p
    0b0000010010000110,  // q
    0b0000000001010000,  // r
    0b0010000010001000,  // s
    0b0000000001111000,  // t
    0b0000000000011100,  // u
    0b0010000000000100,  // v
    0b0010100000010100,  // w
    0b0010100011000000,  // x
    0b0010000000001100,  // y
    0b0000100001001000,  // z
    0b0000100101001001,  // left curly bracket
    0b0001001000000000,  // vertical line
    0b0010010010001001,  // right curly bracket
    0b0000010100100000,  // tilde
];

/// Errors that can occur.
#[derive(Debug)]
pub enum Error {
    /// The controller failed.
    HT16K33(crate::ht16k33::Error),
}

impl From<crate::ht16k33::Error> for Error {
    fn from(err: crate::ht16k33::Error) -> (error: Error) {
        Error::HT16K33(err)
    }
}

impl vstd::std_specs::convert::FromSpecImpl<crate::ht16k33::Error> for Error {
    open spec fn obeys_from_spec() -> bool {
        true
    }

    open spec fn from_spec(err: crate::ht16k33::Error) -> Error {
        Error::HT16K33(err)
    }
}

/// Whether `c` has a glyph: the printable ASCII characters have one.
pub open spec fn is_printable(c: char) -> bool {
    FIRST_PRINTABLE <= c as u32 <= LAST_PRINTABLE
}

/// The glyph of a printable character.
pub open spec fn glyph_of(c: char) -> u16 {
    DIGIT_VALUES[c as u32 - FIRST_PRINTABLE]
}

/// The low byte of a bitmask.
pub open spec fn low_byte(bitmask: u16) -> u8 {
    (bitmask & 0xFF) as u8
}

/// The high byte of a bitmask.
pub open spec fn high_byte(bitmask: u16) -> u8 {
    ((bitmask >> 8) & 0xFF) as u8
}

/// The bitmask that a low and a high byte make up.
pub open spec fn bitmask_of(low: u8, high: u8) -> u16 {
    (low as u16) | ((high as u16) << 8)
}

/// The bitmask at a position of a display buffer.
pub open spec fn digit_at(buffer: Seq<u8>, pos: int) -> u16 {
    bitmask_of(buffer[2 * pos], buffer[2 * pos + 1])
}

/// A high byte with the decimal point on or off and its other bits as they
/// are.
pub open spec fn with_decimal(high: u8, decimal: bool) -> u8 {
    if decimal {
        high | DECIMAL_POINT_HIGH
    } else {
        high & !DECIMAL_POINT_HIGH
    }
}

/// A display buffer after a bitmask was put at a position; a position that
/// the display does not have is ignored.
pub open spec fn with_digit(buffer: Seq<u8>, pos: int, bitmask: u16) -> Seq<u8> {
    if 0 <= pos < NUM_DIGITS {
        buffer.update(2 * pos, low_byte(bitmask)).update(2 * pos + 1, high_byte(bitmask))
    } else {
        buffer
    }
}

/// A display buffer after the decimal point of a position was turned on or
/// off; a position that the display does not have is ignored.
pub open spec fn with_decimal_at(buffer: Seq<u8>, pos: int, decimal: bool) -> Seq<u8> {
    if 0 <= pos < NUM_DIGITS {
        buffer.update(2 * pos + 1, with_decimal(buffer[2 * pos + 1], decimal))
    } else {
        buffer
    }
}

/// The position of the first character of a text of `len` characters: the
/// leftmost position, or the one from which the text ends at the rightmost
/// position.
pub open spec fn first_position(len: int, justify_right: bool) -> int {
    if justify_right {
        NUM_DIGITS - len
    } else {
        0
    }
}

/// Byte `k` of a display buffer after the first `count` characters of a text
/// were printed into it. Character `i` of the text stands at position
/// `first_position(..) + i` if the display has that position, and nowhere
/// otherwise.
pub open spec fn printed_byte(
    buffer: Seq<u8>,
    text: Seq<char>,
    justify_right: bool,
    count: int,
    k: int,
) -> u8 {
    let i = k / 2 - first_position(text.len() as int, justify_right);
    if 0 <= i < count {
        if k % 2 == 0 {
            low_byte(glyph_of(text[i]))
        } else {
            high_byte(glyph_of(text[i]))
        }
    } else {
        buffer[k]
    }
}

/// A display buffer after a text was printed into it.
pub open spec fn printed(buffer: Seq<u8>, text: Seq<char>, justify_right: bool) -> Seq<u8> {
    Seq::new(
        BUFFER_SIZE as nat,
        |k: int| printed_byte(buffer, text, justify_right, text.len() as int, k),
    )
}

/// No glyph lights the decimal point.
pub proof fn lemma_glyph_has_no_decimal_point(c: char)
    requires
        is_printable(c),
    ensures
        glyph_of(c) & DECIMAL_POINT == 0,
        with_decimal(high_byte(glyph_of(c)), false) == high_byte(glyph_of(c)),
{
    let glyph = glyph_of(c);
    assert(glyph < 0x4000);
    assert(glyph & 0x4000 == 0 && (((glyph >> 8) & 0xFF) as u8) & !0x40u8 == (((glyph >> 8)
        & 0xFF) as u8)) by (bit_vector)
        requires
            glyph < 0x4000,
    ;
}

/// Splitting a bitmask into its two bytes loses nothing.
pub proof fn lemma_bytes_make_bitmask(bitmask: u16)
    ensures
        bitmask_of(low_byte(bitmask), high_byte(bitmask)) == bitmask,
{
    assert((((bitmask & 0xFF) as u8) as u16) | ((((bitmask >> 8) & 0xFF) as u8) as u16) << 8
        == bitmask) by (bit_vector);
}

/// A bitmask that was put at a position of the display is read back from the
/// two bytes of that position as it was, and a position that the display does
/// not have leaves the buffer alone.
pub proof fn lemma_digit_reads_back(buffer: Seq<u8>, pos: int, bitmask: u16)
    requires
        buffer.len() == BUFFER_SIZE,
    ensures
        0 <= pos < NUM_DIGITS ==> digit_at(with_digit(buffer, pos, bitmask), pos) == bitmask,
        !(0 <= pos < NUM_DIGITS) ==> with_digit(buffer, pos, bitmask) == buffer,
        forall|other: int|
            0 <= other < NUM_DIGITS && other != pos ==> digit_at(
                with_digit(buffer, pos, bitmask),
                other,
            ) == digit_at(buffer, other),
{
    lemma_bytes_make_bitmask(bitmask);
}

/// Turning the decimal point on sets bit 6 of the high byte, turning it off
/// clears that bit, and no other bit changes either way.
pub proof fn lemma_decimal_touches_one_bit(high: u8, decimal: bool)
    ensures
        with_decimal(high, decimal) & DECIMAL_POINT_HIGH == if decimal {
            DECIMAL_POINT_HIGH
        } else {
            0u8
        },
        with_decimal(high, decimal) & !DECIMAL_POINT_HIGH == high & !DECIMAL_POINT_HIGH,
{
    assert((high | 0x40) & 0x40 == 0x40u8) by (bit_vector);
    assert((high & !0x40u8) & 0x40 == 0u8) by (bit_vector);
    assert((high | 0x40) & !0x40u8 == high & !0x40u8) by (bit_vector);
    assert((high & !0x40u8) & !0x40u8 == high & !0x40u8) by (bit_vector);
}

/// At the level of a whole bitmask, the decimal point of a position is bit 14:
/// turning it on or off changes that bit of that position and nothing else
/// on the display.
pub proof fn lemma_decimal_point_of_digit(buffer: Seq<u8>, pos: int, decimal: bool)
    requires
        buffer.len() == BUFFER_SIZE,
        0 <= pos < NUM_DIGITS,
    ensures
        digit_at(with_decimal_at(buffer, pos, decimal), pos) == if decimal {
            digit_at(buffer, pos) | DECIMAL_POINT
        } else {
            digit_at(buffer, pos) & !DECIMAL_POINT
        },
        forall|other: int|
            0 <= other < NUM_DIGITS && other != pos ==> digit_at(
                with_decimal_at(buffer, pos, decimal),
                other,
            ) == digit_at(buffer, other),
{
    let low = buffer[2 * pos];
    let high = buffer[2 * pos + 1];
    assert((low as u16) | (((high | 0x40u8) as u16) << 8) == ((low as u16) | ((high as u16) << 8))
        | 0x4000u16) by (bit_vector);
    assert((low as u16) | (((high & !0x40u8) as u16) << 8) == ((low as u16) | ((high as u16)
        << 8)) & !0x4000u16) by (bit_vector);
}

/// After a text was printed, every position that a character of the text
/// falls on shows the glyph of that character, without decimal point, and
/// every other position shows what it showed before.
pub proof fn lemma_print_places_glyphs(
    buffer: Seq<u8>,
    text: Seq<char>,
    justify_right: bool,
    pos: int,
)
    requires
        buffer.len() == BUFFER_SIZE,
        0 <= pos < NUM_DIGITS,
        forall|i: int| 0 <= i < text.len() ==> is_printable(#[trigger] text[i]),
    ensures
        ({
            let i = pos - first_position(text.len() as int, justify_right);
            digit_at(printed(buffer, text, justify_right), pos) == if 0 <= i < text.len() {
                glyph_of(text[i])
            } else {
                digit_at(buffer, pos)
            }
        }),
        ({
            let i = pos - first_position(text.len() as int, justify_right);
            0 <= i < text.len() ==> digit_at(printed(buffer, text, justify_right), pos)
                & DECIMAL_POINT == 0
        }),
{
    let i = pos - first_position(text.len() as int, justify_right);
    if 0 <= i < text.len() {
        lemma_bytes_make_bitmask(glyph_of(text[i]));
        lemma_glyph_has_no_decimal_point(text[i]);
    }
}

/// Driver of the alphanumeric display.
#[derive(Debug)]
pub struct Alphanum4 {
    /// Driver of the controller.
    pub ht16k33: HT16K33,
}

impl Alphanum4 {
    /// Creates the driver, with an empty display buffer.
    pub fn new() -> (out: Result<Alphanum4, Error>)
        ensures
            out matches Ok(display) && !display.ht16k33.is_setup()
                && !display.ht16k33.simulation() && display.ht16k33.buffer()@ == Seq::new(
                BUFFER_SIZE as nat,
                |i: int| 0u8,
            ),
    {
        match HT16K33::new() {
            Ok(ht16k33) => Ok(Alphanum4 { ht16k33 }),
            Err(fault) => Err(Error::from(fault)),
        }
    }

    /// The glyph of a character: the printable ASCII characters have one, no
    /// other character has.
    pub fn glyph(c: char) -> (bitmask: Option<u16>)
        ensures
            bitmask == if is_printable(c) {
                Some(glyph_of(c))
            } else {
                None
            },
    {
        let code = c as u32;
        if FIRST_PRINTABLE <= code && code <= LAST_PRINTABLE {
            Some(DIGIT_VALUES[(code - FIRST_PRINTABLE) as usize])
        } else {
            None
        }
    }

    /// Splits a bitmask into its low and its high byte.
    pub fn u16_to_u8(num: u16) -> (bytes: (u8, u8))
        ensures
            bytes.0 == low_byte(num),
            bytes.1 == high_byte(num),
    {
        ((num & 0xFF) as u8, ((num >> 8) & 0xFF) as u8)
    }

    /// Sets the digit at a position to a raw bitmask. Positions go from 0, the
    /// leftmost, to 3; any other position is ignored.
    pub fn set_digit_raw(&mut self, pos: usize, bitmask: u16)
        ensures
            final(self).ht16k33.same_controller(&old(self).ht16k33),
            final(self).ht16k33.buffer()@ == with_digit(
                old(self).ht16k33.buffer()@,
                pos as int,
                bitmask,
            ),
    {
        if pos <= 3 {
            let digit = Self::u16_to_u8(bitmask);
            self.ht16k33.set_buffer_byte(pos * 2, digit.0);
            self.ht16k33.set_buffer_byte(pos * 2 + 1, digit.1);
        }
    }

    /// Turns the decimal point at a position on or off and leaves the rest of
    /// the digit as it is. A position other than 0 to 3 is ignored.
    pub fn set_decimal(&mut self, pos: usize, decimal: bool)
        ensures
            final(self).ht16k33.same_controller(&old(self).ht16k33),
            final(self).ht16k33.buffer()@ == with_decimal_at(
                old(self).ht16k33.buffer()@,
                pos as int,
                decimal,
            ),
    {
        if pos <= 3 {
            let high = self.ht16k33.buffer()[pos * 2 + 1];
            if decimal {
                self.ht16k33.set_buffer_byte(pos * 2 + 1, high | DECIMAL_POINT_HIGH);
            } else {
                self.ht16k33.set_buffer_byte(pos * 2 + 1, high & !DECIMAL_POINT_HIGH);
            }
        }
    }

    /// Sets the digit at a position to the glyph of a printable ASCII
    /// character, with or without the decimal point. A position other than 0
    /// to 3 is ignored.
    pub fn set_digit(&mut self, pos: usize, digit: char, decimal: bool)
        requires
            is_printable(digit),
        ensures
            final(self).ht16k33.same_controller(&old(self).ht16k33),
            final(self).ht16k33.buffer()@ == with_decimal_at(
                with_digit(old(self).ht16k33.buffer()@, pos as int, glyph_of(digit)),
                pos as int,
                decimal,
            ),
    {
        let code = digit as u32;
        self.set_digit_raw(pos, DIGIT_VALUES[(code - FIRST_PRINTABLE) as usize]);
        self.set_decimal(pos, decimal);
    }

    /// Prints a text of printable ASCII characters to the display buffer.
    ///
    /// The text starts at the leftmost position or, with `justify_right`,
    /// ends at the rightmost one. Characters that fall outside the four
    /// positions are ignored, and positions that the text does not reach keep
    /// what they show. No decimal point is lit where a character is printed.
    pub fn print_str(&mut self, value: &str, justify_right: bool)
        requires
            forall|i: int| 0 <= i < value@.len() ==> is_printable(#[trigger] value@[i]),
        ensures
            final(self).ht16k33.same_controller(&old(self).ht16k33),
            final(self).ht16k33.buffer()@ == printed(
                old(self).ht16k33.buffer()@,
                value@,
                justify_right,
            ),
    {
        let len = value.unicode_len();
        let mut i: usize = 0;
        while i < len
            invariant
                i <= len,
                len == value@.len(),
                forall|j: int| 0 <= j < value@.len() ==> is_printable(#[trigger] value@[j]),
                self.ht16k33.same_controller(&old(self).ht16k33),
                self.ht16k33.buffer()@ == Seq::new(
                    BUFFER_SIZE as nat,
                    |k: int|
                        printed_byte(
                            old(self).ht16k33.buffer()@,
                            value@,
                            justify_right,
                            i as int,
                            k,
                        ),
                ),
            decreases len - i,
        {
            let c = value.get_char(i);
            proof {
                lemma_glyph_has_no_decimal_point(c);
            }
            if !justify_right {
                self.set_digit(i, c, false);
            } else if len - i <= NUM_DIGITS {
                self.set_digit(NUM_DIGITS - (len - i), c, false);
            }
            i += 1;
        }
    }

    /// Displays the buffer on the display.
    ///
    /// `ready` is the outcome of bringing the controller up, as in
    /// `HT16K33::setup`. The result is the block write to send, or nothing if
    /// the controller is simulated.
    pub fn show(&mut self, ready: Result<(), I2cError>) -> (out: Result<Option<BlockWrite>, Error>)
        ensures
            final(self).ht16k33.buffer() == old(self).ht16k33.buffer(),
            final(self).ht16k33.blink_frequency() == old(self).ht16k33.blink_frequency(),
            final(self).ht16k33.brightness() == old(self).ht16k33.brightness(),
            final(self).ht16k33.simulation() == old(self).ht16k33.simulation(),
            final(self).ht16k33.is_setup() == (old(self).ht16k33.is_setup()
                || old(self).ht16k33.simulation() || ready is Ok),
            out is Err <==> old(self).ht16k33.must_acquire() && ready is Err,
            out matches Err(error) ==> error == Error::HT16K33(
                crate::ht16k33::Error::I2c(ready->Err_0),
            ),
            out matches Ok(write) ==> on_bus(write) == sent(
                old(self).ht16k33.simulation(),
                HT16K33_DISPLAY_DATA,
                old(self).ht16k33.buffer()@,
            ),
    {
        match self.ht16k33.write_display(ready) {
            Ok(write) => Ok(write),
            Err(fault) => Err(Error::from(fault)),
        }
    }
}

} // verus!
