//! Serial-driven LED string codec.
//!
//! The LED string is driven over the SPI wire: every data bit of a color
//! is stretched into four line bits (`1000` for a zero, `1100` for a
//! one), so one color byte becomes four line bytes and one LED (three
//! color bytes, sent green-red-blue, most significant bit first) becomes
//! twelve.  A frame starts with a run of zero bytes that holds the line
//! low long enough for the string to latch.
//!
//! The transmit buffer must be sized exactly
//! `HEADER_BYTES + led_count * BYTES_PER_LED`; a wrong size is a
//! construction-time error.  The codec round-trips: a reference decoder
//! recovers the exact color sequence from an encoded frame
//! ([`lemma_frame_round_trip`]).

use vstd::arithmetic::div_mod::lemma_fundamental_div_mod;
use vstd::arithmetic::div_mod::lemma_mod_multiples_basic;
use vstd::prelude::*;

use crate::spi::Spi;

verus! {

/// Zero bytes holding the line low at the start of a frame, so the
/// string latches the previous frame before new data arrives.
pub const HEADER_BYTES: usize = 20;

/// Line bytes per color byte: four, one per pair of data bits... each
/// data bit is stretched into one nibble.
pub const BYTES_PER_COLOR_BYTE: usize = 4;

/// Line bytes per LED: three color bytes of four line bytes each.
pub const BYTES_PER_LED: usize = 12;

/// One LED's color triple.
#[derive(Clone, Copy, PartialEq, Eq, Structural, Debug)]
pub struct Rgb {
    pub r: u8,
    pub g: u8,
    pub b: u8,
}

impl Rgb {
    /// Build a color triple.
    pub fn new(r: u8, g: u8, b: u8) -> (color: Self)
        ensures
            color == (Rgb { r, g, b }),
    {
        Rgb { r, g, b }
    }
}

/// Failure modes of the LED string driver and its reference decoder.
#[derive(Clone, Copy, PartialEq, Eq, Structural, Debug)]
pub enum LedError {
    /// The transmit buffer does not have exactly the required size.
    BufferSize,
    /// A write was asked to send a different number of colors than the
    /// string was constructed for.
    CountMismatch,
    /// The decoded byte stream is not a well-formed frame.
    Malformed,
}

/// Bit `index` of a color byte.
pub open spec fn color_bit(value: u8, index: u8) -> bool {
    (value >> index) & 1 == 1
}

/// The line byte carrying two data bits: the nibble `1100` for a one bit
/// and `1000` for a zero bit, high bit first.
pub open spec fn spec_pattern(hi: bool, lo: bool) -> u8 {
    if hi && lo {
        0xCC
    } else if hi {
        0xC8
    } else if lo {
        0x8C
    } else {
        0x88
    }
}

/// The four line bytes of one color byte, most significant bits first.
pub open spec fn spec_encode_byte(value: u8) -> Seq<u8> {
    seq![
        spec_pattern(color_bit(value, 7), color_bit(value, 6)),
        spec_pattern(color_bit(value, 5), color_bit(value, 4)),
        spec_pattern(color_bit(value, 3), color_bit(value, 2)),
        spec_pattern(color_bit(value, 1), color_bit(value, 0)),
    ]
}

/// The twelve line bytes of one LED, in the string's green-red-blue
/// wire order.
pub open spec fn spec_encode_color(color: Rgb) -> Seq<u8> {
    spec_encode_byte(color.g) + spec_encode_byte(color.r) + spec_encode_byte(color.b)
}

/// The line bytes of a whole color sequence.
pub open spec fn spec_encode_colors(colors: Seq<Rgb>) -> Seq<u8>
    decreases colors.len(),
{
    if colors.len() == 0 {
        Seq::empty()
    } else {
        spec_encode_color(colors[0]) + spec_encode_colors(colors.drop_first())
    }
}

/// The latch header: [`HEADER_BYTES`] zero bytes.
pub open spec fn header_zeros() -> Seq<u8> {
    Seq::new(HEADER_BYTES as nat, |i: int| 0u8)
}

/// A whole encoded frame: latch header, then the color payload.
pub open spec fn spec_frame(colors: Seq<Rgb>) -> Seq<u8> {
    header_zeros() + spec_encode_colors(colors)
}

/// Reference decoding of one line byte back to its two data bits; line
/// bytes that no encoder produces decode to nothing.
pub open spec fn spec_decode_pattern(line_byte: u8) -> Option<(bool, bool)> {
    if line_byte == 0xCC {
        Some((true, true))
    } else if line_byte == 0xC8 {
        Some((true, false))
    } else if line_byte == 0x8C {
        Some((false, true))
    } else if line_byte == 0x88 {
        Some((false, false))
    } else {
        None
    }
}

/// A color byte reassembled from its eight bits, most significant first.
pub open spec fn byte_from_bits(
    b7: bool,
    b6: bool,
    b5: bool,
    b4: bool,
    b3: bool,
    b2: bool,
    b1: bool,
    b0: bool,
) -> u8 {
    (if b7 {
        0x80u8
    } else {
        0u8
    }) | (if b6 {
        0x40u8
    } else {
        0u8
    }) | (if b5 {
        0x20u8
    } else {
        0u8
    }) | (if b4 {
        0x10u8
    } else {
        0u8
    }) | (if b3 {
        0x08u8
    } else {
        0u8
    }) | (if b2 {
        0x04u8
    } else {
        0u8
    }) | (if b1 {
        0x02u8
    } else {
        0u8
    }) | (if b0 {
        0x01u8
    } else {
        0u8
    })
}

/// Reference decoding of four line bytes back to one color byte.
pub open spec fn spec_decode_byte(line: Seq<u8>) -> Option<u8>
    recommends
        line.len() == BYTES_PER_COLOR_BYTE,
{
    match (
        spec_decode_pattern(line[0]),
        spec_decode_pattern(line[1]),
        spec_decode_pattern(line[2]),
        spec_decode_pattern(line[3]),
    ) {
        (Some(p0), Some(p1), Some(p2), Some(p3)) => Some(
            byte_from_bits(p0.0, p0.1, p1.0, p1.1, p2.0, p2.1, p3.0, p3.1),
        ),
        _ => None,
    }
}

/// Reference decoding of twelve line bytes back to one LED color.
pub open spec fn spec_decode_color(line: Seq<u8>) -> Option<Rgb>
    recommends
        line.len() == BYTES_PER_LED,
{
    match (
        spec_decode_byte(line.subrange(0, 4)),
        spec_decode_byte(line.subrange(4, 8)),
        spec_decode_byte(line.subrange(8, 12)),
    ) {
        (Some(g), Some(r), Some(b)) => Some(Rgb { r, g, b }),
        _ => None,
    }
}

/// Reference decoding of a color payload: groups of twelve line bytes,
/// each a valid LED encoding; anything else decodes to nothing.
pub open spec fn spec_decode_colors(line: Seq<u8>) -> Option<Seq<Rgb>>
    decreases line.len(),
{
    if line.len() == 0 {
        Some(Seq::empty())
    } else if line.len() < BYTES_PER_LED {
        None
    } else {
        match spec_decode_color(line.subrange(0, BYTES_PER_LED as int)) {
            Some(color) => match spec_decode_colors(line.skip(BYTES_PER_LED as int)) {
                Some(rest) => Some(seq![color] + rest),
                None => None,
            },
            None => None,
        }
    }
}

/// Reference decoding of a whole frame: the latch header must be all
/// zeros, then the payload decodes group by group.
pub open spec fn spec_decode_frame(line: Seq<u8>) -> Option<Seq<Rgb>> {
    if line.len() >= HEADER_BYTES && (forall|i: int|
        0 <= i < HEADER_BYTES ==> line[i] == 0u8) {
        spec_decode_colors(line.skip(HEADER_BYTES as int))
    } else {
        None
    }
}

/// Law: decoding a line byte undoes encoding of its two data bits.
pub proof fn lemma_pattern_round_trip(hi: bool, lo: bool)
    ensures
        spec_decode_pattern(spec_pattern(hi, lo)) == Some((hi, lo)),
{
}

/// Law: reassembling a color byte from its eight bits yields the byte.
pub proof fn lemma_bits_recompose(value: u8)
    by (bit_vector)
    ensures
        byte_from_bits(
            color_bit(value, 7),
            color_bit(value, 6),
            color_bit(value, 5),
            color_bit(value, 4),
            color_bit(value, 3),
            color_bit(value, 2),
            color_bit(value, 1),
            color_bit(value, 0),
        ) == value,
{
}

/// Law: decoding four line bytes undoes encoding of one color byte.
pub proof fn lemma_byte_round_trip(value: u8)
    ensures
        spec_decode_byte(spec_encode_byte(value)) == Some(value),
{
    lemma_pattern_round_trip(color_bit(value, 7), color_bit(value, 6));
    lemma_pattern_round_trip(color_bit(value, 5), color_bit(value, 4));
    lemma_pattern_round_trip(color_bit(value, 3), color_bit(value, 2));
    lemma_pattern_round_trip(color_bit(value, 1), color_bit(value, 0));
    lemma_bits_recompose(value);
}

/// Law: decoding twelve line bytes undoes encoding of one LED color.
pub proof fn lemma_color_round_trip(color: Rgb)
    ensures
        spec_decode_color(spec_encode_color(color)) == Some(color),
{
    let enc = spec_encode_color(color);
    assert(enc.subrange(0, 4) =~= spec_encode_byte(color.g));
    assert(enc.subrange(4, 8) =~= spec_encode_byte(color.r));
    assert(enc.subrange(8, 12) =~= spec_encode_byte(color.b));
    lemma_byte_round_trip(color.g);
    lemma_byte_round_trip(color.r);
    lemma_byte_round_trip(color.b);
}

/// Law: an encoded color payload is [`BYTES_PER_LED`] line bytes per LED.
pub proof fn lemma_encode_colors_len(colors: Seq<Rgb>)
    ensures
        spec_encode_colors(colors).len() == BYTES_PER_LED * colors.len(),
    decreases colors.len(),
{
    if colors.len() > 0 {
        lemma_encode_colors_len(colors.drop_first());
    }
}

/// Law: decoding a color payload undoes encoding of any color sequence.
pub proof fn lemma_colors_round_trip(colors: Seq<Rgb>)
    ensures
        spec_decode_colors(spec_encode_colors(colors)) == Some(colors),
    decreases colors.len(),
{
    if colors.len() == 0 {
        assert(colors =~= Seq::<Rgb>::empty());
    } else {
        let enc = spec_encode_colors(colors);
        let rest = colors.drop_first();
        lemma_encode_colors_len(rest);
        assert(enc.subrange(0, BYTES_PER_LED as int) =~= spec_encode_color(colors[0]));
        assert(enc.skip(BYTES_PER_LED as int) =~= spec_encode_colors(rest));
        lemma_color_round_trip(colors[0]);
        lemma_colors_round_trip(rest);
        assert(seq![colors[0]] + rest =~= colors);
    }
}

/// Law: decoding a frame undoes encoding — the produced bit pattern
/// round-trips through the reference decoder back to the original
/// color sequence.
pub proof fn lemma_frame_round_trip(colors: Seq<Rgb>)
    ensures
        spec_decode_frame(spec_frame(colors)) == Some(colors),
{
    let frame = spec_frame(colors);
    assert(forall|i: int| 0 <= i < HEADER_BYTES ==> frame[i] == 0u8);
    assert(frame.skip(HEADER_BYTES as int) =~= spec_encode_colors(colors));
    lemma_colors_round_trip(colors);
}

/// Law: encoding one more color appends its line bytes to the payload.
pub proof fn lemma_encode_colors_append(colors: Seq<Rgb>, color: Rgb)
    ensures
        spec_encode_colors(colors.push(color)) == spec_encode_colors(colors) + spec_encode_color(
            color,
        ),
    decreases colors.len(),
{
    let pushed = colors.push(color);
    if colors.len() == 0 {
        assert(pushed[0] == color);
        assert(pushed.drop_first() =~= Seq::<Rgb>::empty());
        assert(pushed.drop_first() == Seq::<Rgb>::empty());
        assert(spec_encode_colors(Seq::<Rgb>::empty()) == Seq::<u8>::empty());
        assert(spec_encode_colors(pushed) == spec_encode_color(color) + Seq::<u8>::empty());
        assert(spec_encode_colors(pushed) =~= spec_encode_colors(colors) + spec_encode_color(
            color,
        ));
    } else {
        assert(pushed[0] == colors[0]);
        assert(pushed.drop_first() =~= colors.drop_first().push(color));
        assert(pushed.drop_first() == colors.drop_first().push(color));
        lemma_encode_colors_append(colors.drop_first(), color);
        assert(spec_encode_colors(pushed) == spec_encode_color(colors[0]) + (spec_encode_colors(
            colors.drop_first(),
        ) + spec_encode_color(color)));
        assert(spec_encode_colors(colors) == spec_encode_color(colors[0]) + spec_encode_colors(
            colors.drop_first(),
        ));
        assert(spec_encode_colors(pushed) =~= spec_encode_colors(colors) + spec_encode_color(
            color,
        ));
    }
}

/// The line byte carrying two data bits.
pub fn pattern_for(hi: bool, lo: bool) -> (line_byte: u8)
    ensures
        line_byte == spec_pattern(hi, lo),
{
    if hi {
        if lo {
            0xCC
        } else {
            0xC8
        }
    } else {
        if lo {
            0x8C
        } else {
            0x88
        }
    }
}

/// Append the four line bytes of one color byte.
fn encode_byte_into(out: &mut Vec<u8>, value: u8)
    ensures
        final(out)@ == old(out)@ + spec_encode_byte(value),
{
    out.push(pattern_for((value >> 7) & 1 == 1, (value >> 6) & 1 == 1));
    out.push(pattern_for((value >> 5) & 1 == 1, (value >> 4) & 1 == 1));
    out.push(pattern_for((value >> 3) & 1 == 1, (value >> 2) & 1 == 1));
    out.push(pattern_for((value >> 1) & 1 == 1, (value >> 0) & 1 == 1));
    proof {
        assert(out@ =~= old(out)@ + spec_encode_byte(value));
    }
}

/// Append the twelve line bytes of one LED.
fn encode_color_into(out: &mut Vec<u8>, color: Rgb)
    ensures
        final(out)@ == old(out)@ + spec_encode_color(color),
{
    encode_byte_into(out, color.g);
    encode_byte_into(out, color.r);
    encode_byte_into(out, color.b);
    proof {
        assert(out@ =~= old(out)@ + spec_encode_color(color));
    }
}

/// Serialize a color sequence into a fresh frame: the latch header
/// followed by the precisely-timed bit pattern of every color.
pub fn encode_frame(colors: &Vec<Rgb>) -> (frame: Vec<u8>)
    ensures
        frame@ == spec_frame(colors@),
{
    let mut frame: Vec<u8> = Vec::new();
    let mut filled: usize = 0;
    while filled < HEADER_BYTES
        invariant
            filled <= HEADER_BYTES,
            frame@.len() == filled,
            forall|i: int| 0 <= i < filled ==> frame@[i] == 0u8,
        decreases HEADER_BYTES - filled,
    {
        frame.push(0);
        filled = filled + 1;
    }
    proof {
        assert(frame@ =~= header_zeros());
        assert(frame@ =~= header_zeros() + spec_encode_colors(colors@.subrange(0, 0)));
    }
    let mut done: usize = 0;
    while done < colors.len()
        invariant
            done <= colors@.len(),
            frame@ == header_zeros() + spec_encode_colors(colors@.subrange(0, done as int)),
        decreases colors@.len() - done,
    {
        encode_color_into(&mut frame, colors[done]);
        proof {
            assert(colors@.subrange(0, done + 1) =~= colors@.subrange(0, done as int).push(
                colors@[done as int],
            ));
            lemma_encode_colors_append(colors@.subrange(0, done as int), colors@[done as int]);
            assert(frame@ =~= header_zeros() + spec_encode_colors(colors@.subrange(0, done + 1)));
        }
        done = done + 1;
    }
    proof {
        assert(colors@.subrange(0, colors@.len() as int) =~= colors@);
    }
    frame
}

/// Decode one line byte back to its two data bits.
pub fn decode_pattern_byte(line_byte: u8) -> (bits: Option<(bool, bool)>)
    ensures
        bits == spec_decode_pattern(line_byte),
{
    if line_byte == 0xCC {
        Some((true, true))
    } else if line_byte == 0xC8 {
        Some((true, false))
    } else if line_byte == 0x8C {
        Some((false, true))
    } else if line_byte == 0x88 {
        Some((false, false))
    } else {
        None
    }
}

/// Decode the four line bytes at `start` back to one color byte.
fn decode_byte_at(line: &Vec<u8>, start: usize) -> (value: Option<u8>)
    requires
        start + BYTES_PER_COLOR_BYTE <= line@.len(),
    ensures
        value == spec_decode_byte(line@.subrange(start as int, start + BYTES_PER_COLOR_BYTE)),
{
    let total = line.len();
    proof {
        assert(start + BYTES_PER_COLOR_BYTE <= total);
        let sub = line@.subrange(start as int, start + BYTES_PER_COLOR_BYTE);
        assert(sub[0] == line@[start as int]);
        assert(sub[1] == line@[start + 1]);
        assert(sub[2] == line@[start + 2]);
        assert(sub[3] == line@[start + 3]);
    }
    let p0 = decode_pattern_byte(line[start]);
    let p1 = decode_pattern_byte(line[start + 1]);
    let p2 = decode_pattern_byte(line[start + 2]);
    let p3 = decode_pattern_byte(line[start + 3]);
    match (p0, p1, p2, p3) {
        (Some(b76), Some(b54), Some(b32), Some(b10)) => {
            let value = (if b76.0 {
                0x80u8
            } else {
                0u8
            }) | (if b76.1 {
                0x40u8
            } else {
                0u8
            }) | (if b54.0 {
                0x20u8
            } else {
                0u8
            }) | (if b54.1 {
                0x10u8
            } else {
                0u8
            }) | (if b32.0 {
                0x08u8
            } else {
                0u8
            }) | (if b32.1 {
                0x04u8
            } else {
                0u8
            }) | (if b10.0 {
                0x02u8
            } else {
                0u8
            }) | (if b10.1 {
                0x01u8
            } else {
                0u8
            });
            Some(value)
        },
        _ => None,
    }
}

/// Decode the twelve line bytes at `start` back to one LED color.
fn decode_color_at(line: &Vec<u8>, start: usize) -> (color: Option<Rgb>)
    requires
        start + BYTES_PER_LED <= line@.len(),
    ensures
        color == spec_decode_color(line@.subrange(start as int, start + BYTES_PER_LED)),
{
    let total = line.len();
    proof {
        assert(start + BYTES_PER_LED <= total);
        let whole = line@.subrange(start as int, start + BYTES_PER_LED);
        assert(whole.subrange(0, 4) =~= line@.subrange(start as int, start + 4));
        assert(whole.subrange(4, 8) =~= line@.subrange(start + 4, start + 8));
        assert(whole.subrange(8, 12) =~= line@.subrange(start + 8, start + 12));
    }
    let g = decode_byte_at(line, start);
    let r = decode_byte_at(line, start + 4);
    let b = decode_byte_at(line, start + 8);
    match (g, r, b) {
        (Some(g), Some(r), Some(b)) => Some(Rgb { r, g, b }),
        _ => None,
    }
}

/// The reference decoder: recover the color sequence from an encoded
/// frame, rejecting anything that is not one.
pub fn decode_frame(line: &Vec<u8>) -> (result: Result<Vec<Rgb>, LedError>)
    ensures
        spec_decode_frame(line@) matches Some(colors) ==> (result matches Ok(out) && out@
            == colors),
        spec_decode_frame(line@) is None ==> result == Err::<Vec<Rgb>, LedError>(
            LedError::Malformed,
        ),
{
    if line.len() < HEADER_BYTES {
        return Err(LedError::Malformed);
    }
    let mut checked: usize = 0;
    while checked < HEADER_BYTES
        invariant
            checked <= HEADER_BYTES,
            HEADER_BYTES <= line@.len(),
            forall|i: int| 0 <= i < checked ==> line@[i] == 0u8,
        decreases HEADER_BYTES - checked,
    {
        if line[checked] != 0 {
            return Err(LedError::Malformed);
        }
        checked = checked + 1;
    }
    let mut colors: Vec<Rgb> = Vec::new();
    let mut pos: usize = HEADER_BYTES;
    while pos < line.len()
        invariant
            HEADER_BYTES <= pos <= line@.len(),
            forall|i: int| 0 <= i < HEADER_BYTES ==> line@[i] == 0u8,
            spec_decode_colors(line@.skip(pos as int)) matches Some(rest)
                ==> spec_decode_colors(line@.skip(HEADER_BYTES as int)) == Some(colors@ + rest),
            spec_decode_colors(line@.skip(pos as int)) is None ==> spec_decode_colors(
                line@.skip(HEADER_BYTES as int),
            ) is None,
        decreases line@.len() - pos,
    {
        if line.len() - pos < BYTES_PER_LED {
            return Err(LedError::Malformed);
        }
        proof {
            let tail = line@.skip(pos as int);
            assert(tail.subrange(0, BYTES_PER_LED as int) =~= line@.subrange(
                pos as int,
                pos + BYTES_PER_LED,
            ));
            assert(tail.skip(BYTES_PER_LED as int) =~= line@.skip(pos + BYTES_PER_LED));
        }
        let decoded = decode_color_at(line, pos);
        match decoded {
            None => {
                return Err(LedError::Malformed);
            },
            Some(color) => {
                proof {
                    let previous = colors@;
                    assert(spec_decode_colors(line@.skip(pos + BYTES_PER_LED)) matches Some(rest)
                        ==> previous + (seq![color] + rest) =~= previous.push(color) + rest);
                }
                colors.push(color);
                pos = pos + BYTES_PER_LED;
            },
        }
    }
    proof {
        assert(line@.skip(pos as int) =~= Seq::<u8>::empty());
        assert(colors@ + Seq::<Rgb>::empty() =~= colors@);
    }
    Ok(colors)
}

/// Rotate the color sequence left by one: the animation step that lets
/// a pattern march along the string between frames.
pub fn rotate_colors_left(colors: &mut Vec<Rgb>)
    ensures
        old(colors)@.len() == 0 ==> final(colors)@ == old(colors)@,
        old(colors)@.len() > 0 ==> final(colors)@ == old(colors)@.skip(1).push(old(colors)@[0]),
{
    if colors.len() == 0 {
        return ;
    }
    let first = colors[0];
    let mut i: usize = 1;
    while i < colors.len()
        invariant
            1 <= i <= old(colors)@.len(),
            colors@.len() == old(colors)@.len(),
            first == old(colors)@[0],
            forall|j: int| 0 <= j < i - 1 ==> colors@[j] == old(colors)@[j + 1],
            forall|j: int| i - 1 <= j < colors@.len() ==> colors@[j] == old(colors)@[j],
        decreases colors@.len() - i,
    {
        let value = colors[i];
        colors.set(i - 1, value);
        i = i + 1;
    }
    let last = colors.len() - 1;
    colors.set(last, first);
    proof {
        assert(colors@ =~= old(colors)@.skip(1).push(old(colors)@[0]));
    }
}

/// The LED string driver: the exclusively owned SPI unit and the
/// transmit buffer, sized at construction for a fixed LED count.
pub struct LedStrip {
    spi: Spi,
    buffer: Vec<u8>,
    led_count: usize,
}

impl LedStrip {
    /// How many LEDs the string was constructed for.
    pub closed spec fn led_count_spec(&self) -> int {
        self.led_count as int
    }

    /// The transmit buffer's current contents.
    pub closed spec fn buffer_spec(&self) -> Seq<u8> {
        self.buffer@
    }

    /// Every byte sent down the wire so far, in order.
    pub closed spec fn transmitted(&self) -> Seq<u8> {
        self.spi.transmitted()
    }

    /// Structural invariant: the buffer has exactly the size one frame
    /// for this LED count needs.
    pub open spec fn wf(&self) -> bool {
        self.buffer_spec().len() == HEADER_BYTES + BYTES_PER_LED * self.led_count_spec()
    }

    /// Construct the string driver.  The transmit buffer must be sized
    /// exactly `HEADER_BYTES + led_count * BYTES_PER_LED`; an undersized
    /// (or oversized) buffer is a construction-time error, not a runtime
    /// one.
    pub fn new(spi: Spi, buffer: Vec<u8>, led_count: usize) -> (result: Result<LedStrip, LedError>)
        ensures
            result is Ok <==> buffer@.len() == HEADER_BYTES + BYTES_PER_LED * led_count,
            result matches Ok(strip) ==> strip.wf() && strip.led_count_spec() == led_count
                && strip.buffer_spec() == buffer@ && strip.transmitted() == spi.transmitted(),
            result is Err ==> result == Err::<LedStrip, LedError>(LedError::BufferSize),
    {
        if buffer.len() < HEADER_BYTES {
            return Err(LedError::BufferSize);
        }
        let payload = buffer.len() - HEADER_BYTES;
        proof {
            lemma_fundamental_div_mod(payload as int, BYTES_PER_LED as int);
            if payload == BYTES_PER_LED * led_count {
                lemma_mod_multiples_basic(led_count as int, BYTES_PER_LED as int);
            }
        }
        if payload % BYTES_PER_LED != 0 || payload / BYTES_PER_LED != led_count {
            return Err(LedError::BufferSize);
        }
        Ok(LedStrip { spi, buffer, led_count })
    }

    /// How many LEDs the string was constructed for.
    pub fn led_count(&self) -> (count: usize)
        ensures
            count == self.led_count_spec(),
    {
        self.led_count
    }

    /// The byte stream transmitted so far.
    pub fn transmitted_bytes(&self) -> (bytes: &Vec<u8>)
        ensures
            bytes@ == self.transmitted(),
    {
        self.spi.log_bytes()
    }

    /// Serialize the colors into the transmit buffer and send the whole
    /// buffer as one blocking write.  Asking the string to show a
    /// different number of colors than it was constructed for fails and
    /// changes nothing.
    pub fn write(&mut self, colors: &Vec<Rgb>) -> (result: Result<(), LedError>)
        requires
            old(self).wf(),
        ensures
            final(self).wf(),
            final(self).led_count_spec() == old(self).led_count_spec(),
            result is Ok <==> colors@.len() == old(self).led_count_spec(),
            result is Ok ==> final(self).buffer_spec() == spec_frame(colors@)
                && final(self).transmitted() == old(self).transmitted() + spec_frame(colors@),
            result is Err ==> result == Err::<(), LedError>(LedError::CountMismatch) && *final(self)
                == *old(self),
    {
        if colors.len() != self.led_count {
            return Err(LedError::CountMismatch);
        }
        let frame = encode_frame(colors);
        proof {
            lemma_encode_colors_len(colors@);
        }
        self.buffer = frame;
        self.spi.write_all(&self.buffer);
        Ok(())
    }
}

} // verus!
