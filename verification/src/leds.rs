//! The badge's chain of 19 WS2812B LEDs, driven by the RMT peripheral.
//!
//! A frame of colours becomes a list of RMT pulse codes: 24 per LED, one per
//! colour bit in the order green, red, blue, most significant bit first,
//! then four long low pulses that latch the colours, then an end marker.
//! The chain has 19 LEDs, so colours beyond the 19th are not sent.

use vstd::prelude::*;
use crate::pins::pin::bit_is_set;

verus! {

/// Number of LEDs in the chain.
pub const NUM_LEDS: usize = 19;

/// Pulse codes per LED: eight bits for each of green, red and blue.
pub const PULSES_PER_LED: usize = 24;

/// Long low pulses sent after the data to latch the colours.
pub const RESET_PULSES: usize = 4;

/// Pulse codes in a full frame, end marker included.
pub const TX_BUFFER_SIZE: usize = NUM_LEDS * PULSES_PER_LED + RESET_PULSES + 1;

/// High time of a zero bit, in 12.5 ns ticks of the 80 MHz RMT clock.
pub const T0H: u16 = 32;

/// Low time of a zero bit.
pub const T0L: u16 = 68;

/// High time of a one bit.
pub const T1H: u16 = 68;

/// Low time of a one bit.
pub const T1L: u16 = 32;

/// Length of each half of a reset pulse.
pub const RESET_HALF_LENGTH: u16 = 12000;

/// Largest length an RMT pulse half can have.
pub const MAX_PULSE_LENGTH: u16 = 0x7FFF;

/// An 8-bit-per-channel RGB colour.
#[derive(Debug, Clone, Copy, PartialEq, Eq, Structural)]
pub struct Rgb8 {
    pub r: u8,
    pub g: u8,
    pub b: u8,
}

/// The colours of the `smart-leds` palette that the badge programs use.
#[derive(Debug, Clone, Copy, PartialEq, Eq, Structural)]
pub enum NamedColor {
    Black,
    White,
    Red,
    Yellow,
    Green,
    Blue,
    Cyan,
    Magenta,
}

/// The RGB value of a palette colour.
pub open spec fn spec_named_color(c: NamedColor) -> Rgb8 {
    match c {
        NamedColor::Black => Rgb8 { r: 0x00, g: 0x00, b: 0x00 },
        NamedColor::White => Rgb8 { r: 0xFF, g: 0xFF, b: 0xFF },
        NamedColor::Red => Rgb8 { r: 0xFF, g: 0x00, b: 0x00 },
        NamedColor::Yellow => Rgb8 { r: 0xFF, g: 0xFF, b: 0x00 },
        NamedColor::Green => Rgb8 { r: 0x00, g: 0x80, b: 0x00 },
        NamedColor::Blue => Rgb8 { r: 0x00, g: 0x00, b: 0xFF },
        NamedColor::Cyan => Rgb8 { r: 0x00, g: 0xFF, b: 0xFF },
        NamedColor::Magenta => Rgb8 { r: 0xFF, g: 0x00, b: 0xFF },
    }
}

/// The RGB value of a palette colour (green is the web colour, at half
/// intensity).
pub fn named_color(c: NamedColor) -> (rgb: Rgb8)
    ensures
        rgb == spec_named_color(c),
{
    match c {
        NamedColor::Black => Rgb8 { r: 0x00, g: 0x00, b: 0x00 },
        NamedColor::White => Rgb8 { r: 0xFF, g: 0xFF, b: 0xFF },
        NamedColor::Red => Rgb8 { r: 0xFF, g: 0x00, b: 0x00 },
        NamedColor::Yellow => Rgb8 { r: 0xFF, g: 0xFF, b: 0x00 },
        NamedColor::Green => Rgb8 { r: 0x00, g: 0x80, b: 0x00 },
        NamedColor::Blue => Rgb8 { r: 0x00, g: 0x00, b: 0xFF },
        NamedColor::Cyan => Rgb8 { r: 0x00, g: 0xFF, b: 0xFF },
        NamedColor::Magenta => Rgb8 { r: 0xFF, g: 0x00, b: 0xFF },
    }
}

/// A colour at half intensity: each channel halved, rounded down.
pub open spec fn spec_half(c: Rgb8) -> Rgb8 {
    Rgb8 { r: c.r / 2, g: c.g / 2, b: c.b / 2 }
}

/// A colour at half intensity: each channel halved, rounded down.
pub fn half(c: Rgb8) -> (h: Rgb8)
    ensures
        h == spec_half(c),
{
    Rgb8 { r: c.r / 2, g: c.g / 2, b: c.b / 2 }
}

/// A frame with every LED in `color`.
pub fn uniform_frame(color: Rgb8) -> (frame: [Rgb8; 19])
    ensures
        forall|i: int| 0 <= i < NUM_LEDS ==> #[trigger] frame@[i] == color,
{
    [color; 19]
}

impl Rgb8 {
    /// All channels off.
    pub fn black() -> (c: Rgb8)
        ensures
            c == (Rgb8 { r: 0, g: 0, b: 0 }),
    {
        Rgb8 { r: 0, g: 0, b: 0 }
    }
}

/// One RMT pulse code: a first half of `length1` ticks at `level1`, then a
/// second half of `length2` ticks at `level2` (`true` is high). A code with
/// a zero length ends the transmission.
#[derive(Debug, Clone, Copy, PartialEq, Eq, Structural)]
pub struct PulseCode {
    pub level1: bool,
    pub length1: u16,
    pub level2: bool,
    pub length2: u16,
}

impl PulseCode {
    /// A pulse code; each length fits the RMT's 15-bit field.
    pub fn new(level1: bool, length1: u16, level2: bool, length2: u16) -> (p: PulseCode)
        requires
            length1 <= MAX_PULSE_LENGTH,
            length2 <= MAX_PULSE_LENGTH,
        ensures
            p == (PulseCode { level1, length1, level2, length2 }),
    {
        PulseCode { level1, length1, level2, length2 }
    }

    /// The all-zero pulse code, which ends a transmission.
    pub open spec fn spec_end_marker() -> PulseCode {
        PulseCode { level1: false, length1: 0, level2: false, length2: 0 }
    }

    /// The all-zero pulse code, which ends a transmission.
    pub fn end_marker() -> (p: PulseCode)
        ensures
            p == Self::spec_end_marker(),
    {
        PulseCode { level1: false, length1: 0, level2: false, length2: 0 }
    }

    /// Whether the code ends a transmission: one of its lengths is zero.
    pub open spec fn spec_is_end_marker(self) -> bool {
        self.length1 == 0 || self.length2 == 0
    }

    /// Whether the code ends a transmission: one of its lengths is zero.
    pub fn is_end_marker(&self) -> (b: bool)
        ensures
            b == self.spec_is_end_marker(),
    {
        self.length1 == 0 || self.length2 == 0
    }
}

/// The pulse for one colour bit.
pub open spec fn bit_pulse(one: bool) -> PulseCode {
    if one {
        PulseCode { level1: true, length1: T1H, level2: false, length2: T1L }
    } else {
        PulseCode { level1: true, length1: T0H, level2: false, length2: T0L }
    }
}

/// The eight pulses of a byte, most significant bit first.
pub open spec fn byte_pulses(byte: u8) -> Seq<PulseCode> {
    Seq::new(8, |i: int| bit_pulse(bit_is_set(byte, (7 - i) as u8)))
}

/// The 24 pulses of a colour: green, red, blue.
pub open spec fn color_pulses(c: Rgb8) -> Seq<PulseCode> {
    byte_pulses(c.g) + byte_pulses(c.r) + byte_pulses(c.b)
}

/// The data pulses of a sequence of colours.
pub open spec fn data_pulses(colors: Seq<Rgb8>) -> Seq<PulseCode>
    decreases colors.len(),
{
    if colors.len() == 0 {
        seq![]
    } else {
        data_pulses(colors.drop_last()) + color_pulses(colors.last())
    }
}

/// A reset pulse: low for both halves.
pub open spec fn reset_pulse() -> PulseCode {
    PulseCode { level1: false, length1: RESET_HALF_LENGTH, level2: false, length2: RESET_HALF_LENGTH }
}

/// The number of colours of a frame that reach the chain.
pub open spec fn sent_colors(colors: Seq<Rgb8>) -> int {
    if colors.len() < NUM_LEDS {
        colors.len() as int
    } else {
        NUM_LEDS as int
    }
}

/// The pulses that transmit a frame: the data pulses of the first 19
/// colours, four reset pulses and the end marker.
pub open spec fn spec_frame(colors: Seq<Rgb8>) -> Seq<PulseCode> {
    data_pulses(colors.take(sent_colors(colors))) + seq![
        reset_pulse(),
        reset_pulse(),
        reset_pulse(),
        reset_pulse(),
    ] + seq![PulseCode::spec_end_marker()]
}

proof fn lemma_data_pulses_len(colors: Seq<Rgb8>)
    ensures
        data_pulses(colors).len() == 24 * colors.len(),
    decreases colors.len(),
{
    if colors.len() > 0 {
        lemma_data_pulses_len(colors.drop_last());
    }
}

proof fn lemma_data_pulses_no_end_marker(colors: Seq<Rgb8>)
    ensures
        forall|j: int|
            0 <= j < data_pulses(colors).len() ==> !(#[trigger] data_pulses(colors)[j]).spec_is_end_marker(),
    decreases colors.len(),
{
    if colors.len() > 0 {
        lemma_data_pulses_no_end_marker(colors.drop_last());
        let c = colors.last();
        assert forall|j: int| 0 <= j < color_pulses(c).len() implies !(
        #[trigger] color_pulses(c)[j]).spec_is_end_marker() by {
            if j < 8 {
                assert(color_pulses(c)[j] == byte_pulses(c.g)[j]);
            } else if j < 16 {
                assert(color_pulses(c)[j] == byte_pulses(c.r)[j - 8]);
            } else {
                assert(color_pulses(c)[j] == byte_pulses(c.b)[j - 16]);
            }
        }
        let prev = data_pulses(colors.drop_last());
        assert forall|j: int| 0 <= j < data_pulses(colors).len() implies !(
        #[trigger] data_pulses(colors)[j]).spec_is_end_marker() by {
            if j < prev.len() {
                assert(data_pulses(colors)[j] == prev[j]);
            } else {
                assert(data_pulses(colors)[j] == color_pulses(c)[j - prev.len()]);
            }
        }
    }
}

/// Write the eight pulses of `byte` at `buffer[start..start + 8]`.
fn encode_byte(buffer: &mut Vec<PulseCode>, start: usize, byte: u8)
    requires
        start + 8 <= old(buffer).len(),
    ensures
        final(buffer).len() == old(buffer).len(),
        forall|j: int| 0 <= j < 8 ==> final(buffer)@[start + j] == #[trigger] byte_pulses(byte)[j],
        forall|j: int|
            0 <= j < old(buffer).len() && !(start <= j < start + 8) ==> final(buffer)@[j]
                == old(buffer)@[j],
{
    let mut k: usize = 0;
    while k < 8
        invariant
            k <= 8,
            start + 8 <= buffer.len(),
            buffer.len() == old(buffer).len(),
            forall|j: int| 0 <= j < k ==> buffer@[start + j] == #[trigger] byte_pulses(byte)[j],
            forall|j: int|
                0 <= j < old(buffer).len() && !(start <= j < start + k) ==> buffer@[j] == old(
                    buffer,
                )@[j],
        decreases 8 - k,
    {
        let shift: u8 = (7 - k) as u8;
        let (high, low) = if (byte >> shift) & 1 == 1 {
            (T1H, T1L)
        } else {
            (T0H, T0L)
        };
        buffer[start + k] = PulseCode::new(true, high, false, low);
        assert(byte_pulses(byte)[k as int] == bit_pulse(bit_is_set(byte, shift)));
        k = k + 1;
    }
}

/// Encode a frame of colours into `buffer`, which has room for a full frame.
///
/// The first `spec_frame(colors).len()` codes of `buffer` become the frame's
/// pulses; the codes after them are left as they were.
pub fn encode_frame(colors: &[Rgb8], buffer: &mut Vec<PulseCode>)
    requires
        old(buffer).len() == TX_BUFFER_SIZE,
    ensures
        final(buffer).len() == TX_BUFFER_SIZE,
        spec_frame(colors@).len() == PULSES_PER_LED * sent_colors(colors@) + RESET_PULSES + 1,
        forall|j: int|
            0 <= j < spec_frame(colors@).len() ==> final(buffer)@[j] == #[trigger] spec_frame(
                colors@,
            )[j],
        forall|j: int|
            spec_frame(colors@).len() <= j < TX_BUFFER_SIZE ==> final(buffer)@[j] == old(
                buffer,
            )@[j],
{
    let n: usize = if colors.len() < NUM_LEDS {
        colors.len()
    } else {
        NUM_LEDS
    };
    let mut idx: usize = 0;
    let mut ci: usize = 0;
    while ci < n
        invariant
            n == sent_colors(colors@),
            n <= colors.len(),
            n <= NUM_LEDS,
            ci <= n,
            idx == 24 * ci,
            buffer.len() == TX_BUFFER_SIZE,
            data_pulses(colors@.take(ci as int)).len() == idx,
            forall|j: int| 0 <= j < idx ==> buffer@[j] == #[trigger] data_pulses(colors@.take(ci as int))[j],
            forall|j: int| idx <= j < TX_BUFFER_SIZE ==> buffer@[j] == old(buffer)@[j],
        decreases n - ci,
    {
        let color = colors[ci];
        let ghost before = buffer@;
        encode_byte(buffer, idx, color.g);
        encode_byte(buffer, idx + 8, color.r);
        encode_byte(buffer, idx + 16, color.b);
        proof {
            let prev = colors@.take(ci as int);
            let next = colors@.take(ci + 1);
            assert(next.drop_last() =~= prev);
            assert(next.last() == color);
            lemma_data_pulses_len(next);
            assert forall|j: int| 0 <= j < idx + 24 implies buffer@[j] == #[trigger] data_pulses(next)[j] by {
                if j < idx {
                    assert(data_pulses(next)[j] == data_pulses(prev)[j]);
                } else if j < idx + 8 {
                    assert(data_pulses(next)[j] == color_pulses(color)[j - idx]);
                    assert(color_pulses(color)[j - idx] == byte_pulses(color.g)[j - idx]);
                    assert(buffer@[idx + (j - idx)] == byte_pulses(color.g)[j - idx]);
                } else if j < idx + 16 {
                    assert(data_pulses(next)[j] == color_pulses(color)[j - idx]);
                    assert(color_pulses(color)[j - idx] == byte_pulses(color.r)[j - idx - 8]);
                    assert(buffer@[idx + 8 + (j - idx - 8)] == byte_pulses(color.r)[j - idx - 8]);
                } else {
                    assert(data_pulses(next)[j] == color_pulses(color)[j - idx]);
                    assert(color_pulses(color)[j - idx] == byte_pulses(color.b)[j - idx - 16]);
                    assert(buffer@[idx + 16 + (j - idx - 16)] == byte_pulses(color.b)[j - idx - 16]);
                }
            }
        }
        idx = idx + 24;
        ci = ci + 1;
    }
    proof {
        assert(colors@.take(n as int) == colors@.take(sent_colors(colors@)));
        lemma_data_pulses_len(colors@.take(n as int));
    }
    let ghost data_len = idx;
    let mut r: usize = 0;
    while r < RESET_PULSES
        invariant
            r <= RESET_PULSES,
            idx == data_len + r,
            data_len <= NUM_LEDS * PULSES_PER_LED,
            buffer.len() == TX_BUFFER_SIZE,
            data_pulses(colors@.take(n as int)).len() == data_len,
            forall|j: int| 0 <= j < data_len ==> buffer@[j] == #[trigger] data_pulses(colors@.take(n as int))[j],
            forall|j: int| data_len <= j < idx ==> buffer@[j] == reset_pulse(),
            forall|j: int| idx <= j < TX_BUFFER_SIZE ==> buffer@[j] == old(buffer)@[j],
        decreases RESET_PULSES - r,
    {
        buffer[idx] = PulseCode::new(false, RESET_HALF_LENGTH, false, RESET_HALF_LENGTH);
        idx = idx + 1;
        r = r + 1;
    }
    buffer[idx] = PulseCode::end_marker();
    proof {
        let frame = spec_frame(colors@);
        assert(colors@.take(n as int) == colors@.take(sent_colors(colors@)));
        assert forall|j: int| 0 <= j < frame.len() implies buffer@[j] == #[trigger] frame[j] by {
            if j < data_len {
                assert(frame[j] == data_pulses(colors@.take(n as int))[j]);
            } else if j < data_len + 4 {
                assert(frame[j] == reset_pulse());
            } else {
                assert(frame[j] == PulseCode::spec_end_marker());
            }
        }
    }
}

/// The first end marker in `codes` is at `index`.
pub open spec fn first_end_marker_at(codes: Seq<PulseCode>, index: int) -> bool {
    &&& 0 <= index < codes.len()
    &&& codes[index].spec_is_end_marker()
    &&& forall|j: int| 0 <= j < index ==> !(#[trigger] codes[j]).spec_is_end_marker()
}

/// The number of codes of a full buffer that are transmitted: up to and
/// including the first end marker, or the whole buffer if it holds none.
pub fn frame_length(buffer: &[PulseCode]) -> (len: usize)
    requires
        buffer.len() == TX_BUFFER_SIZE,
    ensures
        (exists|i: int| first_end_marker_at(buffer@, i)) ==> first_end_marker_at(buffer@, len - 1),
        (forall|i: int| 0 <= i < buffer.len() ==> !(#[trigger] buffer@[i]).spec_is_end_marker()) ==> len
            == TX_BUFFER_SIZE,
{
    let mut i: usize = 0;
    while i < buffer.len()
        invariant
            i <= buffer.len(),
            buffer.len() == TX_BUFFER_SIZE,
            forall|j: int| 0 <= j < i ==> !(#[trigger] buffer@[j]).spec_is_end_marker(),
        decreases buffer.len() - i,
    {
        if buffer[i].is_end_marker() {
            assert(first_end_marker_at(buffer@, i as int));
            return i + 1;
        }
        i = i + 1;
    }
    proof {
        assert forall|k: int| !first_end_marker_at(buffer@, k) by {
            if 0 <= k < buffer.len() {
                assert(!buffer@[k].spec_is_end_marker());
            }
        }
    }
    TX_BUFFER_SIZE
}

/// After a frame is encoded, the codes transmitted are exactly the frame:
/// its data and reset pulses hold no end marker, and it ends with one.
pub proof fn law_transmitted_codes_are_the_frame(colors: Seq<Rgb8>, buffer: Seq<PulseCode>)
    requires
        buffer.len() == TX_BUFFER_SIZE,
        spec_frame(colors).len() <= TX_BUFFER_SIZE,
        forall|j: int| 0 <= j < spec_frame(colors).len() ==> buffer[j] == #[trigger] spec_frame(colors)[j],
    ensures
        first_end_marker_at(buffer, spec_frame(colors).len() - 1),
        buffer.take(spec_frame(colors).len() as int) =~= spec_frame(colors),
{
    let frame = spec_frame(colors);
    let data = data_pulses(colors.take(sent_colors(colors)));
    lemma_data_pulses_no_end_marker(colors.take(sent_colors(colors)));
    lemma_data_pulses_len(colors.take(sent_colors(colors)));
    assert forall|j: int| 0 <= j < frame.len() - 1 implies !(#[trigger] buffer[j]).spec_is_end_marker() by {
        assert(buffer[j] == frame[j]);
        if j < data.len() {
            assert(frame[j] == data[j]);
        } else {
            assert(frame[j] == reset_pulse());
        }
    }
    assert(buffer[frame.len() - 1] == frame[frame.len() - 1]);
}

} // verus!
