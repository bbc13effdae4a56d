//! Stripe-buffered rendering for the badge's round 240x240 display.
//!
//! A frame is drawn in six horizontal stripes of 40 rows. Each stripe is
//! rendered off-screen into a [`StripeBuffer`], whose drawing keeps only the
//! pixels that fall inside the current stripe, and is then sent to the
//! panel in one transfer.

use vstd::prelude::*;

verus! {

/// A 16-bit RGB565 colour of the `embedded-graphics` crate, carried through
/// as an opaque value.
#[verifier::external_type_specification]
#[verifier::external_body]
pub struct ExRgb565(embedded_graphics::pixelcolor::Rgb565);

/// An RGB565 colour by its channels: red and blue in 0..=31, green in
/// 0..=63, as `Rgb565::new` takes them.
#[derive(Debug, Clone, Copy, PartialEq, Eq, Structural)]
pub struct Color565 {
    pub r: u8,
    pub g: u8,
    pub b: u8,
}

impl Color565 {
    /// Whether every channel is in its range.
    pub open spec fn wf(self) -> bool {
        self.r < 32 && self.g < 64 && self.b < 32
    }
}

/// The width of the display.
pub const WIDTH: usize = 240;

/// The height of the display.
pub const HEIGHT: usize = 240;

/// The height of a single rendering stripe.
pub const STRIPE_HEIGHT: usize = 40;

/// The number of stripes required to cover the display.
pub const NUM_STRIPES: usize = HEIGHT / STRIPE_HEIGHT;

/// Pixels in one stripe.
pub const STRIPE_PIXELS: usize = WIDTH * STRIPE_HEIGHT;

/// Errors returned while bringing up the display.
#[derive(Debug, Clone, Copy, PartialEq, Eq, Structural)]
pub enum DisplayInitError {
    DmaRxBuffer,
    DmaTxBuffer,
    ResourcesUnavailable,
    SpiConfig,
    SpiDevice,
    DisplayInit,
}

/// A buffer for rendering a single horizontal stripe of the display.
///
/// `pixels` holds the stripe row by row; `offset_y` is the display row of
/// the stripe's first row.
pub struct StripeBuffer {
    pub pixels: Vec<embedded_graphics::pixelcolor::Rgb565>,
    pub offset_y: i32,
}

/// Whether display point (`x`, `y`) falls inside the stripe starting at row
/// `offset_y`.
pub open spec fn in_stripe(x: int, y: int, offset_y: int) -> bool {
    0 <= x < WIDTH && 0 <= y - offset_y < STRIPE_HEIGHT
}

/// The index in `pixels` of display point (`x`, `y`).
pub open spec fn stripe_index(x: int, y: int, offset_y: int) -> int {
    (y - offset_y) * WIDTH + x
}

impl StripeBuffer {
    pub open spec fn wf(&self) -> bool {
        self.pixels.len() == STRIPE_PIXELS
    }

    /// A stripe filled with `bg`, starting at the top of the display.
    pub fn new(bg: embedded_graphics::pixelcolor::Rgb565) -> (s: Self)
        ensures
            s.wf(),
            s.offset_y == 0,
            forall|i: int| 0 <= i < STRIPE_PIXELS ==> #[trigger] s.pixels@[i] == bg,
    {
        let mut pixels: Vec<embedded_graphics::pixelcolor::Rgb565> = Vec::new();
        let mut i: usize = 0;
        while i < STRIPE_PIXELS
            invariant
                i <= STRIPE_PIXELS,
                pixels.len() == i,
                forall|j: int| 0 <= j < i ==> #[trigger] pixels@[j] == bg,
            decreases STRIPE_PIXELS - i,
        {
            pixels.push(bg);
            i = i + 1;
        }
        StripeBuffer { pixels, offset_y: 0 }
    }

    /// Draw one pixel at display point (`x`, `y`): it lands in the buffer
    /// when the point is inside the current stripe and is dropped otherwise.
    pub fn draw_pixel(&mut self, x: i32, y: i32, color: embedded_graphics::pixelcolor::Rgb565)
        requires
            old(self).wf(),
        ensures
            final(self).wf(),
            final(self).offset_y == old(self).offset_y,
            final(self).pixels@ == if in_stripe(x as int, y as int, old(self).offset_y as int) {
                old(self).pixels@.update(
                    stripe_index(x as int, y as int, old(self).offset_y as int),
                    color,
                )
            } else {
                old(self).pixels@
            },
    {
        let row: i64 = y as i64 - self.offset_y as i64;
        if x >= 0 && x < WIDTH as i32 && row >= 0 && row < STRIPE_HEIGHT as i64 {
            let index: usize = row as usize * WIDTH + x as usize;
            self.pixels.set(index, color);
        }
    }

    /// Draw a sequence of pixels in order, each as [`Self::draw_pixel`]
    /// does; a later pixel at the same point wins.
    pub fn draw_iter(&mut self, pixels: &[(i32, i32, embedded_graphics::pixelcolor::Rgb565)])
        requires
            old(self).wf(),
        ensures
            final(self).wf(),
            final(self).offset_y == old(self).offset_y,
            final(self).pixels@ == drawn(old(self).pixels@, old(self).offset_y as int, pixels@),
    {
        let mut k: usize = 0;
        while k < pixels.len()
            invariant
                k <= pixels.len(),
                self.wf(),
                self.offset_y == old(self).offset_y,
                self.pixels@ == drawn(old(self).pixels@, old(self).offset_y as int, pixels@.take(k as int)),
            decreases pixels.len() - k,
        {
            let (x, y, color) = pixels[k];
            self.draw_pixel(x, y, color);
            assert(pixels@.take(k + 1).drop_last() =~= pixels@.take(k as int));
            k = k + 1;
        }
        assert(pixels@.take(pixels.len() as int) =~= pixels@);
    }

    /// The size the buffer reports: the whole display, so that drawing is
    /// clipped to the stripe here and not before.
    pub fn size(&self) -> (s: (u32, u32))
        ensures
            s == (WIDTH as u32, HEIGHT as u32),
    {
        (WIDTH as u32, HEIGHT as u32)
    }
}

/// The buffer after drawing `pixels` in order.
pub open spec fn drawn(
    buffer: Seq<embedded_graphics::pixelcolor::Rgb565>,
    offset_y: int,
    pixels: Seq<(i32, i32, embedded_graphics::pixelcolor::Rgb565)>,
) -> Seq<embedded_graphics::pixelcolor::Rgb565>
    decreases pixels.len(),
{
    if pixels.len() == 0 {
        buffer
    } else {
        let before = drawn(buffer, offset_y, pixels.drop_last());
        let (x, y, color) = pixels.last();
        if in_stripe(x as int, y as int, offset_y) {
            before.update(stripe_index(x as int, y as int, offset_y), color)
        } else {
            before
        }
    }
}

/// The first display row of stripe `index`.
pub fn stripe_offset(index: usize) -> (offset: i32)
    requires
        index < NUM_STRIPES,
    ensures
        offset == index * STRIPE_HEIGHT,
{
    (index * STRIPE_HEIGHT) as i32
}

/// The display area of stripe `index`: its top-left corner, width and
/// height.
pub fn stripe_rect(index: usize) -> (rect: (i32, i32, u32, u32))
    requires
        index < NUM_STRIPES,
    ensures
        rect == (0i32, (index * STRIPE_HEIGHT) as i32, WIDTH as u32, STRIPE_HEIGHT as u32),
{
    (0, stripe_offset(index), WIDTH as u32, STRIPE_HEIGHT as u32)
}

/// The stripes tile the display: every display row lies in exactly one
/// stripe, the one numbered `y / STRIPE_HEIGHT`.
pub proof fn law_stripes_tile_display(y: int, index: int)
    requires
        0 <= y < HEIGHT,
        0 <= index < NUM_STRIPES,
    ensures
        (index * STRIPE_HEIGHT <= y < index * STRIPE_HEIGHT + STRIPE_HEIGHT) <==> index == y
            / STRIPE_HEIGHT as int,
{
}

} // verus!
