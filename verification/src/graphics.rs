//! Drawing pixel by pixel.
//!
//! Each pixel that lies on the screen costs a whole round trip: a window of
//! one pixel, a memory-write and the pixel's colour. That suits lines and
//! outlines. Areas are better painted with
//! [`fill`](crate::driver::ILI9486::fill) or
//! [`write_pixels`](crate::driver::ILI9486::write_pixels).

use vstd::prelude::*;
use crate::config::{PANEL_HEIGHT, PANEL_WIDTH};
use crate::driver::ILI9486;
use crate::error::DisplayError;
use crate::hal::OutputPin;
use crate::interface::Interface;
use crate::protocol::{pixels_plan, window_plan};
use crate::trace::{continued, flat_map_split, performed, stopped_early, Event};

verus! {

/// The sixteen bits of a colour with five bits of red, six of green and five
/// of blue: red on top, blue at the bottom. Bits of a channel above its
/// width are dropped.
pub open spec fn packed(r: u8, g: u8, b: u8) -> u16 {
    ((r & 0x1f) as u16) << 11 | ((g & 0x3f) as u16) << 5 | ((b & 0x1f) as u16)
}

/// Packs a colour into the sixteen bits the controller takes, by
/// `embedded_graphics`: `Rgb565::new` keeps the low five, six and five bits
/// of the channels and puts red at bit 11, green at bit 5 and blue at bit 0;
/// `RawU16::from` and `into_inner` hand those sixteen bits on unchanged.
#[verifier::external_body]
fn pack(r: u8, g: u8, b: u8) -> (raw: u16)
    ensures
        raw == packed(r, g, b),
{
    let color = embedded_graphics::pixelcolor::Rgb565::new(r, g, b);
    let raw = embedded_graphics::pixelcolor::raw::RawU16::from(color);
    embedded_graphics::pixelcolor::raw::RawData::into_inner(raw)
}

/// A colour in the controller's sixteen-bit format.
#[derive(Clone, Copy, PartialEq, Eq, Structural, Debug)]
pub struct Rgb565 {
    pub r: u8,
    pub g: u8,
    pub b: u8,
}

impl Rgb565 {
    /// The word that carries this colour to the controller.
    pub open spec fn spec_raw(self) -> u16 {
        packed(self.r, self.g, self.b)
    }

    /// The colour with the channels `r`, `g` and `b`. Red and blue have five
    /// bits and green has six; higher bits are ignored.
    pub fn new(r: u8, g: u8, b: u8) -> (color: Rgb565)
        ensures
            color == (Rgb565 { r, g, b }),
    {
        Rgb565 { r, g, b }
    }

    /// The word that carries this colour to the controller.
    #[verifier::when_used_as_spec(spec_raw)]
    pub fn raw(self) -> (word: u16)
        ensures
            word == self.spec_raw(),
    {
        pack(self.r, self.g, self.b)
    }

    /// The word of a colour, in numbers: red counts 2048, green 32 and blue
    /// 1, each channel reduced to its width.
    pub proof fn raw_value(self)
        ensures
            self.raw() == (self.r % 32) * 2048 + (self.g % 64) * 32 + (self.b % 32),
    {
        let r = self.r;
        let g = self.g;
        let b = self.b;
        assert((((r & 0x1f) as u16) << 11 | ((g & 0x3f) as u16) << 5 | ((b & 0x1f) as u16)) == (r
            % 32) * 2048 + (g % 64) * 32 + (b % 32)) by (bit_vector);
    }
}

/// A colour at a place. The place may lie off the screen, on any side.
#[derive(Clone, Copy, PartialEq, Eq, Structural, Debug)]
pub struct Pixel {
    pub x: i32,
    pub y: i32,
    pub color: Rgb565,
}

impl Pixel {
    /// Whether the pixel lies on a screen of `width` by `height` pixels.
    pub open spec fn spec_is_within(self, width: u16, height: u16) -> bool {
        0 <= self.x < width && 0 <= self.y < height
    }

    /// Whether the pixel lies on a screen of `width` by `height` pixels.
    #[verifier::when_used_as_spec(spec_is_within)]
    pub fn is_within(self, width: u16, height: u16) -> (within: bool)
        ensures
            within == self.spec_is_within(width, height),
    {
        0 <= self.x && self.x < width as i32 && 0 <= self.y && self.y < height as i32
    }
}

/// Drawing one pixel on a screen of `width` by `height` pixels: if it lies
/// on the screen, a window of that one pixel and then its colour; if not,
/// nothing.
pub open spec fn pixel_plan(pixel: Pixel, width: u16, height: u16) -> Seq<Event> {
    if pixel.is_within(width, height) {
        window_plan(pixel.x as u16, pixel.y as u16, pixel.x as u16, pixel.y as u16) + pixels_plan(
            seq![pixel.color.raw()],
        )
    } else {
        Seq::empty()
    }
}

/// Drawing pixels on a screen of `width` by `height` pixels: each of them
/// in turn.
pub open spec fn draw_plan(pixels: Seq<Pixel>, width: u16, height: u16) -> Seq<Event> {
    pixels.flat_map(|pixel: Pixel| pixel_plan(pixel, width, height))
}

/// The first `i + 1` pixels are drawn by drawing the first `i` and then
/// pixel `i`.
pub proof fn draw_plan_next(pixels: Seq<Pixel>, width: u16, height: u16, i: int)
    requires
        0 <= i < pixels.len(),
    ensures
        draw_plan(pixels.take(i + 1), width, height) == draw_plan(pixels.take(i), width, height)
            + pixel_plan(pixels[i], width, height),
{
    pixels.lemma_flat_map_take_append(|pixel: Pixel| pixel_plan(pixel, width, height), i);
}

/// Pixels are drawn by drawing the first `i` of them and then the others.
pub proof fn draw_plan_split(pixels: Seq<Pixel>, width: u16, height: u16, i: int)
    requires
        0 <= i <= pixels.len(),
    ensures
        draw_plan(pixels, width, height) == draw_plan(pixels.take(i), width, height) + draw_plan(
            pixels.skip(i),
            width,
            height,
        ),
{
    flat_map_split(pixels, |pixel: Pixel| pixel_plan(pixel, width, height), i);
}

/// A pixel one column past the right edge puts nothing on the bus, and so
/// does a pixel one row past the bottom edge. The pixel in the top left
/// corner costs exactly one window and one memory-write.
pub proof fn clipping_at_the_edges(width: u16, height: u16, color: Rgb565)
    requires
        0 < width,
        0 < height,
    ensures
        pixel_plan(Pixel { x: width as i32, y: 0, color }, width, height) == Seq::<Event>::empty(),
        pixel_plan(Pixel { x: 0, y: height as i32, color }, width, height) == Seq::<
            Event,
        >::empty(),
        pixel_plan(Pixel { x: 0, y: 0, color }, width, height) == window_plan(0, 0, 0, 0)
            + pixels_plan(seq![color.raw()]),
        pixel_plan(Pixel { x: 0, y: 0, color }, width, height).len() == 6,
{
}

impl<CSX, RSX, IF> ILI9486<CSX, RSX, IF> where IF: Interface, CSX: OutputPin, RSX: OutputPin {
    /// Draws one pixel, or nothing if the pixel lies off the screen as it
    /// is turned now.
    pub fn draw_pixel(&mut self, pixel: Pixel) -> (r: Result<(), DisplayError>)
        ensures
            performed(
                old(self).trace(),
                pixel_plan(pixel, old(self).config().width(), old(self).config().height()),
                final(self).trace(),
                r,
            ),
            final(self).config() == old(self).config(),
    {
        let ghost before = self.trace();
        let width = self.width();
        let height = self.height();
        if !pixel.is_within(width, height) {
            return Ok(());
        }
        let x = pixel.x as u16;
        let y = pixel.y as u16;
        let ghost window = window_plan(x, y, x, y);
        let ghost write = pixels_plan(seq![pixel.color.raw()]);
        let r = self.set_window(x, y, x, y);
        if r.is_err() {
            proof {
                stopped_early(before, window, write, self.trace(), r->Err_0);
            }
            return r;
        }
        let word = [pixel.color.raw()];
        assert(word@ =~= seq![pixel.color.raw()]);
        let r = self.write_pixels(&word);
        proof {
            continued(before, window, write, self.trace(), r);
        }
        r
    }

    /// Draws `pixels` in order and stops at the first failure. Pixels off
    /// the screen are skipped without a word.
    pub fn draw_iter(&mut self, pixels: &[Pixel]) -> (r: Result<(), DisplayError>)
        ensures
            performed(
                old(self).trace(),
                draw_plan(pixels@, old(self).config().width(), old(self).config().height()),
                final(self).trace(),
                r,
            ),
            final(self).config() == old(self).config(),
    {
        let ghost before = self.trace();
        let ghost config = self.config();
        let ghost width = self.config().width();
        let ghost height = self.config().height();
        let mut i: usize = 0;
        while i < pixels.len()
            invariant
                i <= pixels.len(),
                before == old(self).trace(),
                config == old(self).config(),
                width == config.width(),
                height == config.height(),
                self.config() == config,
                self.trace() == before + draw_plan(pixels@.take(i as int), width, height),
            decreases pixels.len() - i,
        {
            let ghost done = draw_plan(pixels@.take(i as int), width, height);
            let ghost here = pixel_plan(pixels@[i as int], width, height);
            let ghost rest = draw_plan(pixels@.skip(i + 1), width, height);
            proof {
                draw_plan_next(pixels@, width, height, i as int);
                draw_plan_split(pixels@, width, height, i + 1);
                assert(draw_plan(pixels@, width, height) =~= done + (here + rest));
            }
            let r = self.draw_pixel(pixels[i]);
            if r.is_err() {
                proof {
                    stopped_early(before + done, here, rest, self.trace(), r->Err_0);
                    continued(before, done, here + rest, self.trace(), r);
                }
                return r;
            }
            i = i + 1;
        }
        assert(pixels@.take(i as int) =~= pixels@);
        Ok(())
    }

    /// The size of the panel held upright, in columns and rows: 320 by 480,
    /// however the panel is turned. What is drawn is clipped to the current
    /// [`width`](Self::width) and [`height`](Self::height), not to this.
    pub fn size(&self) -> (size: (u32, u32))
        ensures
            size.0 == PANEL_WIDTH,
            size.1 == PANEL_HEIGHT,
    {
        (PANEL_WIDTH as u32, PANEL_HEIGHT as u32)
    }
}

} // verus!
