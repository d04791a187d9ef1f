//! Text and border drawing into the console framebuffer.
//!
//! Glyph shaping is a consumed capability, not this library's logic: the
//! wrappers below hand the framebuffer to `embedded_graphics`, which renders
//! into the same MSB-first layout the panel uses.

use vstd::prelude::*;

use embedded_graphics::Drawable;
use embedded_graphics::framebuffer::Framebuffer;
use embedded_graphics::geometry::{Point, Size};
use embedded_graphics::mono_font::MonoTextStyle;
use embedded_graphics::mono_font::ascii::FONT_9X18;
use embedded_graphics::pixelcolor::BinaryColor;
use embedded_graphics::pixelcolor::raw::{BigEndian, RawU1};
use embedded_graphics::primitives::{Primitive, PrimitiveStyle, Rectangle};

use crate::geometry::{WIDTH, HEIGHT, BUF_SIZE};
use crate::stamp::LINE_CAP;

verus! {

/// The framebuffer after the 9x18 font has drawn `s` with its top-left
/// baseline at `(x, y)`.  The result depends on the arguments alone.
pub uninterp spec fn text_drawn(fb: Seq<u8>, x: i32, y: i32, s: Seq<char>) -> Seq<u8>;

/// Relies on `embedded_graphics::text::Text::draw` with the ascii 9x18 font
/// on a 1-bit MSB-first framebuffer: deterministic in the buffer, position
/// and characters; the buffer keeps its size.  The renderer advances its
/// pen with unchecked `i32` arithmetic, so the origin is kept on the panel
/// and the text to one capped line, where the pen stays far from the `i32`
/// range's edge.
#[verifier::external_body]
pub(crate) fn draw_text(fb: &mut Vec<u8>, x: i32, y: i32, s: &str)
    requires
        old(fb)@.len() == BUF_SIZE,
        0 <= x <= WIDTH as i32,
        0 <= y <= HEIGHT as i32,
        s@.len() <= LINE_CAP,
    ensures
        final(fb)@ == text_drawn(old(fb)@, x, y, s@),
        final(fb)@.len() == old(fb)@.len(),
{
    let mut t: Framebuffer<BinaryColor, RawU1, BigEndian, 800, 480, 48000> = Framebuffer::new();
    t.data_mut().copy_from_slice(fb.as_slice());
    let style = MonoTextStyle::new(&FONT_9X18, BinaryColor::On);
    let text = embedded_graphics::text::Text::with_baseline(
        s,
        Point::new(x, y),
        style,
        embedded_graphics::text::Baseline::Top,
    );
    let _ = text.draw(&mut t);
    fb.copy_from_slice(t.data());
}

/// The bits of byte `i` that lie on the one-pixel border of the panel
/// (100 bytes per row, 480 rows).
pub open spec fn border_mask(i: int) -> u8 {
    let row = i / 100;
    let col = i % 100;
    if row == 0 || row == 479 {
        0xFFu8
    } else {
        let left: u8 = if col == 0 {
            0x80
        } else {
            0x00
        };
        let right: u8 = if col == 99 {
            0x01
        } else {
            0x00
        };
        left | right
    }
}

/// A framebuffer with the one-pixel border stroked on.
pub open spec fn border_applied(fb: Seq<u8>) -> Seq<u8> {
    Seq::new(fb.len(), |i: int| fb[i] | border_mask(i))
}

/// Relies on `embedded_graphics::primitives::Rectangle` drawn with a
/// one-pixel centre-aligned stroke and no fill: it sets exactly the
/// perimeter pixels of the panel and touches nothing else.
#[verifier::external_body]
pub(crate) fn draw_border(fb: &mut Vec<u8>)
    requires
        old(fb)@.len() == BUF_SIZE,
    ensures
        final(fb)@ == border_applied(old(fb)@),
{
    let mut t: Framebuffer<BinaryColor, RawU1, BigEndian, 800, 480, 48000> = Framebuffer::new();
    t.data_mut().copy_from_slice(fb.as_slice());
    let rect = Rectangle::new(Point::new(0, 0), Size::new(800, 480));
    let _ = rect.into_styled(PrimitiveStyle::with_stroke(BinaryColor::On, 1)).draw(&mut t);
    fb.copy_from_slice(t.data());
}

} // verus!
