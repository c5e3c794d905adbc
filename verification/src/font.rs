use vstd::prelude::*;
use crate::framebuffer::Color;
use embedded_graphics::framebuffer::Framebuffer;
use embedded_graphics::geometry::Point;
use embedded_graphics::mono_font::iso_8859_1::FONT_10X20;
use embedded_graphics::mono_font::MonoTextStyleBuilder;
use embedded_graphics::pixelcolor::raw::{BigEndian, RawU24};
use embedded_graphics::pixelcolor::Rgb888;
use embedded_graphics::text::renderer::TextRenderer;
use embedded_graphics::text::Baseline;

verus! {

/// Width of one character cell in pixels.
pub const FONT_WIDTH: usize = 10;

/// Height of one character cell in pixels.
pub const FONT_HEIGHT: usize = 20;

/// Distance in pixels from the top of a character cell down to the text baseline.
pub const FONT_BASELINE: usize = 15;

/// Number of pixels in one character cell.
pub const GLYPH_PIXELS: usize = 200;

/// Number of bytes in a rendered cell: three per pixel, row by row.
pub const GLYPH_BYTES: usize = 600;

/// The rendered cell of a character: for each pixel, row by row from the top
/// left, its red, green and blue byte.
pub uninterp spec fn glyph_image(c: char, color: Color, background: Color) -> Seq<u8>;

/// The cell that is all of one color.
pub open spec fn solid_cell(color: Color) -> Seq<u8> {
    Seq::new(
        GLYPH_BYTES as nat,
        |i: int|
            if i % 3 == 0 {
                color.red
            } else if i % 3 == 1 {
                color.green
            } else {
                color.blue
            },
    )
}

/// Renders one character with `embedded_graphics`: `draw_string` of a
/// `MonoTextStyle` in the 10x20 ISO 8859-1 font, which is what `Text::draw`
/// calls for each line, into a scratch `Framebuffer` of exactly one cell.
/// Trusted: the bytes that come back depend on the character and the two
/// colors alone, and where text and background have the same color every
/// pixel of the cell has it.
#[verifier::external_body]
pub(crate) fn render_glyph(c: char, color: Color, background: Color) -> (image: [u8; 600])
    ensures
        image@ == glyph_image(c, color, background),
        color == background ==> image@ == solid_cell(color),
{
    let style = MonoTextStyleBuilder::new()
        .font(&FONT_10X20)
        .text_color(Rgb888::new(color.red, color.green, color.blue))
        .background_color(Rgb888::new(background.red, background.green, background.blue))
        .build();
    let mut cell = Framebuffer::<Rgb888, RawU24, BigEndian, 10, 20, 600>::new();
    let mut utf8 = [0u8; 4];
    let _ = style.draw_string(c.encode_utf8(&mut utf8), Point::zero(), Baseline::Top, &mut cell);
    *cell.data()
}

} // verus!
