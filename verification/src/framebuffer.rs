use vstd::prelude::*;
use crate::utils::Global;
use crate::font::{
    glyph_image, render_glyph, solid_cell, FONT_BASELINE, FONT_HEIGHT, FONT_WIDTH, GLYPH_PIXELS,
};

verus! {

/// A color as its red, green and blue channel.
#[derive(Debug, Clone, Copy, PartialEq, Eq, Structural)]
pub struct Color {
    pub red: u8,
    pub green: u8,
    pub blue: u8,
}

/// How the bytes of one pixel are laid out in the framebuffer.
#[derive(Debug, Clone, Copy, PartialEq, Eq, Structural)]
pub enum PixelFormat {
    /// One byte red, one byte green, one byte blue.
    Rgb,
    /// One byte blue, one byte green, one byte red.
    Bgr,
    /// A single grayscale byte.
    U8,
    /// A layout this console cannot write.
    Unknown { red_position: u8, green_position: u8, blue_position: u8 },
}

/// The geometry of a framebuffer, as the boot environment describes it.
#[derive(Debug, Clone, Copy, PartialEq, Eq, Structural)]
pub struct FrameBufferInfo {
    /// Visible pixels per row.
    pub width: usize,
    /// Visible rows.
    pub height: usize,
    /// Pixels from the start of one row to the start of the next.
    pub stride: usize,
    /// Bytes from the start of one pixel to the start of the next.
    pub bytes_per_pixel: usize,
    /// Layout of the bytes of a pixel.
    pub pixel_format: PixelFormat,
}

/// A pixel coordinate: `x` counts columns from the left, `y` rows from the top.
#[derive(Debug, Clone, Copy, PartialEq, Eq, Structural)]
pub struct Position {
    pub x: usize,
    pub y: usize,
}

/// A pixel to draw: where, and in which color.
#[derive(Debug, Clone, Copy, PartialEq, Eq, Structural)]
pub struct Pixel {
    pub position: Position,
    pub color: Color,
}

impl Color {
    /// Black: every channel off.
    pub open spec fn black() -> Color {
        Color { red: 0, green: 0, blue: 0 }
    }

    /// White: every channel full on.
    pub open spec fn white() -> Color {
        Color { red: 255, green: 255, blue: 255 }
    }

    /// The grayscale value of a color: the equal-weighted average of its
    /// channels, rounded down.
    pub open spec fn gray(self) -> int {
        (self.red + self.green + self.blue) / 3
    }
}

impl PixelFormat {
    /// The number of bytes that a write of one pixel touches, 0 for a layout
    /// that cannot be written.
    pub open spec fn channels(self) -> int {
        match self {
            PixelFormat::Rgb => 3,
            PixelFormat::Bgr => 3,
            PixelFormat::U8 => 1,
            PixelFormat::Unknown { .. } => 0,
        }
    }

    /// Whether the console can write pixels in this layout.
    pub open spec fn supported(self) -> bool {
        !(self is Unknown)
    }
}

impl FrameBufferInfo {
    /// Bytes from the start of one pixel row to the start of the next.
    pub open spec fn line_bytes(self) -> int {
        self.stride * self.bytes_per_pixel
    }

    /// Bytes that the visible rows span.
    pub open spec fn frame_bytes(self) -> int {
        self.stride * self.bytes_per_pixel * self.height
    }

    /// Index of the first byte of the pixel at column `x` of row `y`.
    pub open spec fn byte_offset(self, x: int, y: int) -> int {
        (y * self.stride + x) * self.bytes_per_pixel
    }

    /// A buffer of `len` bytes can serve as the framebuffer that `self`
    /// describes: the layout is one this console writes, each pixel has room
    /// for its channels, and every visible pixel lies inside the buffer.
    pub open spec fn fits(self, len: int) -> bool {
        &&& self.pixel_format.supported()
        &&& self.pixel_format.channels() <= self.bytes_per_pixel
        &&& self.width <= self.stride
        &&& self.frame_bytes() <= len
    }

    /// The frame is high enough for text: the baseline of the first text row
    /// lies inside it.
    pub open spec fn holds_text(self) -> bool {
        FONT_HEIGHT < self.height
    }

    /// Whether the frame is high enough for text.
    pub fn check_holds_text(&self) -> (ok: bool)
        ensures
            ok == self.holds_text(),
    {
        FONT_HEIGHT < self.height
    }

    /// Whether a buffer of `len` bytes can serve as the framebuffer that
    /// `self` describes.
    pub fn check_fits(&self, len: usize) -> (ok: bool)
        ensures
            ok == self.fits(len as int),
    {
        let channels: usize = match self.pixel_format {
            PixelFormat::Rgb => 3,
            PixelFormat::Bgr => 3,
            PixelFormat::U8 => 1,
            PixelFormat::Unknown { .. } => {
                return false;
            },
        };
        if channels > self.bytes_per_pixel || self.width > self.stride {
            return false;
        }
        let stride = self.stride;
        let bpp = self.bytes_per_pixel;
        let height = self.height;
        match stride.checked_mul(bpp) {
            None => {
                if height == 0 {
                    assert(stride * bpp * height == 0) by (nonlinear_arith)
                        requires
                            height == 0,
                    ;
                    true
                } else {
                    assert(stride * bpp <= stride * bpp * height) by (nonlinear_arith)
                        requires
                            0 <= stride * bpp,
                            1 <= height,
                    ;
                    false
                }
            },
            Some(line) => match line.checked_mul(height) {
                None => false,
                Some(total) => total <= len,
            },
        }
    }
}

/// The buffer after the pixel whose first byte is at `offset` was written in
/// `format`.
pub open spec fn spec_write_pixel(buffer: Seq<u8>, format: PixelFormat, offset: int, color: Color) -> Seq<
    u8,
> {
    match format {
        PixelFormat::Rgb => buffer.update(offset, color.red).update(offset + 1, color.green).update(
            offset + 2,
            color.blue,
        ),
        PixelFormat::Bgr => buffer.update(offset, color.blue).update(offset + 1, color.green).update(
            offset + 2,
            color.red,
        ),
        PixelFormat::U8 => buffer.update(offset, color.gray() as u8),
        PixelFormat::Unknown { .. } => buffer,
    }
}

/// The buffer after the pixel at column `x` of row `y` was set to `color`.
pub open spec fn spec_set_pixel(buffer: Seq<u8>, info: FrameBufferInfo, x: int, y: int, color: Color) -> Seq<
    u8,
> {
    spec_write_pixel(buffer, info.pixel_format, info.byte_offset(x, y), color)
}

/// The buffer after a request to draw `color` at column `x` of row `y`: a
/// coordinate outside the visible frame leaves the buffer as it is.
pub open spec fn spec_draw_pixel(buffer: Seq<u8>, info: FrameBufferInfo, x: int, y: int, color: Color) -> Seq<
    u8,
> {
    if 0 <= x < info.width && 0 <= y < info.height {
        spec_set_pixel(buffer, info, x, y, color)
    } else {
        buffer
    }
}

/// Every visible pixel of a frame that fits its buffer has all its bytes
/// inside the buffer.
pub proof fn lemma_pixel_in_buffer(info: FrameBufferInfo, len: int, x: int, y: int)
    requires
        info.fits(len),
        0 <= x < info.width,
        0 <= y < info.height,
    ensures
        0 <= info.byte_offset(x, y),
        info.byte_offset(x, y) + info.pixel_format.channels() <= info.frame_bytes(),
        info.byte_offset(x, y) + info.pixel_format.channels() <= len,
        0 <= y * info.stride <= y * info.stride + x <= info.byte_offset(x, y),
{
    let stride = info.stride as int;
    let bpp = info.bytes_per_pixel as int;
    let height = info.height as int;
    assert(bpp >= 1);
    assert(y * stride <= (height - 1) * stride) by (nonlinear_arith)
        requires
            0 <= y <= height - 1,
            0 <= stride,
    ;
    assert(0 <= y * stride) by (nonlinear_arith)
        requires
            0 <= y,
            0 <= stride,
    ;
    let pixel = y * stride + x;
    assert((height - 1) * stride + stride == height * stride) by (nonlinear_arith);
    assert(pixel + 1 <= height * stride);
    assert((pixel + 1) * bpp <= (height * stride) * bpp) by (nonlinear_arith)
        requires
            pixel + 1 <= height * stride,
            0 <= bpp,
    ;
    assert((pixel + 1) * bpp == pixel * bpp + bpp) by (nonlinear_arith);
    assert((height * stride) * bpp == stride * bpp * height) by (nonlinear_arith);
    assert(pixel <= pixel * bpp) by (nonlinear_arith)
        requires
            0 <= pixel,
            1 <= bpp,
    ;
}

/// Writes one pixel into the buffer, in the byte order that the layout asks for.
pub fn set_pixel_in(buffer: &mut [u8], info: &FrameBufferInfo, position: Position, color: Color)
    requires
        info.pixel_format.supported(),
        1 <= info.bytes_per_pixel,
        info.byte_offset(position.x as int, position.y as int) + info.pixel_format.channels() <= old(
            buffer,
        )@.len(),
    ensures
        final(buffer)@ == spec_set_pixel(
            old(buffer)@,
            *info,
            position.x as int,
            position.y as int,
            color,
        ),
{
    proof {
        vstd::slice::axiom_spec_len(buffer);
        let len = buffer@.len();
        let stride = info.stride as int;
        let bpp = info.bytes_per_pixel as int;
        let pixel = position.y * stride + position.x;
        assert(0 <= position.y * stride) by (nonlinear_arith)
            requires
                0 <= position.y,
                0 <= stride,
        ;
        assert(pixel <= pixel * bpp) by (nonlinear_arith)
            requires
                0 <= pixel,
                1 <= bpp,
        ;
        assert(pixel * bpp <= len);
    }
    let line_offset = position.y * info.stride;
    let pixel_offset = line_offset + position.x;
    let byte_offset = pixel_offset * info.bytes_per_pixel;
    match info.pixel_format {
        PixelFormat::Rgb => {
            buffer[byte_offset] = color.red;
            buffer[byte_offset + 1] = color.green;
            buffer[byte_offset + 2] = color.blue;
        },
        PixelFormat::Bgr => {
            buffer[byte_offset] = color.blue;
            buffer[byte_offset + 1] = color.green;
            buffer[byte_offset + 2] = color.red;
        },
        PixelFormat::U8 => {
            let sum: u16 = color.red as u16 + color.green as u16 + color.blue as u16;
            let gray: u16 = sum / 3;
            buffer[byte_offset] = gray as u8;
        },
        PixelFormat::Unknown { .. } => {},
    }
}

/// The color of pixel `k` of a rendered cell.
pub open spec fn glyph_color(image: Seq<u8>, k: int) -> Color {
    Color { red: image[3 * k], green: image[3 * k + 1], blue: image[3 * k + 2] }
}

/// The buffer after the first `n` pixels of a rendered cell were drawn, row
/// by row, with the top left corner of the cell at column `x` of row `y`.
pub open spec fn spec_draw_glyph(
    buffer: Seq<u8>,
    info: FrameBufferInfo,
    image: Seq<u8>,
    x: int,
    y: int,
    n: nat,
) -> Seq<u8>
    decreases n,
{
    if n == 0 {
        buffer
    } else {
        let k = n - 1;
        spec_draw_pixel(
            spec_draw_glyph(buffer, info, image, x, y, k as nat),
            info,
            x + k % (FONT_WIDTH as int),
            y + k / (FONT_WIDTH as int),
            glyph_color(image, k),
        )
    }
}

/// The buffer after the frame moved up by one character row: every byte above
/// the last character row takes the value of the byte one character row
/// further down, and what follows is zero.
pub open spec fn spec_scroll(buffer: Seq<u8>, info: FrameBufferInfo) -> Seq<u8> {
    Seq::new(
        buffer.len(),
        |i: int|
            if i < info.line_bytes() * (info.height - FONT_HEIGHT) {
                buffer[i + info.line_bytes() * FONT_HEIGHT]
            } else {
                0u8
            },
    )
}

/// The buffer after the first `n` of `pixels` were drawn, in their order.
pub open spec fn spec_draw_iter(buffer: Seq<u8>, info: FrameBufferInfo, pixels: Seq<Pixel>, n: nat) -> Seq<
    u8,
>
    decreases n,
{
    if n == 0 {
        buffer
    } else {
        let last = pixels[n - 1];
        spec_draw_pixel(
            spec_draw_iter(buffer, info, pixels, (n - 1) as nat),
            info,
            last.position.x as int,
            last.position.y as int,
            last.color,
        )
    }
}

/// The background that a write uses: black where none is given.
pub open spec fn background_or_black(background: Option<Color>) -> Color {
    match background {
        Some(color) => color,
        None => Color::black(),
    }
}

/// Drawing a pixel never changes the length of the buffer.
pub proof fn lemma_draw_pixel_len(buffer: Seq<u8>, info: FrameBufferInfo, x: int, y: int, color: Color)
    requires
        info.fits(buffer.len() as int),
    ensures
        spec_draw_pixel(buffer, info, x, y, color).len() == buffer.len(),
{
    if 0 <= x < info.width && 0 <= y < info.height {
        lemma_pixel_in_buffer(info, buffer.len() as int, x, y);
    }
}

/// Drawing a cell never changes the length of the buffer.
pub proof fn lemma_draw_glyph_len(
    buffer: Seq<u8>,
    info: FrameBufferInfo,
    image: Seq<u8>,
    x: int,
    y: int,
    n: nat,
)
    requires
        info.fits(buffer.len() as int),
    ensures
        spec_draw_glyph(buffer, info, image, x, y, n).len() == buffer.len(),
    decreases n,
{
    if n > 0 {
        let k = (n - 1) as nat;
        lemma_draw_glyph_len(buffer, info, image, x, y, k);
        lemma_draw_pixel_len(
            spec_draw_glyph(buffer, info, image, x, y, k),
            info,
            x + k % (FONT_WIDTH as nat),
            y + k / (FONT_WIDTH as nat),
            glyph_color(image, k as int),
        );
    }
}

/// What a console is, as plain values: the frame it draws on, the bytes of that
/// frame, the cursor in pixels (`x` the left edge of the next cell, `y` the
/// text baseline of the current row) and whether the caret is shown.
pub struct ConsoleState {
    pub info: FrameBufferInfo,
    pub buffer: Seq<u8>,
    pub x: int,
    pub y: int,
    pub show_caret: bool,
}

impl ConsoleState {
    /// The frame fits the buffer, so that pixels can be drawn.
    pub open spec fn frame_ok(self) -> bool {
        &&& self.info.fits(self.buffer.len() as int)
        &&& self.buffer.len() <= usize::MAX
    }

    /// The state is one in which text can be written: the frame fits the
    /// buffer and the cursor stands on a cell boundary, on a baseline inside
    /// the frame, at most one cell past the right edge.
    pub open spec fn wf(self) -> bool {
        &&& self.frame_ok()
        &&& 0 <= self.x
        &&& self.x < self.info.width + FONT_WIDTH || self.x <= FONT_WIDTH
        &&& self.x % (FONT_WIDTH as int) == 0
        &&& FONT_HEIGHT <= self.y < self.info.height
        &&& self.y % (FONT_HEIGHT as int) == 0
    }

    /// The state is on the frame of `before`: the geometry and the length of
    /// the buffer are the same.
    pub open spec fn on_frame_of(self, before: ConsoleState) -> bool {
        self.info == before.info && self.buffer.len() == before.buffer.len()
    }

    /// The number of text rows that the frame holds: the baselines that lie
    /// inside it.
    pub open spec fn rows(self) -> int {
        if self.info.height == 0 {
            0
        } else {
            (self.info.height - 1) / (FONT_HEIGHT as int)
        }
    }

    /// The number of cells in a text row: those that begin inside the frame.
    pub open spec fn columns(self) -> int {
        (self.info.width + FONT_WIDTH - 1) / (FONT_WIDTH as int)
    }

    /// The text row that the cursor is on, counted from 0.
    pub open spec fn row(self) -> int {
        self.y / (FONT_HEIGHT as int) - 1
    }

    /// The cell of its row that the cursor is on, counted from 0 at the left
    /// edge. It equals `columns()` while the cursor waits past the right edge.
    pub open spec fn column(self) -> int {
        self.x / (FONT_WIDTH as int)
    }

    /// The state after the cell `image` was drawn at the cursor.
    pub open spec fn draw_cell(self, image: Seq<u8>) -> ConsoleState {
        ConsoleState {
            buffer: spec_draw_glyph(
                self.buffer,
                self.info,
                image,
                self.x,
                self.y - FONT_BASELINE,
                GLYPH_PIXELS as nat,
            ),
            ..self
        }
    }

    /// The state after the cursor went to the left edge of the next row. On
    /// the last row the frame scrolls instead and the cursor keeps its row.
    pub open spec fn advance_row(self) -> ConsoleState {
        if self.y + FONT_HEIGHT < self.info.height {
            ConsoleState { x: 0, y: self.y + FONT_HEIGHT, ..self }
        } else {
            ConsoleState { x: 0, buffer: spec_scroll(self.buffer, self.info), ..self }
        }
    }

    /// The state in which the next cell can be drawn: the same, unless the
    /// cursor is past the right edge and wraps, as it does at a line feed.
    pub open spec fn wrapped(self) -> ConsoleState {
        if self.x >= self.info.width {
            self.advance_row()
        } else {
            self
        }
    }

    /// The state after one character was written. A line feed goes to the
    /// left edge of the next row; any other character wraps where the cursor
    /// is past the right edge, is drawn, and moves the cursor one cell to the
    /// right.
    pub open spec fn put_char(self, c: char, color: Color, background: Color) -> ConsoleState {
        if c == '\n' {
            self.advance_row()
        } else {
            let next = self.wrapped().draw_cell(glyph_image(c, color, background));
            ConsoleState { x: next.x + FONT_WIDTH, ..next }
        }
    }

    /// Whether character `i` of `text` is passed over: a carriage return at
    /// the end of a line or of the text.
    pub open spec fn passed_over(text: Seq<char>, i: int) -> bool {
        text[i] == '\r' && (i + 1 == text.len() || text[i + 1] == '\n')
    }

    /// The state after the first `n` characters of `text` were written one by
    /// one, those that are passed over left out.
    pub open spec fn print_first(
        self,
        text: Seq<char>,
        n: nat,
        color: Color,
        background: Color,
    ) -> ConsoleState
        decreases n,
    {
        if n == 0 {
            self
        } else {
            let before = self.print_first(text, (n - 1) as nat, color, background);
            if Self::passed_over(text, n - 1) {
                before
            } else {
                before.put_char(text[n - 1], color, background)
            }
        }
    }

    /// The state after `text` was written.
    pub open spec fn print(self, text: Seq<char>, color: Color, background: Color) -> ConsoleState {
        self.print_first(text, text.len(), color, background)
    }

    /// Whether writing `c` makes the cursor leave its row.
    pub open spec fn advances_on(self, c: char) -> bool {
        c == '\n' || self.x >= self.info.width
    }

    /// Whether writing `c` makes the frame scroll.
    pub open spec fn scrolls_on(self, c: char) -> bool {
        self.advances_on(c) && self.y + FONT_HEIGHT >= self.info.height
    }

    /// How many times the cursor leaves its row while the first `n`
    /// characters of `text` are written.
    pub open spec fn row_advances_first(
        self,
        text: Seq<char>,
        n: nat,
        color: Color,
        background: Color,
    ) -> nat
        decreases n,
    {
        if n == 0 {
            0
        } else {
            let before = self.print_first(text, (n - 1) as nat, color, background);
            let step: nat = if !Self::passed_over(text, n - 1) && before.advances_on(text[n - 1]) {
                1
            } else {
                0
            };
            self.row_advances_first(text, (n - 1) as nat, color, background) + step
        }
    }

    /// How many times the cursor leaves its row while `text` is written.
    pub open spec fn row_advances(self, text: Seq<char>, color: Color, background: Color) -> nat {
        self.row_advances_first(text, text.len(), color, background)
    }

    /// How many times the frame scrolls while the first `n` characters of
    /// `text` are written.
    pub open spec fn scrolls_first(
        self,
        text: Seq<char>,
        n: nat,
        color: Color,
        background: Color,
    ) -> nat
        decreases n,
    {
        if n == 0 {
            0
        } else {
            let before = self.print_first(text, (n - 1) as nat, color, background);
            let step: nat = if !Self::passed_over(text, n - 1) && before.scrolls_on(text[n - 1]) {
                1
            } else {
                0
            };
            self.scrolls_first(text, (n - 1) as nat, color, background) + step
        }
    }

    /// How many times the frame scrolls while `text` is written.
    pub open spec fn scrolls(self, text: Seq<char>, color: Color, background: Color) -> nat {
        self.scrolls_first(text, text.len(), color, background)
    }

    /// The state after the frame was blanked and the cursor sent to its start.
    pub open spec fn clear(self) -> ConsoleState {
        ConsoleState {
            buffer: Seq::new(self.buffer.len(), |i: int| 0u8),
            x: FONT_WIDTH as int,
            y: FONT_HEIGHT as int,
            ..self
        }
    }

    /// The color of the caret block: white where the caret is shown, black
    /// where it is not.
    pub open spec fn caret_color(shown: bool) -> Color {
        if shown {
            Color::white()
        } else {
            Color::black()
        }
    }

    /// The cell that the caret shows in a given state: all of its color.
    pub open spec fn caret_cell(shown: bool) -> Seq<u8> {
        solid_cell(Self::caret_color(shown))
    }

    /// The state after the caret was toggled: the cell at the cursor holds a
    /// blank in the caret's new color, and the cursor has not moved.
    pub open spec fn blink_caret(self) -> ConsoleState {
        ConsoleState {
            show_caret: !self.show_caret,
            ..self.draw_cell(Self::caret_cell(!self.show_caret))
        }
    }
}

/// A text console on a framebuffer that it has borrowed for as long as it lives.
pub struct FrameBufferDisplay<'f> {
    info: FrameBufferInfo,
    buffer: &'f mut [u8],
    current_point: Position,
    show_caret: bool,
}

impl<'f> View for FrameBufferDisplay<'f> {
    type V = ConsoleState;

    closed spec fn view(&self) -> ConsoleState {
        ConsoleState {
            info: self.info,
            buffer: self.buffer@,
            x: self.current_point.x as int,
            y: self.current_point.y as int,
            show_caret: self.show_caret,
        }
    }
}

/// The cell in which a console starts to write: one cell in from the left
/// edge, with its baseline one cell down from the top.
pub fn start_point() -> (p: Position)
    ensures
        p == (Position { x: FONT_WIDTH, y: FONT_HEIGHT }),
{
    Position { x: FONT_WIDTH, y: FONT_HEIGHT }
}

impl<'f> FrameBufferDisplay<'f> {
    /// A console on `buffer`, which is left as it is, with the cursor at its
    /// start and no caret shown. Pixels can be drawn on any frame that fits
    /// its buffer; text can be written where the frame is high enough for it.
    pub fn new(info: FrameBufferInfo, buffer: &'f mut [u8]) -> (display: Self)
        requires
            info.fits(old(buffer)@.len() as int),
        ensures
            display@ == (ConsoleState {
                info,
                buffer: old(buffer)@,
                x: FONT_WIDTH as int,
                y: FONT_HEIGHT as int,
                show_caret: false,
            }),
            display@.frame_ok(),
            display@.wf() == info.holds_text(),
    {
        proof {
            vstd::slice::axiom_spec_len(buffer);
        }
        FrameBufferDisplay { info, buffer, current_point: start_point(), show_caret: false }
    }

    /// Sets one pixel of the frame; a coordinate outside the frame is ignored.
    pub fn draw_pixel(&mut self, x: usize, y: usize, color: Color)
        requires
            old(self)@.frame_ok(),
        ensures
            final(self)@ == (ConsoleState {
                buffer: spec_draw_pixel(old(self)@.buffer, old(self)@.info, x as int, y as int, color),
                ..old(self)@
            }),
            final(self)@.frame_ok(),
            final(self)@.wf() == old(self)@.wf(),
            final(self)@.on_frame_of(old(self)@),
    {
        if x < self.info.width && y < self.info.height {
            proof {
                lemma_pixel_in_buffer(self.info, self.buffer@.len() as int, x as int, y as int);
            }
            set_pixel_in(self.buffer, &self.info, Position { x, y }, color);
        }
    }

    /// Draws the pixels in their order; those outside the frame are ignored.
    pub fn draw_iter(&mut self, pixels: &[Pixel])
        requires
            old(self)@.frame_ok(),
        ensures
            final(self)@ == (ConsoleState {
                buffer: spec_draw_iter(
                    old(self)@.buffer,
                    old(self)@.info,
                    pixels@,
                    pixels@.len(),
                ),
                ..old(self)@
            }),
            final(self)@.frame_ok(),
            final(self)@.wf() == old(self)@.wf(),
            final(self)@.on_frame_of(old(self)@),
    {
        let ghost start = self@;
        let count = pixels.len();
        let mut i: usize = 0;
        while i < count
            invariant
                i <= count,
                count == pixels@.len(),
                self@.frame_ok(),
                self@.on_frame_of(start),
                self@ == (ConsoleState {
                    buffer: spec_draw_iter(start.buffer, start.info, pixels@, i as nat),
                    ..start
                }),
            decreases count - i,
        {
            let pixel = pixels[i];
            self.draw_pixel(pixel.position.x, pixel.position.y, pixel.color);
            i += 1;
        }
    }

    /// Draws a rendered cell with its top left corner at column `x` of row
    /// `y`. What falls outside the frame is left out.
    pub fn draw_glyph(&mut self, image: &[u8; 600], x: usize, y: usize)
        requires
            old(self)@.frame_ok(),
        ensures
            final(self)@ == (ConsoleState {
                buffer: spec_draw_glyph(
                    old(self)@.buffer,
                    old(self)@.info,
                    image@,
                    x as int,
                    y as int,
                    GLYPH_PIXELS as nat,
                ),
                ..old(self)@
            }),
            final(self)@.frame_ok(),
            final(self)@.wf() == old(self)@.wf(),
            final(self)@.on_frame_of(old(self)@),
    {
        let ghost start = self@;
        let mut k: usize = 0;
        while k < GLYPH_PIXELS
            invariant
                k <= GLYPH_PIXELS,
                self@.frame_ok(),
                self@.on_frame_of(start),
                self@ == (ConsoleState {
                    buffer: spec_draw_glyph(start.buffer, start.info, image@, x as int, y as int, k as nat),
                    ..start
                }),
            decreases GLYPH_PIXELS - k,
        {
            let dx = k % FONT_WIDTH;
            let dy = k / FONT_WIDTH;
            let color = Color { red: image[3 * k], green: image[3 * k + 1], blue: image[3 * k + 2] };
            if x < self.info.width && dx < self.info.width - x && y < self.info.height && dy
                < self.info.height - y {
                self.draw_pixel(x + dx, y + dy, color);
            }
            k += 1;
        }
    }

    /// Moves the frame up by one character row and blanks what it vacates.
    fn scroll(&mut self)
        requires
            old(self)@.wf(),
        ensures
            final(self)@ == (ConsoleState {
                buffer: spec_scroll(old(self)@.buffer, old(self)@.info),
                ..old(self)@
            }),
            final(self)@.wf(),
            final(self)@.on_frame_of(old(self)@),
    {
        let ghost start = self@;
        let len = self.buffer.len();
        proof {
            lemma_row_bytes(self.info, len as int);
        }
        let line_size = self.info.stride * self.info.bytes_per_pixel;
        let shift = line_size * FONT_HEIGHT;
        let keep = line_size * (self.info.height - FONT_HEIGHT);
        let mut i: usize = 0;
        while i < keep
            invariant
                i <= keep,
                keep + shift <= len,
                len == start.buffer.len(),
                self@ == (ConsoleState { buffer: self@.buffer, ..start }),
                self@.buffer.len() == len,
                forall|j: int| 0 <= j < i ==> self@.buffer[j] == start.buffer[j + shift],
                forall|j: int| i <= j < len ==> self@.buffer[j] == start.buffer[j],
            decreases keep - i,
        {
            let byte = self.buffer[i + shift];
            self.buffer[i] = byte;
            i += 1;
        }
        while i < len
            invariant
                keep <= i <= len,
                keep + shift <= len,
                len == start.buffer.len(),
                self@ == (ConsoleState { buffer: self@.buffer, ..start }),
                self@.buffer.len() == len,
                forall|j: int| 0 <= j < keep ==> self@.buffer[j] == start.buffer[j + shift],
                forall|j: int| keep <= j < i ==> self@.buffer[j] == 0,
            decreases len - i,
        {
            self.buffer[i] = 0;
            i += 1;
        }
        assert(self@.buffer =~= spec_scroll(start.buffer, start.info));
    }

    /// Sends the cursor to the left edge of the next row, scrolling the frame
    /// where there is no next row.
    fn advance_row(&mut self)
        requires
            old(self)@.wf(),
        ensures
            final(self)@ == old(self)@.advance_row(),
            final(self)@.wf(),
            final(self)@.on_frame_of(old(self)@),
    {
        proof {
            lemma_row_bytes(self.info, self.buffer@.len() as int);
        }
        self.current_point.x = 0;
        if self.info.height - self.current_point.y > FONT_HEIGHT {
            self.current_point.y = self.current_point.y + FONT_HEIGHT;
        } else {
            self.scroll();
        }
    }

    /// Writes one character at the cursor: a line feed goes to the next row,
    /// and any other character, a carriage return too, takes a cell.
    pub fn put_char(&mut self, c: char, color: Color, background: Option<Color>)
        requires
            old(self)@.wf(),
        ensures
            final(self)@ == old(self)@.put_char(c, color, background_or_black(background)),
            final(self)@.wf(),
            final(self)@.on_frame_of(old(self)@),
    {
        let background_color = match background {
            Some(chosen) => chosen,
            None => Color { red: 0, green: 0, blue: 0 },
        };
        if c == '\n' {
            self.advance_row();
        } else {
            if self.current_point.x >= self.info.width {
                self.advance_row();
            }
            proof {
                lemma_row_bytes(self.info, self.buffer@.len() as int);
            }
            let image = render_glyph(c, color, background_color);
            self.draw_glyph(&image, self.current_point.x, self.current_point.y - FONT_BASELINE);
            self.current_point.x = self.current_point.x + FONT_WIDTH;
        }
    }

    /// Blanks the whole frame and sends the cursor to its start.
    pub fn clear(&mut self)
        requires
            old(self)@.frame_ok(),
        ensures
            final(self)@ == old(self)@.clear(),
            final(self)@.frame_ok(),
            final(self)@.wf() == old(self)@.info.holds_text(),
            final(self)@.on_frame_of(old(self)@),
    {
        let ghost start = self@;
        let len = self.buffer.len();
        let mut i: usize = 0;
        while i < len
            invariant
                i <= len,
                len == start.buffer.len(),
                self@ == (ConsoleState { buffer: self@.buffer, ..start }),
                self@.buffer.len() == len,
                forall|j: int| 0 <= j < i ==> self@.buffer[j] == 0,
            decreases len - i,
        {
            self.buffer[i] = 0;
            i += 1;
        }
        self.current_point = start_point();
        assert(self@.buffer =~= start.clear().buffer);
    }

    /// Toggles the caret: draws a blank at the cursor, white on white where
    /// the caret comes on, black on black where it goes off. The cursor stays
    /// where it is.
    pub fn blink_caret(&mut self)
        requires
            old(self)@.wf(),
        ensures
            final(self)@ == old(self)@.blink_caret(),
            final(self)@.wf(),
            final(self)@.on_frame_of(old(self)@),
    {
        self.show_caret = !self.show_caret;
        let color = if self.show_caret {
            Color { red: 255, green: 255, blue: 255 }
        } else {
            Color { red: 0, green: 0, blue: 0 }
        };
        let image = render_glyph(' ', color, color);
        self.draw_glyph(&image, self.current_point.x, self.current_point.y - FONT_BASELINE);
    }

    /// Writes `s` in white on black.
    pub fn write_str(&mut self, s: &str)
        requires
            old(self)@.wf(),
        ensures
            final(self)@ == old(self)@.print(s@, Color::white(), Color::black()),
            final(self)@.wf(),
            final(self)@.on_frame_of(old(self)@),
    {
        self.print(s, Color { red: 255, green: 255, blue: 255 }, None);
    }

    /// A writer that writes to this console in `color` on black.
    pub fn color(&mut self, color: Color) -> (colored: ColoredDisplay<'_, Self>)
        ensures
            colored.console() == old(self)@,
            colored.ink() == color,
            *final(colored.target()) == *final(self),
    {
        ColoredDisplay::new(self, color)
    }

    /// The geometry of the frame.
    pub fn info(&self) -> (info: FrameBufferInfo)
        ensures
            info == self@.info,
    {
        self.info
    }

    /// Width and height of the frame in pixels.
    pub fn size(&self) -> (size: (usize, usize))
        ensures
            size == (self@.info.width, self@.info.height),
    {
        (self.info.width, self.info.height)
    }

    /// The bytes of the frame.
    pub fn buffer(&self) -> (bytes: &[u8])
        ensures
            bytes@ == self@.buffer,
    {
        &*self.buffer
    }

    /// The cursor, in pixels.
    pub fn cursor(&self) -> (p: Position)
        ensures
            p.x == self@.x,
            p.y == self@.y,
    {
        self.current_point
    }

    /// The text row that the cursor is on, counted from 0.
    pub fn cursor_row(&self) -> (row: usize)
        requires
            FONT_HEIGHT <= self@.y,
        ensures
            row == self@.row(),
    {
        self.current_point.y / FONT_HEIGHT - 1
    }

    /// The cell of its row that the cursor is on, counted from 0.
    pub fn cursor_column(&self) -> (column: usize)
        ensures
            column == self@.column(),
    {
        self.current_point.x / FONT_WIDTH
    }

    /// The number of text rows that the frame holds.
    pub fn text_rows(&self) -> (rows: usize)
        ensures
            rows == self@.rows(),
    {
        if self.info.height == 0 {
            0
        } else {
            (self.info.height - 1) / FONT_HEIGHT
        }
    }

    /// Whether the caret is shown.
    pub fn caret_shown(&self) -> (shown: bool)
        ensures
            shown == self@.show_caret,
    {
        self.show_caret
    }
}

/// Something that text can be written to, in a color and on a background.
pub trait Display {
    /// What the display shows and where its cursor stands.
    spec fn console(&self) -> ConsoleState;

    /// Writes `text` at the cursor, on black where no background is given.
    fn print(&mut self, text: &str, color: Color, background: Option<Color>)
        requires
            old(self).console().wf(),
        ensures
            final(self).console() == old(self).console().print(
                text@,
                color,
                background_or_black(background),
            ),
            final(self).console().wf(),
            final(self).console().on_frame_of(old(self).console()),
    ;
}

impl<'f> Display for FrameBufferDisplay<'f> {
    open spec fn console(&self) -> ConsoleState {
        self@
    }

    fn print(&mut self, text: &str, color: Color, background: Option<Color>) {
        let ghost start = self@;
        let ghost paper = background_or_black(background);
        let count = text.unicode_len();
        let mut i: usize = 0;
        while i < count
            invariant
                i <= count,
                count == text@.len(),
                self@.wf(),
                self@.on_frame_of(start),
                self@ == start.print_first(text@, i as nat, color, paper),
                paper == background_or_black(background),
            decreases count - i,
        {
            let c = text.get_char(i);
            let passed_over = c == '\r' && (i + 1 == count || text.get_char(i + 1) == '\n');
            if !passed_over {
                self.put_char(c, color, background);
            }
            i += 1;
        }
    }
}

/// The bytes of one character row and of the rows above the last one fit the
/// buffer, and so do the machine's integers.
pub proof fn lemma_row_bytes(info: FrameBufferInfo, len: int)
    requires
        info.fits(len),
        info.holds_text(),
    ensures
        0 <= info.line_bytes() <= len,
        info.line_bytes() * FONT_HEIGHT + info.line_bytes() * (info.height - FONT_HEIGHT)
            == info.frame_bytes(),
        0 <= info.line_bytes() * FONT_HEIGHT <= len,
        0 <= info.line_bytes() * (info.height - FONT_HEIGHT) <= len,
        21 * info.width <= len,
{
    let line = info.line_bytes();
    let height = info.height as int;
    let stride = info.stride as int;
    let bpp = info.bytes_per_pixel as int;
    assert(0 <= line) by (nonlinear_arith)
        requires
            line == stride * bpp,
            0 <= stride,
            0 <= bpp,
    ;
    assert(line * 20 + line * (height - 20) == line * height) by (nonlinear_arith);
    assert(0 <= line * (height - 20)) by (nonlinear_arith)
        requires
            0 <= line,
            20 < height,
    ;
    assert(line <= line * height) by (nonlinear_arith)
        requires
            0 <= line,
            1 <= height,
    ;
    assert(stride <= line) by (nonlinear_arith)
        requires
            line == stride * bpp,
            0 <= stride,
            1 <= bpp,
    ;
    let width = info.width as int;
    assert(21 * width <= height * line) by (nonlinear_arith)
        requires
            width <= line,
            21 <= height,
            0 <= width,
    ;
    assert(height * line == line * height) by (nonlinear_arith);
}

/// A display together with the color in which to write to it.
pub struct ColoredDisplay<'a, TDisplay: Display> {
    display: &'a mut TDisplay,
    color: Color,
}

impl<'a, TDisplay: Display> ColoredDisplay<'a, TDisplay> {
    /// What the display underneath shows.
    pub closed spec fn console(&self) -> ConsoleState {
        self.display.console()
    }

    /// The color that this writer writes in.
    pub closed spec fn ink(&self) -> Color {
        self.color
    }

    /// The borrow of the display underneath.
    pub closed spec fn target(self) -> &'a mut TDisplay {
        self.display
    }

    pub fn new(display: &'a mut TDisplay, color: Color) -> (colored: Self)
        ensures
            colored.console() == old(display).console(),
            colored.ink() == color,
            *final(colored.target()) == *final(display),
    {
        ColoredDisplay { display, color }
    }

    /// Writes `s` to the display underneath, in this writer's color on black.
    pub fn write_str(&mut self, s: &str)
        requires
            old(self).console().wf(),
        ensures
            final(self).console() == old(self).console().print(s@, old(self).ink(), Color::black()),
            final(self).console().wf(),
            final(self).console().on_frame_of(old(self).console()),
            final(self).ink() == old(self).ink(),
            *final(final(self).target()) == *final(old(self).target()),
    {
        self.display.print(s, self.color, None);
    }
}

/// What the display in a cell shows, if the cell has been set.
pub open spec fn shown(display: Global<FrameBufferDisplay<'_>>) -> Option<ConsoleState> {
    match display@ {
        Some(console) => Some(console@),
        None => None,
    }
}

/// Publishes a console on `buffer` in the cell, with the buffer left as it
/// is, the cursor at its start and no caret shown.
pub fn init_display<'f>(
    display: &mut Global<FrameBufferDisplay<'f>>,
    info: FrameBufferInfo,
    buffer: &'f mut [u8],
)
    requires
        info.fits(old(buffer)@.len() as int),
    ensures
        shown(*final(display)) == Some(
            ConsoleState {
                info,
                buffer: old(buffer)@,
                x: FONT_WIDTH as int,
                y: FONT_HEIGHT as int,
                show_caret: false,
            },
        ),
        shown(*final(display))->0.frame_ok(),
        shown(*final(display))->0.wf() == info.holds_text(),
{
    display.set(FrameBufferDisplay::new(info, buffer));
}

} // verus!
