use vstd::prelude::*;
use crate::framebuffer::{
    init_display, shown, Color, ConsoleState, Display, FrameBufferDisplay, FrameBufferInfo,
};
use crate::font::{FONT_HEIGHT, FONT_WIDTH};
use crate::utils::Global;

verus! {

/// The base address of the first serial port, to which the console is mirrored.
pub const SERIAL_PORT: u16 = 0x3F8;

/// Publishes a console on `buffer` in the cell and blanks it.
pub fn init<'f>(
    display: &mut Global<FrameBufferDisplay<'f>>,
    info: FrameBufferInfo,
    buffer: &'f mut [u8],
)
    requires
        info.fits(old(buffer)@.len() as int),
        info.holds_text(),
    ensures
        shown(*final(display)) == Some(
            ConsoleState {
                info,
                buffer: Seq::new(old(buffer)@.len(), |i: int| 0u8),
                x: FONT_WIDTH as int,
                y: FONT_HEIGHT as int,
                show_caret: false,
            },
        ),
        shown(*final(display))->0.wf(),
{
    init_display(display, info, buffer);
    match display.get() {
        Some(console) => {
            console.clear();
        },
        None => {},
    }
}

/// Writes `text` to the console in the cell, in white on black. A write to
/// an empty cell is fatal: the caller makes sure that the cell is set.
pub fn _print(display: &mut Global<FrameBufferDisplay<'_>>, text: &str)
    requires
        shown(*old(display)) matches Some(console) && console.wf(),
    ensures
        shown(*final(display)) == Some(
            shown(*old(display))->0.print(text@, Color::white(), Color::black()),
        ),
        shown(*final(display))->0.wf(),
{
    match display.get() {
        Some(console) => {
            console.write_str(text);
        },
        None => {},
    }
}

/// Writes `text` to the console in the cell, in `color` on black. A write to
/// an empty cell is fatal: the caller makes sure that the cell is set.
pub fn _print_color(display: &mut Global<FrameBufferDisplay<'_>>, color: Color, text: &str)
    requires
        shown(*old(display)) matches Some(console) && console.wf(),
    ensures
        shown(*final(display)) == Some(
            shown(*old(display))->0.print(text@, color, Color::black()),
        ),
        shown(*final(display))->0.wf(),
{
    match display.get() {
        Some(console) => {
            console.print(text, color, None);
        },
        None => {},
    }
}

/// Blanks the console in the cell. A write to an empty cell is fatal: the
/// caller makes sure that the cell is set.
pub fn _clear(display: &mut Global<FrameBufferDisplay<'_>>)
    requires
        shown(*old(display)) matches Some(console) && console.wf(),
    ensures
        shown(*final(display)) == Some(shown(*old(display))->0.clear()),
        shown(*final(display))->0.wf(),
{
    match display.get() {
        Some(console) => {
            console.clear();
        },
        None => {},
    }
}

} // verus!
