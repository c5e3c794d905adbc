use kernel::framebuffer::{
    init_display, Color, Display, FrameBufferDisplay, FrameBufferInfo, PixelFormat, Position,
};
use kernel::io::{_clear, _print, _print_color, init, SERIAL_PORT};
use kernel::logger::Level;
use kernel::utils::Global;

fn frame() -> FrameBufferInfo {
    FrameBufferInfo { width: 100, height: 100, stride: 100, bytes_per_pixel: 4, pixel_format: PixelFormat::Rgb }
}

#[test]
fn the_serial_port_is_the_first() {
    assert_eq!(SERIAL_PORT, 0x3F8);
}

#[test]
fn init_display_leaves_the_frame_as_it_is() {
    let mut bytes = vec![8u8; 100 * 100 * 4];
    let mut display = Global::uninit();
    init_display(&mut display, frame(), &mut bytes);
    assert_eq!(display.peek().map(|d| d.cursor()), Some(Position { x: 10, y: 20 }));
    assert_eq!(display.peek().map(|d| d.buffer().iter().all(|b| *b == 8)), Some(true));
}

#[test]
fn init_blanks_the_frame() {
    let mut bytes = vec![8u8; 100 * 100 * 4];
    let mut display = Global::uninit();
    init(&mut display, frame(), &mut bytes);
    assert_eq!(display.peek().map(|d| d.cursor()), Some(Position { x: 10, y: 20 }));
    assert_eq!(display.peek().map(|d| d.caret_shown()), Some(false));
    assert_eq!(display.peek().map(|d| d.buffer().iter().all(|b| *b == 0)), Some(true));
    assert_eq!(display.peek().map(|d| d.buffer().len()), Some(100 * 100 * 4));
}

#[test]
fn writes_reach_the_console() {
    let mut bytes = vec![0u8; 100 * 100 * 4];
    let mut display = Global::uninit();
    init(&mut display, frame(), &mut bytes);
    assert!(display.is_set());
    _print(&mut display, "ab");
    _print_color(&mut display, Color { red: 0, green: 255, blue: 0 }, "c\n");
    let mut other = vec![0u8; 100 * 100 * 4];
    let mut expected = FrameBufferDisplay::new(frame(), &mut other);
    expected.print("ab", Color { red: 255, green: 255, blue: 255 }, None);
    expected.print("c\n", Color { red: 0, green: 255, blue: 0 }, None);
    assert_eq!(display.peek().map(|d| d.buffer() == expected.buffer()), Some(true));
    assert_eq!(display.peek().map(|d| d.cursor()), Some(Position { x: 0, y: 40 }));
    _clear(&mut display);
    assert_eq!(display.peek().map(|d| d.buffer().iter().all(|b| *b == 0)), Some(true));
    assert_eq!(display.peek().map(|d| d.cursor()), Some(Position { x: 10, y: 20 }));
}

#[test]
fn levels_up_to_info_are_shown() {
    assert!(Level::Error.enabled());
    assert!(Level::Warn.enabled());
    assert!(Level::Info.enabled());
    assert!(!Level::Debug.enabled());
    assert!(!Level::Trace.enabled());
}

#[test]
fn each_level_has_its_color() {
    assert_eq!(Level::Error.color(), Color { red: 255, green: 0, blue: 0 });
    assert_eq!(Level::Warn.color(), Color { red: 255, green: 255, blue: 0 });
    assert_eq!(Level::Info.color(), Color { red: 0, green: 255, blue: 0 });
    assert_eq!(Level::Debug.color(), Color { red: 0, green: 255, blue: 255 });
    assert_eq!(Level::Trace.color(), Color { red: 0, green: 255, blue: 0 });
}
