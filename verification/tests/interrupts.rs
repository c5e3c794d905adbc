use kernel::framebuffer::{Display, FrameBufferDisplay, FrameBufferInfo, PixelFormat, Position};
use kernel::interrupts::{
    check_offsets, controller, echo_key, init_idt, keyboard_interrupt_handler,
    notify_end_of_interrupt, timer_interrupt_handler, Aftermath, BootStep, Controller,
    InterruptIndex, Timer, Trap, TrapBinding, CARET_PERIOD, PIC_1_OFFSET, PIC_2_OFFSET,
};
use kernel::framebuffer::Color;
use kernel::keyboard::{DecodedKey, Decoder};
use kernel::utils::{Global, Uninitialized};

const WHITE: Color = Color { red: 255, green: 255, blue: 255 };

fn frame() -> FrameBufferInfo {
    FrameBufferInfo { width: 200, height: 100, stride: 200, bytes_per_pixel: 4, pixel_format: PixelFormat::Rgb }
}

#[test]
fn the_interrupts_have_the_first_two_vectors_of_the_master() {
    assert_eq!(PIC_1_OFFSET, 32);
    assert_eq!(PIC_2_OFFSET, 40);
    assert_eq!(InterruptIndex::Timer.as_u8(), 32);
    assert_eq!(InterruptIndex::Keyboard.as_u8(), 33);
    assert_eq!(u8::from(InterruptIndex::Timer), 32);
    assert_eq!(u8::from(InterruptIndex::Keyboard), 33);
    assert_eq!(notify_end_of_interrupt(InterruptIndex::Timer), 32);
    assert_eq!(notify_end_of_interrupt(InterruptIndex::Keyboard), 33);
}

#[test]
fn each_vector_has_its_controller() {
    assert_eq!(controller(31), None);
    assert_eq!(controller(32), Some(Controller::Master));
    assert_eq!(controller(33), Some(Controller::Master));
    assert_eq!(controller(39), Some(Controller::Master));
    assert_eq!(controller(40), Some(Controller::Slave));
    assert_eq!(controller(47), Some(Controller::Slave));
    assert_eq!(controller(48), None);
    assert_eq!(controller(0), None);
    assert_eq!(controller(255), None);
}

#[test]
fn offsets_stay_clear_of_the_exceptions_and_of_each_other() {
    assert!(check_offsets(PIC_1_OFFSET, PIC_2_OFFSET));
    assert!(check_offsets(40, 32));
    assert!(check_offsets(240, 248));
    assert!(!check_offsets(31, 40));
    assert!(!check_offsets(32, 31));
    assert!(!check_offsets(0, 8));
    assert!(!check_offsets(32, 39));
    assert!(!check_offsets(32, 32));
    assert!(!check_offsets(39, 32));
    assert!(!check_offsets(249, 32));
    assert!(!check_offsets(32, 249));
}

#[test]
fn each_trap_has_its_entry() {
    assert_eq!(Trap::Breakpoint.bind(), TrapBinding { vector: 3, trap: Trap::Breakpoint, stack_index: None });
    assert_eq!(Trap::DoubleFault.bind(), TrapBinding { vector: 8, trap: Trap::DoubleFault, stack_index: Some(0) });
    assert_eq!(Trap::PageFault.bind(), TrapBinding { vector: 14, trap: Trap::PageFault, stack_index: None });
    assert_eq!(Trap::Timer.bind(), TrapBinding { vector: 32, trap: Trap::Timer, stack_index: None });
    assert_eq!(Trap::Keyboard.bind(), TrapBinding { vector: 33, trap: Trap::Keyboard, stack_index: None });
}

#[test]
fn each_trap_has_its_aftermath() {
    assert_eq!(Trap::Breakpoint.after(), Aftermath::Resume);
    assert_eq!(Trap::DoubleFault.after(), Aftermath::Panic);
    assert_eq!(Trap::PageFault.after(), Aftermath::Halt);
    assert_eq!(Trap::Timer.after(), Aftermath::Acknowledge);
    assert_eq!(Trap::Keyboard.after(), Aftermath::Acknowledge);
}

#[test]
fn init_sets_the_state_and_orders_the_steps() {
    let mut keyboard = Global::uninit();
    let mut timer = Global::uninit();
    let steps = init_idt(&mut keyboard, &mut timer);
    assert!(keyboard.is_set());
    assert_eq!(timer.peek().map(|t| t.ticks()), Some(0));
    assert_eq!(
        steps,
        [
            BootStep::LoadSegments,
            BootStep::RemapControllers { master: 32, slave: 40 },
            BootStep::Bind(TrapBinding { vector: 3, trap: Trap::Breakpoint, stack_index: None }),
            BootStep::Bind(TrapBinding { vector: 8, trap: Trap::DoubleFault, stack_index: Some(0) }),
            BootStep::Bind(TrapBinding { vector: 32, trap: Trap::Timer, stack_index: None }),
            BootStep::Bind(TrapBinding { vector: 33, trap: Trap::Keyboard, stack_index: None }),
            BootStep::Bind(TrapBinding { vector: 14, trap: Trap::PageFault, stack_index: None }),
            BootStep::LoadTrapTable,
            BootStep::EnableInterrupts,
        ]
    );
    assert_eq!(keyboard.get().map(|k| k.feed(0x1E)), Some(Some(DecodedKey::Unicode('a'))));
}

#[test]
fn the_timer_counts_and_is_due_every_sixth_tick() {
    assert_eq!(CARET_PERIOD, 6);
    let mut timer = Timer::new();
    assert_eq!(timer.ticks(), 0);
    let due: Vec<bool> = (0..13).map(|_| timer.tick()).collect();
    assert_eq!(
        due,
        vec![false, false, false, false, false, true, false, false, false, false, false, true, false]
    );
    assert_eq!(timer.ticks(), 13);
}

#[test]
fn the_timer_handler_toggles_the_caret_on_the_sixth_tick() {
    let mut bytes = vec![0u8; 200 * 100 * 4];
    let mut display = Global::uninit();
    display.set(FrameBufferDisplay::new(frame(), &mut bytes));
    let mut timer = Global::uninit();
    timer.set(Timer::new());
    for tick in 1..=5u64 {
        assert_eq!(timer_interrupt_handler(&mut timer, &mut display), Ok(InterruptIndex::Timer));
        assert_eq!(timer.peek().map(|t| t.ticks()), Some(tick));
        assert_eq!(display.peek().map(|d| d.caret_shown()), Some(false));
        assert_eq!(display.peek().map(|d| d.buffer().iter().all(|b| *b == 0)), Some(true));
    }
    assert_eq!(timer_interrupt_handler(&mut timer, &mut display), Ok(InterruptIndex::Timer));
    assert_eq!(display.peek().map(|d| d.caret_shown()), Some(true));
    assert_eq!(display.peek().map(|d| d.buffer().iter().filter(|b| **b == 255).count()), Some(600));
    assert_eq!(display.peek().map(|d| d.cursor()), Some(Position { x: 10, y: 20 }));
    for _ in 0..6 {
        assert_eq!(timer_interrupt_handler(&mut timer, &mut display), Ok(InterruptIndex::Timer));
    }
    assert_eq!(display.peek().map(|d| d.caret_shown()), Some(false));
    assert_eq!(display.peek().map(|d| d.buffer().iter().all(|b| *b == 0)), Some(true));
    assert_eq!(timer.peek().map(|t| t.ticks()), Some(12));
}

#[test]
fn the_timer_handler_fails_without_its_state() {
    let mut display: Global<FrameBufferDisplay> = Global::uninit();
    let mut timer = Global::uninit();
    assert_eq!(timer_interrupt_handler(&mut timer, &mut display), Err(Uninitialized::Timer));
    assert!(!timer.is_set());
    timer.set(Timer::new());
    for _ in 0..5 {
        assert_eq!(timer_interrupt_handler(&mut timer, &mut display), Ok(InterruptIndex::Timer));
    }
    assert_eq!(timer_interrupt_handler(&mut timer, &mut display), Err(Uninitialized::Display));
    assert_eq!(timer.peek().map(|t| t.ticks()), Some(6));
    assert_eq!(timer_interrupt_handler(&mut timer, &mut display), Ok(InterruptIndex::Timer));
}

#[test]
fn the_keyboard_handler_echoes_the_key_and_toggles_the_caret() {
    let mut bytes = vec![0u8; 200 * 100 * 4];
    let mut display = Global::uninit();
    display.set(FrameBufferDisplay::new(frame(), &mut bytes));
    let mut keyboard = Global::uninit();
    keyboard.set(Decoder::new());
    let served = keyboard_interrupt_handler(&mut keyboard, &mut display, 0x1E);
    assert_eq!(served, Ok((InterruptIndex::Keyboard, Some(DecodedKey::Unicode('a')))));
    assert_eq!(display.peek().map(|d| d.cursor()), Some(Position { x: 20, y: 20 }));
    assert_eq!(display.peek().map(|d| d.caret_shown()), Some(true));
    let mut other = vec![0u8; 200 * 100 * 4];
    let mut expected = FrameBufferDisplay::new(frame(), &mut other);
    expected.print("a", WHITE, None);
    expected.blink_caret();
    assert_eq!(display.peek().map(|d| d.buffer() == expected.buffer()), Some(true));
    let served = keyboard_interrupt_handler(&mut keyboard, &mut display, 0x9E);
    assert_eq!(served, Ok((InterruptIndex::Keyboard, None)));
    assert_eq!(display.peek().map(|d| d.buffer() == expected.buffer()), Some(true));
    assert_eq!(display.peek().map(|d| d.caret_shown()), Some(true));
}

#[test]
fn the_keyboard_handler_names_a_raw_key() {
    let mut bytes = vec![0u8; 200 * 100 * 4];
    let mut display = Global::uninit();
    display.set(FrameBufferDisplay::new(frame(), &mut bytes));
    let mut keyboard = Global::uninit();
    keyboard.set(Decoder::new());
    assert_eq!(keyboard_interrupt_handler(&mut keyboard, &mut display, 0xE0), Ok((InterruptIndex::Keyboard, None)));
    assert_eq!(display.peek().map(|d| d.cursor()), Some(Position { x: 10, y: 20 }));
    let served = keyboard_interrupt_handler(&mut keyboard, &mut display, 0x48);
    assert_eq!(served, Ok((InterruptIndex::Keyboard, Some(DecodedKey::RawKey(String::from("ArrowUp"))))));
    let mut other = vec![0u8; 200 * 100 * 4];
    let mut expected = FrameBufferDisplay::new(frame(), &mut other);
    expected.print("raw ArrowUp", WHITE, None);
    expected.blink_caret();
    assert_eq!(display.peek().map(|d| d.buffer() == expected.buffer()), Some(true));
    assert_eq!(display.peek().map(|d| d.cursor()), Some(Position { x: 120, y: 20 }));
}

#[test]
fn the_keyboard_handler_fails_without_its_state() {
    let mut display: Global<FrameBufferDisplay> = Global::uninit();
    let mut keyboard = Global::uninit();
    assert_eq!(keyboard_interrupt_handler(&mut keyboard, &mut display, 0x1E), Err(Uninitialized::Keyboard));
    keyboard.set(Decoder::new());
    assert_eq!(keyboard_interrupt_handler(&mut keyboard, &mut display, 0x9E), Ok((InterruptIndex::Keyboard, None)));
    assert_eq!(keyboard_interrupt_handler(&mut keyboard, &mut display, 0x2A), Err(Uninitialized::Display));
    let mut bytes = vec![0u8; 200 * 100 * 4];
    display.set(FrameBufferDisplay::new(frame(), &mut bytes));
    assert_eq!(
        keyboard_interrupt_handler(&mut keyboard, &mut display, 0x1E),
        Ok((InterruptIndex::Keyboard, Some(DecodedKey::Unicode('A'))))
    );
}

#[test]
fn echo_writes_the_key_and_toggles_the_caret() {
    let mut bytes = vec![0u8; 200 * 100 * 4];
    let mut display = FrameBufferDisplay::new(frame(), &mut bytes);
    echo_key(&mut display, &DecodedKey::Unicode('\n'));
    assert_eq!(display.cursor(), Position { x: 0, y: 40 });
    assert!(display.caret_shown());
    echo_key(&mut display, &DecodedKey::RawKey(String::from("F1")));
    assert_eq!(display.cursor(), Position { x: 60, y: 40 });
    assert!(!display.caret_shown());
}

#[test]
fn a_byte_that_opens_a_scancode_writes_nothing() {
    let mut display: Global<FrameBufferDisplay> = Global::uninit();
    let mut keyboard = Global::uninit();
    keyboard.set(Decoder::new());
    assert_eq!(keyboard_interrupt_handler(&mut keyboard, &mut display, 0xE0), Ok((InterruptIndex::Keyboard, None)));
    let mut bytes = vec![0u8; 200 * 100 * 4];
    display.set(FrameBufferDisplay::new(frame(), &mut bytes));
    assert_eq!(keyboard_interrupt_handler(&mut keyboard, &mut display, 0x00), Ok((InterruptIndex::Keyboard, None)));
    assert_eq!(keyboard_interrupt_handler(&mut keyboard, &mut display, 0xE1), Ok((InterruptIndex::Keyboard, None)));
    assert_eq!(display.peek().map(|d| d.buffer().iter().all(|b| *b == 0)), Some(true));
    assert_eq!(display.peek().map(|d| d.caret_shown()), Some(false));
    assert_eq!(display.peek().map(|d| d.cursor()), Some(Position { x: 10, y: 20 }));
}

#[test]
fn a_carriage_return_key_is_echoed_as_nothing() {
    let mut bytes = vec![0u8; 200 * 100 * 4];
    let mut display = FrameBufferDisplay::new(frame(), &mut bytes);
    echo_key(&mut display, &DecodedKey::Unicode('\r'));
    assert_eq!(display.cursor(), Position { x: 10, y: 20 });
    assert!(display.caret_shown());
}
