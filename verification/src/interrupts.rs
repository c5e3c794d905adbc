use vstd::prelude::*;
use crate::framebuffer::{shown, Color, ConsoleState, FrameBufferDisplay};
use crate::gdt::DOUBLE_FAULT_IST_INDEX;
use crate::keyboard::{new_modifiers, next_prefix, starts_sequence, DecodedKey, Decoder};
use crate::utils::{Global, Uninitialized};

verus! {

/// The first vector of the master interrupt controller: the first one after
/// the 32 that the processor keeps for its exceptions.
pub const PIC_1_OFFSET: u8 = 32;

/// The first vector of the slave interrupt controller, next after the eight
/// of the master.
pub const PIC_2_OFFSET: u8 = PIC_1_OFFSET + 8;

/// The number of timer ticks from one toggle of the caret to the next.
pub const CARET_PERIOD: u64 = 6;

/// The hardware interrupts that the kernel serves.
#[derive(Debug, Clone, Copy, PartialEq, Eq, Structural)]
pub enum InterruptIndex {
    Timer,
    Keyboard,
}

/// One of the two chained interrupt controllers.
#[derive(Debug, Clone, Copy, PartialEq, Eq, Structural)]
pub enum Controller {
    Master,
    Slave,
}

/// The traps that the kernel handles: three exceptions of the processor and
/// the two hardware interrupts.
#[derive(Debug, Clone, Copy, PartialEq, Eq, Structural)]
pub enum Trap {
    Breakpoint,
    DoubleFault,
    PageFault,
    Timer,
    Keyboard,
}

/// What follows the handling of a trap.
#[derive(Debug, Clone, Copy, PartialEq, Eq, Structural)]
pub enum Aftermath {
    /// The interrupted code goes on.
    Resume,
    /// The interrupt is acknowledged to its controller and the interrupted
    /// code goes on.
    Acknowledge,
    /// The processor is halted for good.
    Halt,
    /// The kernel panics: it reports what it can and halts.
    Panic,
}

/// An entry of the trap table: the handler of `trap` stands at `vector`, and
/// runs on the stack in slot `stack_index` of the interrupt stack table where
/// one is given.
#[derive(Debug, Clone, Copy, PartialEq, Eq, Structural)]
pub struct TrapBinding {
    pub vector: u8,
    pub trap: Trap,
    pub stack_index: Option<u16>,
}

/// One step of bringing up interrupts; the steps are taken in order.
#[derive(Debug, Clone, Copy, PartialEq, Eq, Structural)]
pub enum BootStep {
    /// Set up and load the segment table and the task state segment.
    LoadSegments,
    /// Give the two controllers their first vectors.
    RemapControllers { master: u8, slave: u8 },
    /// Enter a handler into the trap table.
    Bind(TrapBinding),
    /// Load the trap table into the processor.
    LoadTrapTable,
    /// Let the processor take hardware interrupts.
    EnableInterrupts,
}

impl InterruptIndex {
    /// The vector on which the interrupt arrives: the timer on the first
    /// line of the master controller, the keyboard on the second.
    pub open spec fn vector(self) -> u8 {
        match self {
            InterruptIndex::Timer => PIC_1_OFFSET,
            InterruptIndex::Keyboard => (PIC_1_OFFSET + 1) as u8,
        }
    }

    /// The vector on which the interrupt arrives.
    pub fn as_u8(self) -> (vector: u8)
        ensures
            vector == self.vector(),
    {
        match self {
            InterruptIndex::Timer => PIC_1_OFFSET,
            InterruptIndex::Keyboard => PIC_1_OFFSET + 1,
        }
    }
}

impl From<InterruptIndex> for u8 {
    fn from(index: InterruptIndex) -> (vector: u8) {
        index.as_u8()
    }
}

impl vstd::std_specs::convert::FromSpecImpl<InterruptIndex> for u8 {
    open spec fn obeys_from_spec() -> bool {
        true
    }

    open spec fn from_spec(index: InterruptIndex) -> u8 {
        index.vector()
    }
}

impl Trap {
    /// The vector of the trap: 3, 8 and 14 for the exceptions, as the
    /// processor defines them, and the vectors of their lines for the
    /// interrupts.
    pub open spec fn vector(self) -> u8 {
        match self {
            Trap::Breakpoint => 3,
            Trap::DoubleFault => 8,
            Trap::PageFault => 14,
            Trap::Timer => InterruptIndex::Timer.vector(),
            Trap::Keyboard => InterruptIndex::Keyboard.vector(),
        }
    }

    /// The slot of the interrupt stack table on whose stack the handler
    /// runs: its own for the double fault, which may come from a stack that
    /// has overflowed, and none for the others.
    pub open spec fn stack_index(self) -> Option<u16> {
        match self {
            Trap::DoubleFault => Some(DOUBLE_FAULT_IST_INDEX),
            _ => None,
        }
    }

    /// The entry of the trap in the trap table.
    pub open spec fn binding(self) -> TrapBinding {
        TrapBinding { vector: self.vector(), trap: self, stack_index: self.stack_index() }
    }

    /// What follows the handling of the trap: a breakpoint is reported and
    /// the code goes on, a page fault is reported and the processor halted,
    /// a double fault is fatal, and an interrupt is acknowledged.
    pub open spec fn aftermath(self) -> Aftermath {
        match self {
            Trap::Breakpoint => Aftermath::Resume,
            Trap::DoubleFault => Aftermath::Panic,
            Trap::PageFault => Aftermath::Halt,
            Trap::Timer => Aftermath::Acknowledge,
            Trap::Keyboard => Aftermath::Acknowledge,
        }
    }

    /// The entry of the trap in the trap table.
    pub fn bind(self) -> (binding: TrapBinding)
        ensures
            binding == self.binding(),
    {
        match self {
            Trap::Breakpoint => TrapBinding { vector: 3, trap: self, stack_index: None },
            Trap::DoubleFault => TrapBinding {
                vector: 8,
                trap: self,
                stack_index: Some(DOUBLE_FAULT_IST_INDEX),
            },
            Trap::PageFault => TrapBinding { vector: 14, trap: self, stack_index: None },
            Trap::Timer => TrapBinding {
                vector: InterruptIndex::Timer.as_u8(),
                trap: self,
                stack_index: None,
            },
            Trap::Keyboard => TrapBinding {
                vector: InterruptIndex::Keyboard.as_u8(),
                trap: self,
                stack_index: None,
            },
        }
    }

    /// What follows the handling of the trap.
    pub fn after(self) -> (aftermath: Aftermath)
        ensures
            aftermath == self.aftermath(),
    {
        match self {
            Trap::Breakpoint => Aftermath::Resume,
            Trap::DoubleFault => Aftermath::Panic,
            Trap::PageFault => Aftermath::Halt,
            Trap::Timer => Aftermath::Acknowledge,
            Trap::Keyboard => Aftermath::Acknowledge,
        }
    }
}

/// The steps that bring up interrupts, in the order in which they are
/// taken: the segments first, because the entry for the double fault names a
/// stack of the task state segment; then the controllers; then the five
/// entries of the trap table; then the table is loaded; and only then are
/// interrupts let in.
pub open spec fn boot_steps() -> Seq<BootStep> {
    seq![
        BootStep::LoadSegments,
        BootStep::RemapControllers { master: PIC_1_OFFSET, slave: PIC_2_OFFSET },
        BootStep::Bind(Trap::Breakpoint.binding()),
        BootStep::Bind(Trap::DoubleFault.binding()),
        BootStep::Bind(Trap::Timer.binding()),
        BootStep::Bind(Trap::Keyboard.binding()),
        BootStep::Bind(Trap::PageFault.binding()),
        BootStep::LoadTrapTable,
        BootStep::EnableInterrupts,
    ]
}

/// Whether step `i` of `steps` enters the handler of `trap` into the table.
pub open spec fn binds_at(steps: Seq<BootStep>, i: int, trap: Trap) -> bool {
    0 <= i < steps.len() && steps[i] == BootStep::Bind(trap.binding())
}

/// Whether the handler of `trap` is entered into the table after the
/// segments were loaded and before the table is.
pub open spec fn bound_in_time(trap: Trap) -> bool {
    exists|i: int| 0 < i < 7 && #[trigger] binds_at(boot_steps(), i, trap)
}

/// Interrupts are let in last, right after the trap table was loaded, and
/// by then every trap has its entry: each was entered once, before the
/// table was loaded and after the segments were; and the controllers were
/// given vectors that they can have.
pub proof fn lemma_boot_order()
    ensures
        boot_steps().len() == 9,
        boot_steps()[0] == BootStep::LoadSegments,
        boot_steps()[8] == BootStep::EnableInterrupts,
        boot_steps()[7] == BootStep::LoadTrapTable,
        forall|i: int|
            0 <= i < 8 ==> #[trigger] boot_steps()[i] != BootStep::EnableInterrupts,
        forall|trap: Trap| #[trigger] bound_in_time(trap),
        forall|trap: Trap, i: int, j: int|
            #[trigger] binds_at(boot_steps(), i, trap) && #[trigger] binds_at(boot_steps(), j, trap)
                ==> i == j,
        boot_steps()[1] == (BootStep::RemapControllers { master: PIC_1_OFFSET, slave: PIC_2_OFFSET }),
        offsets_valid(PIC_1_OFFSET, PIC_2_OFFSET),
{
    let steps = boot_steps();
    assert forall|trap: Trap| #[trigger] bound_in_time(trap) by {
        match trap {
            Trap::Breakpoint => {
                assert(binds_at(steps, 2, trap));
            },
            Trap::DoubleFault => {
                assert(binds_at(steps, 3, trap));
            },
            Trap::Timer => {
                assert(binds_at(steps, 4, trap));
            },
            Trap::Keyboard => {
                assert(binds_at(steps, 5, trap));
            },
            Trap::PageFault => {
                assert(binds_at(steps, 6, trap));
            },
        }
    }
}

/// Whether the two controllers can be given these first vectors: each has
/// room for its eight lines above the vectors that the processor keeps for
/// itself, and the two ranges do not meet.
pub open spec fn offsets_valid(master: u8, slave: u8) -> bool {
    &&& 32 <= master <= 248
    &&& 32 <= slave <= 248
    &&& (master + 8 <= slave || slave + 8 <= master)
}

/// Whether the two controllers can be given these first vectors.
pub fn check_offsets(master: u8, slave: u8) -> (ok: bool)
    ensures
        ok == offsets_valid(master, slave),
{
    32 <= master && master <= 248 && 32 <= slave && slave <= 248 && (master <= slave - 8 || slave
        <= master - 8)
}

/// The controller that raises `vector`, if either does.
pub open spec fn spec_controller(vector: u8) -> Option<Controller> {
    if PIC_1_OFFSET <= vector < PIC_1_OFFSET + 8 {
        Some(Controller::Master)
    } else if PIC_2_OFFSET <= vector < PIC_2_OFFSET + 8 {
        Some(Controller::Slave)
    } else {
        None
    }
}

/// The controller that raises `vector`, if either does.
pub fn controller(vector: u8) -> (owner: Option<Controller>)
    ensures
        owner == spec_controller(vector),
{
    if PIC_1_OFFSET <= vector && vector < PIC_1_OFFSET + 8 {
        Some(Controller::Master)
    } else if PIC_2_OFFSET <= vector && vector < PIC_2_OFFSET + 8 {
        Some(Controller::Slave)
    } else {
        None
    }
}

/// The vector with which a served interrupt is acknowledged.
pub fn notify_end_of_interrupt(interrupt_index: InterruptIndex) -> (vector: u8)
    ensures
        vector == interrupt_index.vector(),
        spec_controller(vector) == Some(Controller::Master),
{
    interrupt_index.into()
}

/// The vectors that the kernel gives the controllers are ones they can have.
pub proof fn lemma_offsets_valid()
    ensures
        offsets_valid(PIC_1_OFFSET, PIC_2_OFFSET),
        forall|index: InterruptIndex| spec_controller(#[trigger] index.vector()) == Some(Controller::Master),
{
    assert forall|index: InterruptIndex| spec_controller(#[trigger] index.vector()) == Some(
        Controller::Master,
    ) by {
        match index {
            InterruptIndex::Timer => {},
            InterruptIndex::Keyboard => {},
        }
    }
}

/// The count of timer interrupts since boot.
pub struct Timer {
    ticks: u64,
}

impl View for Timer {
    type V = u64;

    closed spec fn view(&self) -> u64 {
        self.ticks
    }
}

impl Timer {
    /// A timer that has not ticked.
    pub fn new() -> (timer: Self)
        ensures
            timer@ == 0,
    {
        Timer { ticks: 0 }
    }

    /// The number of ticks counted.
    pub fn ticks(&self) -> (ticks: u64)
        ensures
            ticks == self@,
    {
        self.ticks
    }

    /// Counts one tick and says whether the caret is due to be toggled.
    pub fn tick(&mut self) -> (due: bool)
        requires
            old(self)@ < u64::MAX,
        ensures
            final(self)@ == old(self)@ + 1,
            due == (final(self)@ % CARET_PERIOD == 0),
    {
        self.ticks = self.ticks + 1;
        self.ticks % CARET_PERIOD == 0
    }
}

/// The ticks that the timer in a cell has counted, if the cell has been set.
pub open spec fn counted(timer: Global<Timer>) -> Option<u64> {
    match timer@ {
        Some(timer) => Some(timer@),
        None => None,
    }
}

/// What a console shows after a decoded key was echoed to it: the character
/// of the key, written as a text of its own, or the word `raw` and the name
/// of a key that has none, in white on black, and then the caret toggled.
pub open spec fn key_echoed(console: ConsoleState, key: DecodedKey) -> ConsoleState {
    match key {
        DecodedKey::Unicode(character) => console.print(
            seq![character],
            Color::white(),
            Color::black(),
        ),
        DecodedKey::RawKey(name) => console.print("raw "@, Color::white(), Color::black()).print(
            name@,
            Color::white(),
            Color::black(),
        ),
    }.blink_caret()
}

/// Echoes a decoded key to the console and toggles the caret.
pub fn echo_key(display: &mut FrameBufferDisplay<'_>, key: &DecodedKey)
    requires
        old(display)@.wf(),
    ensures
        final(display)@ == key_echoed(old(display)@, *key),
        final(display)@.wf(),
{
    match key {
        DecodedKey::Unicode(character) => {
            let ghost before = display@;
            assert(before.print_first(seq![*character], 0, Color::white(), Color::black())
                == before);
            if *character != '\r' {
                display.put_char(*character, Color { red: 255, green: 255, blue: 255 }, None);
            }
        },
        DecodedKey::RawKey(name) => {
            display.write_str("raw ");
            display.write_str(name.as_str());
        },
    }
    display.blink_caret();
}

/// Serves a timer interrupt: counts the tick and, on every sixth, toggles
/// the caret. Answers with the interrupt to acknowledge, or with the state
/// that was missing; in that case nothing is to be acknowledged.
pub fn timer_interrupt_handler(
    timer: &mut Global<Timer>,
    display: &mut Global<FrameBufferDisplay<'_>>,
) -> (served: Result<InterruptIndex, Uninitialized>)
    requires
        counted(*old(timer)) matches Some(ticks) ==> ticks < u64::MAX,
        shown(*old(display)) matches Some(console) ==> console.wf(),
    ensures
        counted(*final(timer)) == match counted(*old(timer)) {
            Some(ticks) => Some((ticks + 1) as u64),
            None => None,
        },
        served == match counted(*old(timer)) {
            None => Err(Uninitialized::Timer),
            Some(ticks) => if (ticks + 1) % (CARET_PERIOD as int) == 0 && shown(*old(display))
                is None {
                Err(Uninitialized::Display)
            } else {
                Ok(InterruptIndex::Timer)
            },
        },
        shown(*final(display)) == match (counted(*old(timer)), shown(*old(display))) {
            (Some(ticks), Some(console)) => if (ticks + 1) % (CARET_PERIOD as int) == 0 {
                Some(console.blink_caret())
            } else {
                Some(console)
            },
            _ => shown(*old(display)),
        },
        shown(*final(display)) matches Some(console) ==> console.wf(),
{
    let due = match timer.get() {
        Some(timer) => timer.tick(),
        None => {
            return Err(Uninitialized::Timer);
        },
    };
    if due {
        match display.get() {
            Some(display) => {
                display.blink_caret();
            },
            None => {
                return Err(Uninitialized::Display);
            },
        }
    }
    Ok(InterruptIndex::Timer)
}

/// Serves a keyboard interrupt: feeds the scancode that was read from the
/// keyboard to the decoder and, where a key comes out, echoes it to the
/// console. Answers with the interrupt to acknowledge and the key, for the
/// caller to pass on, or with the state that was missing.
pub fn keyboard_interrupt_handler(
    keyboard: &mut Global<Decoder>,
    display: &mut Global<FrameBufferDisplay<'_>>,
    scancode: u8,
) -> (served: Result<(InterruptIndex, Option<DecodedKey>), Uninitialized>)
    requires
        shown(*old(display)) matches Some(console) ==> console.wf(),
    ensures
        match old(keyboard)@ {
            None => served == Err::<(InterruptIndex, Option<DecodedKey>), Uninitialized>(
                Uninitialized::Keyboard,
            ) && final(keyboard)@ is None && shown(*final(display)) == shown(*old(display)),
            Some(decoder) => {
                &&& final(keyboard)@ matches Some(after) && after.prefix() == next_prefix(
                    decoder.prefix(),
                    scancode,
                ) && after.modifiers() == decoder.modifiers_for(scancode)
                &&& served == match (decoder.key_for(scancode), shown(*old(display))) {
                    (Some(key), None) => Err(Uninitialized::Display),
                    (key, _) => Ok((InterruptIndex::Keyboard, key)),
                }
                &&& shown(*final(display)) == match (
                    decoder.key_for(scancode),
                    shown(*old(display)),
                ) {
                    (Some(key), Some(console)) => Some(key_echoed(console, key)),
                    _ => shown(*old(display)),
                }
                &&& starts_sequence(decoder.prefix(), scancode) ==> served == Ok::<
                    (InterruptIndex, Option<DecodedKey>),
                    Uninitialized,
                >((InterruptIndex::Keyboard, None)) && shown(*final(display)) == shown(
                    *old(display),
                )
            },
        },
        shown(*final(display)) matches Some(console) ==> console.wf(),
{
    let key = match keyboard.get() {
        Some(decoder) => decoder.feed(scancode),
        None => {
            return Err(Uninitialized::Keyboard);
        },
    };
    match &key {
        Some(decoded) => match display.get() {
            Some(display) => {
                echo_key(display, decoded);
            },
            None => {
                return Err(Uninitialized::Display);
            },
        },
        None => {},
    }
    Ok((InterruptIndex::Keyboard, key))
}

/// Prepares the state of the interrupt handlers, a decoder at the start of a
/// scancode and a timer that has not ticked, and answers with the steps that
/// bring up interrupts, for the caller to take in this order.
pub fn init_idt(keyboard: &mut Global<Decoder>, timer: &mut Global<Timer>) -> (steps: [BootStep; 9])
    ensures
        final(keyboard)@ matches Some(decoder) && decoder.prefix() == Seq::<u8>::empty()
            && decoder.modifiers() == new_modifiers(),
        counted(*final(timer)) == Some(0u64),
        steps@ == boot_steps(),
{
    keyboard.set(Decoder::new());
    timer.set(Timer::new());
    let steps = [
        BootStep::LoadSegments,
        BootStep::RemapControllers { master: PIC_1_OFFSET, slave: PIC_2_OFFSET },
        BootStep::Bind(Trap::Breakpoint.bind()),
        BootStep::Bind(Trap::DoubleFault.bind()),
        BootStep::Bind(Trap::Timer.bind()),
        BootStep::Bind(Trap::Keyboard.bind()),
        BootStep::Bind(Trap::PageFault.bind()),
        BootStep::LoadTrapTable,
        BootStep::EnableInterrupts,
    ];
    assert(steps@ =~= boot_steps());
    steps
}

} // verus!
