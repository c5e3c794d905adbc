use vstd::prelude::*;
use crate::utils::Global;
use x86_64::structures::gdt::{Descriptor, GlobalDescriptorTable};
use x86_64::structures::tss::TaskStateSegment;
use x86_64::VirtAddr;

verus! {

/// The slot of the interrupt stack table that holds the stack for double faults.
pub const DOUBLE_FAULT_IST_INDEX: u16 = 0;

/// The size in bytes of the stack for double faults.
pub const STACK_SIZE: usize = 4096 * 5;

/// The number of slots in the interrupt stack table.
pub const INTERRUPT_STACKS: usize = 7;

/// The number of entries that a segment table has room for.
pub const TABLE_ENTRIES: usize = 8;

/// The descriptor of the kernel's 64-bit code segment.
pub const KERNEL_CODE_SEGMENT: u64 = 0x00af_9b00_0000_ffff;

/// The descriptor of the kernel's data segment.
pub const KERNEL_DATA_SEGMENT: u64 = 0x00cf_9300_0000_ffff;

/// The segment table of `x86_64`; its entries are read through `table_entries`.
#[verifier::external_type_specification]
#[verifier::external_body]
pub struct ExGlobalDescriptorTable<const MAX: usize>(GlobalDescriptorTable<MAX>);

/// The task state segment of `x86_64`; its stack table is read through `interrupt_stacks`.
#[verifier::external_type_specification]
#[verifier::external_body]
pub struct ExTaskStateSegment(TaskStateSegment);

/// The entries of a segment table in use, the empty first one included.
pub uninterp spec fn table_entries(table: GlobalDescriptorTable) -> Seq<u64>;

/// The addresses in the interrupt stack table of a task state segment.
pub uninterp spec fn interrupt_stacks(tss: TaskStateSegment) -> Seq<u64>;

/// A segment descriptor: one entry for code or data, two for a system segment.
#[derive(Debug, Clone, Copy, PartialEq, Eq, Structural)]
pub enum SegmentDescriptor {
    UserSegment(u64),
    SystemSegment(u64, u64),
}

/// The selectors that are loaded into the processor once the table is.
#[derive(Debug, Clone, Copy, PartialEq, Eq, Structural)]
pub struct Selectors {
    pub code_selector: u16,
    pub tss_selector: u16,
}

impl SegmentDescriptor {
    /// The first entry of the descriptor.
    pub open spec fn low(self) -> u64 {
        match self {
            SegmentDescriptor::UserSegment(value) => value,
            SegmentDescriptor::SystemSegment(low, _) => low,
        }
    }

    /// The entries that the descriptor takes in a table.
    pub open spec fn words(self) -> Seq<u64> {
        match self {
            SegmentDescriptor::UserSegment(value) => seq![value],
            SegmentDescriptor::SystemSegment(low, high) => seq![low, high],
        }
    }

    /// The privilege level of the descriptor: bits 45 and 46 of its first entry.
    pub open spec fn dpl(self) -> u16 {
        ((self.low() >> 45) & 3) as u16
    }
}

/// An address that the processor accepts: bits 47 to 63 are all equal.
pub open spec fn canonical(address: u64) -> bool {
    address < 0x0000_8000_0000_0000 || address >= 0xffff_8000_0000_0000
}

/// The first entry of a descriptor says that it is a present, available
/// 64-bit task state segment of privilege level 0.
pub open spec fn is_tss_descriptor(low: u64) -> bool {
    (low >> 40) & 0xff == 0x89
}

/// `GlobalDescriptorTable::new` of `x86_64`. Trusted: a new table holds the
/// empty first entry and nothing else.
#[verifier::external_body]
fn new_table() -> (table: GlobalDescriptorTable)
    ensures
        table_entries(table) == seq![0u64],
{
    GlobalDescriptorTable::new()
}

/// `GlobalDescriptorTable::append` of `x86_64`, which panics where the table
/// has no room. Trusted: the entries of the descriptor are added at the end,
/// and the selector is the index of the first of them, shifted left by three
/// bits, with the privilege level of the descriptor in the low bits.
#[verifier::external_body]
fn append(table: &mut GlobalDescriptorTable, descriptor: SegmentDescriptor) -> (selector: u16)
    requires
        table_entries(*old(table)).len() + descriptor.words().len() <= TABLE_ENTRIES,
    ensures
        table_entries(*final(table)) == table_entries(*old(table)) + descriptor.words(),
        selector == ((table_entries(*old(table)).len() as u16) << 3) | descriptor.dpl(),
{
    let entry = match descriptor {
        SegmentDescriptor::UserSegment(value) => Descriptor::UserSegment(value),
        SegmentDescriptor::SystemSegment(low, high) => Descriptor::SystemSegment(low, high),
    };
    table.append(entry).0
}

/// `Descriptor::kernel_code_segment` of `x86_64`. Trusted: the flags that it
/// is made of add up to `KERNEL_CODE_SEGMENT`.
#[verifier::external_body]
fn kernel_code_segment() -> (descriptor: SegmentDescriptor)
    ensures
        descriptor == SegmentDescriptor::UserSegment(KERNEL_CODE_SEGMENT),
{
    match Descriptor::kernel_code_segment() {
        Descriptor::UserSegment(value) => SegmentDescriptor::UserSegment(value),
        Descriptor::SystemSegment(low, high) => SegmentDescriptor::SystemSegment(low, high),
    }
}

/// `Descriptor::kernel_data_segment` of `x86_64`. Trusted: the flags that it
/// is made of add up to `KERNEL_DATA_SEGMENT`.
#[verifier::external_body]
fn kernel_data_segment() -> (descriptor: SegmentDescriptor)
    ensures
        descriptor == SegmentDescriptor::UserSegment(KERNEL_DATA_SEGMENT),
{
    match Descriptor::kernel_data_segment() {
        Descriptor::UserSegment(value) => SegmentDescriptor::UserSegment(value),
        Descriptor::SystemSegment(low, high) => SegmentDescriptor::SystemSegment(low, high),
    }
}

/// `Descriptor::tss_segment` of `x86_64`. Trusted: it is a system segment
/// whose first entry has the present bit, the type of an available 64-bit
/// task state segment and privilege level 0. The rest holds the address of
/// the segment and is not stated.
#[verifier::external_body]
fn tss_segment(tss: &'static TaskStateSegment) -> (descriptor: SegmentDescriptor)
    ensures
        descriptor is SystemSegment,
        is_tss_descriptor(descriptor.low()),
{
    match Descriptor::tss_segment(tss) {
        Descriptor::UserSegment(value) => SegmentDescriptor::UserSegment(value),
        Descriptor::SystemSegment(low, high) => SegmentDescriptor::SystemSegment(low, high),
    }
}

/// `TaskStateSegment::new` of `x86_64`. Trusted: every slot of the interrupt
/// stack table of a new segment is zero.
#[verifier::external_body]
fn new_tss() -> (tss: TaskStateSegment)
    ensures
        interrupt_stacks(tss) == Seq::new(INTERRUPT_STACKS as nat, |i: int| 0u64),
{
    TaskStateSegment::new()
}

/// Stores `VirtAddr::new(address)` of `x86_64`, which panics on an address
/// that is not canonical, in a slot of the interrupt stack table. Trusted:
/// that slot then holds the address and the others are as before.
#[verifier::external_body]
fn set_interrupt_stack(tss: &mut TaskStateSegment, index: u16, address: u64)
    requires
        index < INTERRUPT_STACKS,
        canonical(address),
    ensures
        interrupt_stacks(*final(tss)) == interrupt_stacks(*old(tss)).update(index as int, address),
{
    tss.interrupt_stack_table[index as usize] = VirtAddr::new(address);
}

/// The top of the fault stack that starts at `stack_start`: the address just
/// past its last byte, where that is an address the processor accepts.
pub open spec fn fault_stack_top_spec(stack_start: u64) -> Option<u64> {
    if stack_start + STACK_SIZE <= u64::MAX && canonical((stack_start + STACK_SIZE) as u64) {
        Some((stack_start + STACK_SIZE) as u64)
    } else {
        None
    }
}

/// The top of the fault stack that starts at `stack_start`, or `None` where
/// the stack ends at no address that the processor accepts.
pub fn fault_stack_top(stack_start: u64) -> (top: Option<u64>)
    ensures
        top == fault_stack_top_spec(stack_start),
{
    match stack_start.checked_add(STACK_SIZE as u64) {
        Some(top) => if top < 0x0000_8000_0000_0000 || top >= 0xffff_8000_0000_0000 {
            Some(top)
        } else {
            None
        },
        None => None,
    }
}

/// A task state segment whose slot for double faults points to the top of
/// the fault stack that starts at `stack_start`, with every other slot zero;
/// `None` where that stack has no valid top.
pub fn build_tss(stack_start: u64) -> (built: Option<TaskStateSegment>)
    ensures
        match built {
            Some(tss) => fault_stack_top_spec(stack_start) is Some && interrupt_stacks(tss)
                == Seq::new(INTERRUPT_STACKS as nat, |i: int| 0u64).update(
                DOUBLE_FAULT_IST_INDEX as int,
                fault_stack_top_spec(stack_start)->0,
            ),
            None => fault_stack_top_spec(stack_start) is None,
        },
{
    match fault_stack_top(stack_start) {
        Some(top) => {
            let mut tss = new_tss();
            set_interrupt_stack(&mut tss, DOUBLE_FAULT_IST_INDEX, top);
            Some(tss)
        },
        None => None,
    }
}

/// The entries of the kernel's segment table: the empty entry, the code
/// segment, the data segment and the two entries of a task state segment.
pub open spec fn kernel_table(entries: Seq<u64>) -> bool {
    &&& entries.len() == 5
    &&& entries[0] == 0
    &&& entries[1] == KERNEL_CODE_SEGMENT
    &&& entries[2] == KERNEL_DATA_SEGMENT
    &&& is_tss_descriptor(entries[3])
}

/// The kernel's segment table for the task state segment `tss`, with the
/// selectors of its code segment and of its task state segment: entries 1
/// and 3, both of privilege level 0.
pub fn build_gdt(tss: &'static TaskStateSegment) -> (built: (GlobalDescriptorTable, Selectors))
    ensures
        kernel_table(table_entries(built.0)),
        built.1 == (Selectors { code_selector: 8, tss_selector: 24 }),
{
    let mut table = new_table();
    let code = kernel_code_segment();
    let data = kernel_data_segment();
    let task = tss_segment(tss);
    let code_selector = append(&mut table, code);
    let _ = append(&mut table, data);
    let tss_selector = append(&mut table, task);
    proof {
        let low = task.low();
        assert((1u16 << 3) | (((0x00af_9b00_0000_ffffu64 >> 45) & 3) as u16) == 8) by (bit_vector);
        assert((low >> 40) & 0xff == 0x89 ==> (3u16 << 3) | (((low >> 45) & 3) as u16) == 24)
            by (bit_vector);
        assert(table_entries(table) =~= seq![
            0u64,
            KERNEL_CODE_SEGMENT,
            KERNEL_DATA_SEGMENT,
            task->SystemSegment_0,
            task->SystemSegment_1,
        ]);
    }
    (table, Selectors { code_selector, tss_selector })
}

/// Sets up the task state segment and the segment table in the two cells
/// in which they stay for good, for a fault stack that starts at
/// `stack_start`. Hands out the table and the selectors, for the caller to
/// load into the processor; `None`, with both cells as they were, where the
/// fault stack has no valid top.
pub fn init_tss(
    tss: &'static mut Global<TaskStateSegment>,
    gdt: &'static mut Global<GlobalDescriptorTable>,
    stack_start: u64,
) -> (loaded: Option<(&'static GlobalDescriptorTable, Selectors)>)
    ensures
        match loaded {
            Some((table, selectors)) => {
                &&& fault_stack_top_spec(stack_start) matches Some(top)
                &&& final(tss)@ matches Some(segment)
                &&& interrupt_stacks(segment) == Seq::new(INTERRUPT_STACKS as nat, |i: int| 0u64).update(
                    DOUBLE_FAULT_IST_INDEX as int,
                    top,
                )
                &&& final(gdt)@ == Some(*table)
                &&& kernel_table(table_entries(*table))
                &&& selectors == (Selectors { code_selector: 8, tss_selector: 24 })
            },
            None => {
                &&& fault_stack_top_spec(stack_start) is None
                &&& final(tss)@ == old(tss)@
                &&& final(gdt)@ == old(gdt)@
            },
        },
{
    let segment = match build_tss(stack_start) {
        Some(segment) => segment,
        None => {
            return None;
        },
    };
    tss.set(segment);
    let published: &'static Global<TaskStateSegment> = tss;
    let segment = match published.peek() {
        Some(segment) => segment,
        None => {
            return None;
        },
    };
    let (table, selectors) = build_gdt(segment);
    gdt.set(table);
    let published: &'static Global<GlobalDescriptorTable> = gdt;
    match published.peek() {
        Some(table) => Some((table, selectors)),
        None => None,
    }
}

} // verus!
