//! Construction of the Task State Segment and of the Global Descriptor
//! Table, and the order in which they are handed to the processor.

use vstd::prelude::*;
use x86_64::structures::gdt::GlobalDescriptorTable;
use x86_64::structures::tss::TaskStateSegment;
use x86_64::VirtAddr;

verus! {

/// Slot of the Interrupt Stack Table that holds the double-fault stack.
pub const DOUBLE_FAULT_IST_INDEX: u16 = 0;

/// Size in bytes of the double-fault stack: five pages.
pub const STACK_SIZE: usize = 4096 * 5;

/// Slots of the Interrupt Stack Table.
pub const IST_ENTRIES: usize = 7;

/// Slots of the Global Descriptor Table, the null descriptor included.
pub const GDT_CAPACITY: usize = 8;

/// Descriptor of the 64-bit kernel code segment.
pub const KERNEL_CODE64: u64 = 0x00af_9b00_0000_ffff;

/// Bits of the low word of a descriptor that hold the privilege level.
pub const DPL_MASK: u64 = 0x0000_6000_0000_0000;

/// A segment descriptor: one table slot for a code or data segment, two
/// for a system segment.
#[derive(Debug, Clone, Copy, PartialEq, Eq, Structural)]
pub enum Descriptor {
    UserSegment(u64),
    SystemSegment(u64, u64),
}

impl Descriptor {
    /// The words that the descriptor takes up in the table, in order.
    pub open spec fn words(self) -> Seq<u64> {
        match self {
            Descriptor::UserSegment(value) => seq![value],
            Descriptor::SystemSegment(low, high) => seq![low, high],
        }
    }

    /// The descriptor's privilege level, bits 45 and 46 of its low word.
    pub open spec fn dpl(self) -> u16 {
        let low = match self {
            Descriptor::UserSegment(value) => value,
            Descriptor::SystemSegment(low, _) => low,
        };
        ((low & DPL_MASK) >> 45) as u16
    }

    /// Whether this is a descriptor of an available 64-bit Task State
    /// Segment at privilege level 0: a present system segment of type 9
    /// whose limit is the segment's last byte, 0x67. Only the base address
    /// is left open.
    pub open spec fn is_tss(self) -> bool {
        match self {
            Descriptor::UserSegment(_) => false,
            Descriptor::SystemSegment(low, high) => {
                &&& low & 0x00ff_ff00_0000_ffff == 0x0000_8900_0000_0067
                &&& high >> 32 == 0
            },
        }
    }
}

/// An index into the descriptor table together with the privilege level
/// requested: the index from bit 3 up, the level in bits 0 and 1.
#[derive(Debug, Clone, Copy, PartialEq, Eq, Structural)]
pub struct SegmentSelector(pub u16);

impl SegmentSelector {
    /// The selector for the table slot `index` at privilege level `rpl`.
    pub open spec fn of(index: int, rpl: u16) -> SegmentSelector {
        SegmentSelector((((index as u16) << 3) | rpl) as u16)
    }

    /// Slot of the descriptor table that the selector names.
    pub open spec fn spec_index(self) -> u16 {
        self.0 >> 3
    }

    /// Privilege level that the selector requests.
    pub open spec fn spec_rpl(self) -> u16 {
        self.0 & 3
    }

    /// Slot of the descriptor table that the selector names.
    #[verifier::when_used_as_spec(spec_index)]
    pub fn index(self) -> (index: u16)
        ensures
            index == self.spec_index(),
    {
        self.0 >> 3
    }

    /// Privilege level that the selector requests, 0 to 3.
    #[verifier::when_used_as_spec(spec_rpl)]
    pub fn rpl(self) -> (rpl: u16)
        ensures
            rpl == self.spec_rpl(),
            rpl <= 3,
    {
        let bits: u16 = self.0;
        assert(bits & 3 <= 3) by (bit_vector);
        bits & 3
    }
}

/// The two selectors that the kernel loads.
#[derive(Debug, Clone, Copy, PartialEq, Eq, Structural)]
pub struct Selectors {
    pub code_selector: SegmentSelector,
    pub tss_selector: SegmentSelector,
}

/// One load of a processor register during set-up.
#[derive(Debug, Clone, Copy, PartialEq, Eq, Structural)]
pub enum RegisterLoad {
    /// Load the descriptor table register with the table.
    DescriptorTable,
    /// Reload the code segment register with the selector.
    CodeSegment(SegmentSelector),
    /// Load the task register with the selector.
    TaskRegister(SegmentSelector),
}

/// How far the set-up of the descriptor tables has come. It moves forward
/// only: the tables are built once, then loaded once.
#[derive(Debug, Clone, Copy, PartialEq, Eq, Structural)]
pub enum SetupState {
    /// Nothing is built.
    Uninitialized,
    /// The Task State Segment and the descriptor table are built; the
    /// processor does not use them yet.
    TablesBuilt,
    /// The processor uses the tables.
    Active,
}

/// A step of the set-up.
#[derive(Debug, Clone, Copy, PartialEq, Eq, Structural)]
pub enum SetupStep {
    /// Build the Task State Segment and the descriptor table.
    Construct,
    /// Load the tables into the processor's registers.
    Load,
}

impl SetupState {
    /// Number of steps that lead to this state.
    pub open spec fn steps_taken(self) -> int {
        match self {
            SetupState::Uninitialized => 0,
            SetupState::TablesBuilt => 1,
            SetupState::Active => 2,
        }
    }

    /// The state that `step` leads to, where this state allows the step.
    pub open spec fn spec_after(self, step: SetupStep) -> Option<SetupState> {
        match (self, step) {
            (SetupState::Uninitialized, SetupStep::Construct) => Some(SetupState::TablesBuilt),
            (SetupState::TablesBuilt, SetupStep::Load) => Some(SetupState::Active),
            _ => None,
        }
    }

    /// The state that `step` leads to, or `None` where the step must not
    /// be taken: the tables are not built a second time, and they are
    /// loaded neither before they are built nor a second time.
    #[verifier::when_used_as_spec(spec_after)]
    pub fn after(self, step: SetupStep) -> (next: Option<SetupState>)
        ensures
            next == self.spec_after(step),
    {
        match (self, step) {
            (SetupState::Uninitialized, SetupStep::Construct) => Some(SetupState::TablesBuilt),
            (SetupState::TablesBuilt, SetupStep::Load) => Some(SetupState::Active),
            _ => None,
        }
    }
}

/// The set-up moves in one direction and takes each step once: a step
/// that is allowed leads one state further, each step is allowed in one
/// state only, and nothing leaves the state in which the tables are in use.
pub proof fn setup_moves_forward(state: SetupState, step: SetupStep)
    ensures
        state.spec_after(step) matches Some(next) ==> next.steps_taken() == state.steps_taken()
            + 1,
        state.spec_after(SetupStep::Construct) is Some <==> state == SetupState::Uninitialized,
        state.spec_after(SetupStep::Load) is Some <==> state == SetupState::TablesBuilt,
        SetupState::Active.spec_after(step) is None,
{
}

/// `x86_64::structures::tss::TaskStateSegment`, carried through as it is.
#[verifier::external_type_specification]
#[verifier::external_body]
pub struct ExTaskStateSegment(TaskStateSegment);

/// `x86_64::structures::gdt::GlobalDescriptorTable`, carried through as it
/// is.
#[verifier::external_type_specification]
#[verifier::external_body]
pub struct ExGlobalDescriptorTable(GlobalDescriptorTable);

/// The stack pointers of a segment's Interrupt Stack Table, slot 0 first.
pub uninterp spec fn interrupt_stacks(tss: TaskStateSegment) -> Seq<u64>;

/// The words of a descriptor table that are in use, the null descriptor
/// first.
pub uninterp spec fn gdt_entries(gdt: GlobalDescriptorTable) -> Seq<u64>;

/// Whether an address can be stored as a virtual address: bits 47 to 63
/// are all clear or all set, or bit 47 alone is set.
pub open spec fn is_storable_address(address: u64) -> bool {
    address >> 47 == 0 || address >> 47 == 0x1ffff || address >> 47 == 1
}

/// The canonical form in which an address is stored: bit 47 copied into
/// bits 48 to 63.
pub open spec fn canonical(address: u64) -> u64 {
    if address >> 47 == 1 {
        address | 0xffff_0000_0000_0000
    } else {
        address
    }
}

/// `TaskStateSegment::new`: a segment whose Interrupt Stack Table has
/// seven slots, all zero.
#[verifier::external_body]
fn new_tss() -> (tss: TaskStateSegment)
    ensures
        interrupt_stacks(tss) == Seq::new(IST_ENTRIES as nat, |slot: int| 0u64),
{
    TaskStateSegment::new()
}

/// `VirtAddr::try_new`, and a store into one slot of the Interrupt Stack
/// Table. `try_new` accepts an address exactly when it is storable and
/// then gives its canonical form, which goes into the slot; the other
/// slots, and all slots when the address is refused, keep their values.
#[verifier::external_body]
fn set_interrupt_stack(tss: &mut TaskStateSegment, slot: usize, address: u64) -> (stored: bool)
    requires
        slot < IST_ENTRIES,
    ensures
        stored == is_storable_address(address),
        stored ==> interrupt_stacks(*final(tss)) == interrupt_stacks(*old(tss)).update(
            slot as int,
            canonical(address),
        ),
        !stored ==> interrupt_stacks(*final(tss)) == interrupt_stacks(*old(tss)),
{
    match VirtAddr::try_new(address) {
        Ok(stack) => {
            tss.interrupt_stack_table[slot] = stack;
            true
        },
        Err(_) => false,
    }
}

/// `GlobalDescriptorTable::new`: a table that holds the null descriptor
/// alone.
#[verifier::external_body]
fn new_gdt() -> (gdt: GlobalDescriptorTable)
    ensures
        gdt_entries(gdt) == seq![0u64],
{
    GlobalDescriptorTable::new()
}

/// `GlobalDescriptorTable::add_entry`: panics when the descriptor's words
/// do not fit in the free slots; else appends them and hands back the
/// selector of the first slot taken, at the descriptor's privilege level.
#[verifier::external_body]
fn add_entry(gdt: &mut GlobalDescriptorTable, entry: Descriptor) -> (selector: SegmentSelector)
    requires
        gdt_entries(*old(gdt)).len() + entry.words().len() <= GDT_CAPACITY,
    ensures
        gdt_entries(*final(gdt)) == gdt_entries(*old(gdt)) + entry.words(),
        selector == SegmentSelector::of(gdt_entries(*old(gdt)).len() as int, entry.dpl()),
{
    let descriptor = match entry {
        Descriptor::UserSegment(value) => x86_64::structures::gdt::Descriptor::UserSegment(value),
        Descriptor::SystemSegment(low, high) => {
            x86_64::structures::gdt::Descriptor::SystemSegment(low, high)
        },
    };
    SegmentSelector(gdt.add_entry(descriptor).0)
}

/// `Descriptor::kernel_code_segment`: the descriptor of the 64-bit kernel
/// code segment, a constant.
#[verifier::external_body]
fn kernel_code_segment() -> (descriptor: Descriptor)
    ensures
        descriptor == Descriptor::UserSegment(KERNEL_CODE64),
{
    match x86_64::structures::gdt::Descriptor::kernel_code_segment() {
        x86_64::structures::gdt::Descriptor::UserSegment(value) => Descriptor::UserSegment(value),
        x86_64::structures::gdt::Descriptor::SystemSegment(low, high) => Descriptor::SystemSegment(
            low,
            high,
        ),
    }
}

/// `Descriptor::tss_segment`: a system descriptor for the segment at the
/// address of `tss`. The base it holds is that address, so only the
/// descriptor's other bits are stated.
#[verifier::external_body]
fn tss_segment(tss: &'static TaskStateSegment) -> (descriptor: Descriptor)
    ensures
        descriptor.is_tss(),
{
    match x86_64::structures::gdt::Descriptor::tss_segment(tss) {
        x86_64::structures::gdt::Descriptor::UserSegment(value) => Descriptor::UserSegment(value),
        x86_64::structures::gdt::Descriptor::SystemSegment(low, high) => Descriptor::SystemSegment(
            low,
            high,
        ),
    }
}

/// Top of the stack of `STACK_SIZE` bytes that starts at `stack_start`, in
/// the form in which the Task State Segment stores it. A stack grows
/// downwards, so its top is its highest address.
pub open spec fn stack_top(stack_start: u64) -> u64 {
    canonical((stack_start + STACK_SIZE) as u64)
}

/// Whether the stack that starts at `stack_start` has a top that the Task
/// State Segment can store.
pub open spec fn stack_fits(stack_start: u64) -> bool {
    stack_start + STACK_SIZE <= u64::MAX && is_storable_address((stack_start + STACK_SIZE) as u64)
}

/// Builds the Task State Segment whose Interrupt Stack Table holds, in the
/// double-fault slot, the top of the stack that starts at `stack_start`;
/// every other slot is zero. There is no segment for a stack whose top
/// lies past the end of the address space or cannot be stored.
pub fn build_tss(stack_start: u64) -> (built: Option<TaskStateSegment>)
    ensures
        built is Some <==> stack_fits(stack_start),
        built matches Some(tss) ==> interrupt_stacks(tss) == Seq::new(
            IST_ENTRIES as nat,
            |slot: int| 0u64,
        ).update(DOUBLE_FAULT_IST_INDEX as int, stack_top(stack_start)),
{
    if stack_start > u64::MAX - (STACK_SIZE as u64) {
        return None;
    }
    let stack_end: u64 = stack_start + (STACK_SIZE as u64);
    let mut tss = new_tss();
    if set_interrupt_stack(&mut tss, DOUBLE_FAULT_IST_INDEX as usize, stack_end) {
        Some(tss)
    } else {
        None
    }
}

/// The selectors that a table gets which holds, after the null descriptor,
/// the kernel code segment and then `tss_descriptor`.
pub open spec fn selectors_for(tss_descriptor: Descriptor) -> Selectors {
    Selectors {
        code_selector: SegmentSelector::of(1, Descriptor::UserSegment(KERNEL_CODE64).dpl()),
        tss_selector: SegmentSelector::of(2, tss_descriptor.dpl()),
    }
}

/// Builds the descriptor table from the descriptor of the Task State
/// Segment: the null descriptor, the kernel code segment, then the given
/// descriptor; and the selectors of the latter two.
pub fn assemble_gdt(tss_descriptor: Descriptor) -> (built: (GlobalDescriptorTable, Selectors))
    ensures
        gdt_entries(built.0) == seq![0u64, KERNEL_CODE64] + tss_descriptor.words(),
        built.1 == selectors_for(tss_descriptor),
{
    let mut gdt = new_gdt();
    let code_selector = add_entry(&mut gdt, kernel_code_segment());
    let tss_selector = add_entry(&mut gdt, tss_descriptor);
    (gdt, Selectors { code_selector, tss_selector })
}

/// Builds the descriptor table for the given Task State Segment. The
/// table holds the null descriptor, the kernel code segment and the two
/// words of the segment's descriptor; the code selector names slot 1, the
/// segment's selector slot 2, both at privilege level 0.
pub fn build_gdt(tss: &'static TaskStateSegment) -> (built: (GlobalDescriptorTable, Selectors))
    ensures
        gdt_entries(built.0).len() == 4,
        gdt_entries(built.0)[0] == 0,
        gdt_entries(built.0)[1] == KERNEL_CODE64,
        Descriptor::SystemSegment(gdt_entries(built.0)[2], gdt_entries(built.0)[3]).is_tss(),
        built.1 == (Selectors {
            code_selector: SegmentSelector(0x08),
            tss_selector: SegmentSelector(0x10),
        }),
{
    let tss_descriptor = tss_segment(tss);
    proof {
        tss_selectors_are_fixed(tss_descriptor);
    }
    assemble_gdt(tss_descriptor)
}

/// Whatever the address of the Task State Segment, its table gets the same
/// two selectors: the code segment in slot 1 and the segment's descriptor
/// in slot 2, in the order of insertion, both at privilege level 0.
pub proof fn tss_selectors_are_fixed(tss_descriptor: Descriptor)
    requires
        tss_descriptor.is_tss(),
    ensures
        selectors_for(tss_descriptor) == (Selectors {
            code_selector: SegmentSelector(0x08),
            tss_selector: SegmentSelector(0x10),
        }),
        selectors_for(tss_descriptor).code_selector.spec_index() == 1,
        selectors_for(tss_descriptor).tss_selector.spec_index() == 2,
        selectors_for(tss_descriptor).code_selector.spec_rpl() == 0,
        selectors_for(tss_descriptor).tss_selector.spec_rpl() == 0,
{
    let low = tss_descriptor->SystemSegment_0;
    assert(((low & 0x0000_6000_0000_0000) >> 45) as u16 == 0) by (bit_vector)
        requires
            low & 0x00ff_ff00_0000_ffff == 0x0000_8900_0000_0067,
    ;
    assert(((0x00af_9b00_0000_ffffu64 & 0x0000_6000_0000_0000) >> 45) as u16 == 0) by (bit_vector);
    assert(((1u16 << 3) | 0u16) as u16 == 0x08) by (bit_vector);
    assert(((2u16 << 3) | 0u16) as u16 == 0x10) by (bit_vector);
    assert(0x08u16 >> 3 == 1 && 0x08u16 & 3 == 0 && 0x10u16 >> 3 == 2 && 0x10u16 & 3 == 0)
        by (bit_vector);
}

/// Building the table twice gives the same selectors, also for segments
/// at different addresses, and the selector added later has the higher
/// index.
pub proof fn selectors_are_deterministic(first: Descriptor, second: Descriptor)
    requires
        first.is_tss(),
        second.is_tss(),
    ensures
        selectors_for(first) == selectors_for(second),
        selectors_for(first).code_selector.spec_index() < selectors_for(
            first,
        ).tss_selector.spec_index(),
{
    tss_selectors_are_fixed(first);
    tss_selectors_are_fixed(second);
}

/// A selector built for a slot of the table names that slot and requests
/// the level it was built with.
pub proof fn selector_names_its_slot(slot: int, rpl: u16)
    requires
        0 <= slot < GDT_CAPACITY,
        rpl <= 3,
    ensures
        SegmentSelector::of(slot, rpl).spec_index() == slot,
        SegmentSelector::of(slot, rpl).spec_rpl() == rpl,
{
    let index = slot as u16;
    assert((((index << 3) | rpl) as u16) >> 3 == index && (((index << 3) | rpl) as u16) & 3 == rpl)
        by (bit_vector)
        requires
            index < 8,
            rpl <= 3,
    ;
}

/// Selectors follow the order of insertion: of two descriptors added one
/// after the other to a table, the second gets the higher index, and both
/// selectors depend on nothing but the table's length and the descriptors.
pub proof fn later_descriptor_gets_higher_index(
    table: Seq<u64>,
    first: Descriptor,
    second: Descriptor,
)
    requires
        table.len() + first.words().len() + second.words().len() <= GDT_CAPACITY,
    ensures
        SegmentSelector::of(table.len() as int, first.dpl()).spec_index() == table.len(),
        SegmentSelector::of((table + first.words()).len() as int, second.dpl()).spec_index()
            == table.len() + first.words().len(),
        SegmentSelector::of(table.len() as int, first.dpl()).spec_index() < SegmentSelector::of(
            (table + first.words()).len() as int,
            second.dpl(),
        ).spec_index(),
{
    descriptor_level_is_small(first);
    descriptor_level_is_small(second);
    selector_names_its_slot(table.len() as int, first.dpl());
    selector_names_its_slot((table + first.words()).len() as int, second.dpl());
}

/// A descriptor's privilege level is one of 0 to 3.
proof fn descriptor_level_is_small(descriptor: Descriptor)
    ensures
        descriptor.dpl() <= 3,
{
    let low = match descriptor {
        Descriptor::UserSegment(value) => value,
        Descriptor::SystemSegment(low, _) => low,
    };
    assert(((low & 0x0000_6000_0000_0000) >> 45) as u16 <= 3) by (bit_vector);
}

/// The register loads that put the tables into use, in the order in which
/// they have to happen: first the descriptor table, then the code segment
/// with the code selector, then the task register with the selector of the
/// Task State Segment.
pub fn init(selectors: &Selectors) -> (loads: [RegisterLoad; 3])
    ensures
        loads@ == seq![
            RegisterLoad::DescriptorTable,
            RegisterLoad::CodeSegment(selectors.code_selector),
            RegisterLoad::TaskRegister(selectors.tss_selector),
        ],
{
    let loads = [
        RegisterLoad::DescriptorTable,
        RegisterLoad::CodeSegment(selectors.code_selector),
        RegisterLoad::TaskRegister(selectors.tss_selector),
    ];
    assert(loads@ =~= seq![
        RegisterLoad::DescriptorTable,
        RegisterLoad::CodeSegment(selectors.code_selector),
        RegisterLoad::TaskRegister(selectors.tss_selector),
    ]);
    loads
}

} // verus!
