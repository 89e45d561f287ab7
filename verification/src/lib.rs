//! Bootstrap layer of a freestanding x86_64 kernel.
//!
//! * [`vga_buffer`]: the text console, a writer over the memory-mapped grid
//!   of glyph cells that the display controller shows.
//! * [`screen`]: the console as a mathematical value, in whose terms the
//!   writer's contracts are stated, and the laws of writing and scrolling.
//! * [`gdt`]: the Task State Segment with its double-fault stack, the
//!   Global Descriptor Table with its selectors, and the order in which
//!   the processor's registers are loaded with them.
//!
//! Nothing here touches the processor or a fixed address: the caller hands
//! in the grid and the address of the stack, and performs the register
//! loads that [`gdt::init`] lists.

pub mod gdt;
pub mod screen;
pub mod vga_buffer;
