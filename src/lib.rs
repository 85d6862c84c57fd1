//! Trap and interrupt core of a freestanding x86_64 kernel: the decisions that
//! the processor's exception and interrupt entry points make, stated and proved.
use vstd::prelude::*;

pub mod controller;
pub mod debug_event;
pub mod descriptors;
pub mod keyboard;
pub mod qemu;
pub mod subsystem;
pub mod test_framework;
pub mod vectors;
pub mod vga;
pub mod writer;

use crate::controller::{PIC_1_OFFSET, PIC_2_OFFSET};
use crate::subsystem::InterruptSubsystem;
use crate::vectors::{standard_table, VECTOR_COUNT};

verus! {

/// Builds the interrupt subsystem once at start-up: the full vector table, the
/// standard controller layout, a fresh keyboard decoder. The caller loads the
/// descriptor tables and then this table, in that order, before unmasking
/// interrupts.
pub fn init() -> (r: InterruptSubsystem)
    ensures
        r.wf(),
        r.fed_spec() == Seq::<u8>::empty(),
        r.vectors_spec() == standard_table(),
        r.vectors_spec().len() == VECTOR_COUNT,
        r.controller_spec().primary_offset_spec() == PIC_1_OFFSET,
        r.controller_spec().secondary_offset_spec() == PIC_2_OFFSET,
        r.ticks_spec() == 0,
{
    InterruptSubsystem::new()
}

} // verus!
