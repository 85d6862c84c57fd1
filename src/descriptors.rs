//! The interrupt stack table of the task state segment, which gives the
//! double-fault handler a known-good stack of its own.
use vstd::prelude::*;

use crate::vectors::{standard_table, Handler, DOUBLE_FAULT_IST_INDEX};

verus! {

/// Size in bytes of the stack reserved for the double-fault handler.
pub const DOUBLE_FAULT_STACK_SIZE: u64 = 20480;

/// Number of slots in the interrupt stack table.
pub const INTERRUPT_STACK_TABLE_LEN: usize = 7;

/// Lowest address of the upper canonical half.
pub const UPPER_HALF_START: u64 = 0xFFFF_8000_0000_0000;

/// First address past the lower canonical half.
pub const LOWER_HALF_END: u64 = 0x0000_8000_0000_0000;

/// Bits 48 to 63 of the address repeat bit 47.
pub open spec fn is_canonical(addr: u64) -> bool {
    addr < LOWER_HALF_END || addr >= UPPER_HALF_START
}

/// Relies on `x86_64::VirtAddr::try_new`, which accepts an address exactly
/// when sign-extending its bit 47 leaves it unchanged.
#[verifier::external_body]
fn virt_addr_is_canonical(addr: u64) -> (r: bool)
    ensures
        r == is_canonical(addr),
{
    x86_64::VirtAddr::try_new(addr).is_ok()
}

/// Why a reserved stack region cannot be used.
#[derive(Debug, Clone, Copy, PartialEq, Eq, Structural)]
pub enum StackError {
    /// The region's start is not a canonical address.
    StartNotCanonical,
    /// The region runs past the end of the address space.
    Overflow,
    /// The region's end is not a canonical address.
    EndNotCanonical,
}

/// The error, if any, for a double-fault stack starting at `start`.
pub open spec fn stack_error(start: u64) -> Option<StackError> {
    if !is_canonical(start) {
        Some(StackError::StartNotCanonical)
    } else if start + DOUBLE_FAULT_STACK_SIZE > u64::MAX {
        Some(StackError::Overflow)
    } else if !is_canonical((start + DOUBLE_FAULT_STACK_SIZE) as u64) {
        Some(StackError::EndNotCanonical)
    } else {
        None
    }
}

/// The table that a double-fault stack starting at `start` gives: the stack's
/// top (stacks grow down) in the reserved slot, every other slot unset.
pub open spec fn double_fault_table(start: u64) -> Seq<u64> {
    Seq::new(
        INTERRUPT_STACK_TABLE_LEN as nat,
        |i: int|
            if i == DOUBLE_FAULT_IST_INDEX as int {
                (start + DOUBLE_FAULT_STACK_SIZE) as u64
            } else {
                0u64
            },
    )
}

/// The interrupt stack table: the stack top the processor switches to for
/// each slot, 0 where the slot is unset.
pub struct InterruptStackTable {
    tops: Vec<u64>,
}

impl View for InterruptStackTable {
    type V = Seq<u64>;

    closed spec fn view(&self) -> Seq<u64> {
        self.tops@
    }
}

impl InterruptStackTable {
    /// A table whose reserved slot holds the top of the double-fault stack
    /// that starts at `stack_start`.
    pub fn with_double_fault_stack(stack_start: u64) -> (r: Result<InterruptStackTable, StackError>)
        ensures
            match stack_error(stack_start) {
                None => r is Ok && r->Ok_0@ == double_fault_table(stack_start),
                Some(e) => r is Err && r->Err_0 == e,
            },
    {
        if !virt_addr_is_canonical(stack_start) {
            return Err(StackError::StartNotCanonical);
        }
        if stack_start > u64::MAX - DOUBLE_FAULT_STACK_SIZE {
            return Err(StackError::Overflow);
        }
        let top = stack_start + DOUBLE_FAULT_STACK_SIZE;
        if !virt_addr_is_canonical(top) {
            return Err(StackError::EndNotCanonical);
        }
        let mut tops: Vec<u64> = Vec::new();
        let mut i: usize = 0;
        while i < INTERRUPT_STACK_TABLE_LEN
            invariant
                i <= INTERRUPT_STACK_TABLE_LEN,
                top == stack_start + DOUBLE_FAULT_STACK_SIZE,
                tops@.len() == i,
                forall|j: int| 0 <= j < i ==> tops@[j] == double_fault_table(stack_start)[j],
            decreases INTERRUPT_STACK_TABLE_LEN - i,
        {
            if i == DOUBLE_FAULT_IST_INDEX as usize {
                tops.push(top);
            } else {
                tops.push(0);
            }
            i += 1;
        }
        assert(tops@ =~= double_fault_table(stack_start));
        Ok(InterruptStackTable { tops })
    }

    /// The stack top of `slot`.
    pub fn stack_top(&self, slot: usize) -> (r: u64)
        requires
            slot < self@.len(),
        ensures
            r == self@[slot as int],
    {
        self.tops[slot]
    }
}

/// The slot the double fault switches to is the one that holds the top of the
/// reserved stack, and every other slot of the table is unset.
pub proof fn double_fault_switches_to_reserved_stack(stack_start: u64)
    requires
        stack_error(stack_start).is_none(),
    ensures
        standard_table()[Handler::DoubleFault.vector_spec() as int] is Some,
        ({
            let slot = standard_table()[Handler::DoubleFault.vector_spec() as int]->Some_0.stack_index;
            &&& slot == Some(DOUBLE_FAULT_IST_INDEX)
            &&& double_fault_table(stack_start)[DOUBLE_FAULT_IST_INDEX as int] == stack_start
                + DOUBLE_FAULT_STACK_SIZE
        }),
        forall|i: int|
            0 <= i < INTERRUPT_STACK_TABLE_LEN && i != DOUBLE_FAULT_IST_INDEX ==> #[trigger] double_fault_table(
                stack_start,
            )[i] == 0,
{
}

} // verus!
