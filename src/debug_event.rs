//! Classification of debug exceptions from the debug status (DR6) and debug
//! control (DR7) register words.
use vstd::prelude::*;

verus! {

/// DR6: breakpoint condition 0 was met.
pub const TRAP0: u64 = 0x1;
/// DR6: breakpoint condition 1 was met.
pub const TRAP1: u64 = 0x2;
/// DR6: breakpoint condition 2 was met.
pub const TRAP2: u64 = 0x4;
/// DR6: breakpoint condition 3 was met.
pub const TRAP3: u64 = 0x8;
/// DR6: the next instruction accesses a debug register.
pub const ACCESS_DETECTED: u64 = 0x2000;
/// DR6: the exception was caused by single-stepping.
pub const STEP: u64 = 0x4000;
/// DR6: the exception was caused by a task switch.
pub const SWITCH: u64 = 0x8000;

/// DR7: local enable of breakpoint 0.
pub const LOCAL_BREAKPOINT_0_ENABLE: u64 = 0x1;
/// DR7: global enable of breakpoint 0.
pub const GLOBAL_BREAKPOINT_0_ENABLE: u64 = 0x2;
/// DR7: local enable of breakpoint 1.
pub const LOCAL_BREAKPOINT_1_ENABLE: u64 = 0x4;
/// DR7: global enable of breakpoint 1.
pub const GLOBAL_BREAKPOINT_1_ENABLE: u64 = 0x8;
/// DR7: local enable of breakpoint 2.
pub const LOCAL_BREAKPOINT_2_ENABLE: u64 = 0x10;
/// DR7: global enable of breakpoint 2.
pub const GLOBAL_BREAKPOINT_2_ENABLE: u64 = 0x20;
/// DR7: local enable of breakpoint 3.
pub const LOCAL_BREAKPOINT_3_ENABLE: u64 = 0x40;
/// DR7: global enable of breakpoint 3.
pub const GLOBAL_BREAKPOINT_3_ENABLE: u64 = 0x80;

/// How a debug exception is to be handled.
#[derive(Debug, Clone, Copy, PartialEq, Eq, Structural)]
pub enum DebugEventClass {
    /// Reported like a fault (in debug builds only); execution resumes at the
    /// faulting instruction.
    Fault,
    /// Always reported; execution continues with the next instruction.
    Trap,
    /// No known cause is flagged: nothing is reported.
    Unclassified,
}

/// Every bit of `mask` is set in `word`.
pub open spec fn has_flags(word: u64, mask: u64) -> bool {
    word & mask == mask
}

/// A hardware breakpoint that fired: a data breakpoint (trap) when one of the
/// two enable bits checked for it is set, an instruction breakpoint (fault)
/// otherwise.
pub open spec fn breakpoint_class(control: u64, local: u64, global: u64) -> DebugEventClass {
    if !has_flags(control, local) && !has_flags(control, global) {
        DebugEventClass::Fault
    } else {
        DebugEventClass::Trap
    }
}

/// The decision table for a debug exception, in priority order.
///
/// The fourth breakpoint slot is checked against its own local enable bit and
/// the *third* slot's global enable bit. Whether its own global bit was meant
/// is an open question; the table checks the third slot's.
pub open spec fn classify_spec(status: u64, control: u64) -> DebugEventClass {
    if has_flags(status, ACCESS_DETECTED) {
        DebugEventClass::Fault
    } else if has_flags(status, TRAP0) {
        breakpoint_class(control, LOCAL_BREAKPOINT_0_ENABLE, GLOBAL_BREAKPOINT_0_ENABLE)
    } else if has_flags(status, TRAP1) {
        breakpoint_class(control, LOCAL_BREAKPOINT_1_ENABLE, GLOBAL_BREAKPOINT_1_ENABLE)
    } else if has_flags(status, TRAP2) {
        breakpoint_class(control, LOCAL_BREAKPOINT_2_ENABLE, GLOBAL_BREAKPOINT_2_ENABLE)
    } else if has_flags(status, TRAP3) {
        breakpoint_class(control, LOCAL_BREAKPOINT_3_ENABLE, GLOBAL_BREAKPOINT_2_ENABLE)
    } else if has_flags(status, STEP) {
        DebugEventClass::Trap
    } else if has_flags(status, SWITCH) {
        DebugEventClass::Trap
    } else {
        DebugEventClass::Unclassified
    }
}

fn flags_set(word: u64, mask: u64) -> (r: bool)
    ensures
        r == has_flags(word, mask),
{
    word & mask == mask
}

fn classify_breakpoint(control: u64, local: u64, global: u64) -> (r: DebugEventClass)
    ensures
        r == breakpoint_class(control, local, global),
{
    if !flags_set(control, local) && !flags_set(control, global) {
        DebugEventClass::Fault
    } else {
        DebugEventClass::Trap
    }
}

/// Classifies a debug exception from the status and control register words.
pub fn classify(status: u64, control: u64) -> (r: DebugEventClass)
    ensures
        r == classify_spec(status, control),
{
    if flags_set(status, ACCESS_DETECTED) {
        DebugEventClass::Fault
    } else if flags_set(status, TRAP0) {
        classify_breakpoint(control, LOCAL_BREAKPOINT_0_ENABLE, GLOBAL_BREAKPOINT_0_ENABLE)
    } else if flags_set(status, TRAP1) {
        classify_breakpoint(control, LOCAL_BREAKPOINT_1_ENABLE, GLOBAL_BREAKPOINT_1_ENABLE)
    } else if flags_set(status, TRAP2) {
        classify_breakpoint(control, LOCAL_BREAKPOINT_2_ENABLE, GLOBAL_BREAKPOINT_2_ENABLE)
    } else if flags_set(status, TRAP3) {
        classify_breakpoint(control, LOCAL_BREAKPOINT_3_ENABLE, GLOBAL_BREAKPOINT_2_ENABLE)
    } else if flags_set(status, STEP) {
        DebugEventClass::Trap
    } else if flags_set(status, SWITCH) {
        DebugEventClass::Trap
    } else {
        DebugEventClass::Unclassified
    }
}

/// The debug status and control register words as read on entry to the debug
/// exception handler.
#[derive(Debug, Clone, Copy, PartialEq, Eq, Structural)]
pub struct DebugRegisters {
    /// DR6.
    pub status: u64,
    /// DR7.
    pub control: u64,
}

/// Handles a debug exception: classifies it, then clears the status word so
/// that no stale condition carries over into the next debug exception.
pub fn take_debug_event(regs: &mut DebugRegisters) -> (r: DebugEventClass)
    ensures
        r == classify_spec(old(regs).status, old(regs).control),
        final(regs).status == 0,
        final(regs).control == old(regs).control,
{
    let r = classify(regs.status, regs.control);
    regs.status = 0;
    r
}

/// Classification depends on the two register words alone: equal words give
/// equal classes.
pub proof fn classification_is_deterministic(s1: u64, c1: u64, s2: u64, c2: u64)
    requires
        s1 == s2,
        c1 == c2,
    ensures
        classify_spec(s1, c1) == classify_spec(s2, c2),
{
}

/// A debug-register access violation is a fault, whatever the control word.
pub proof fn access_detected_is_fault(control: u64)
    ensures
        classify_spec(ACCESS_DETECTED, control) == DebugEventClass::Fault,
{
    assert(ACCESS_DETECTED & ACCESS_DETECTED == ACCESS_DETECTED) by (bit_vector);
}

/// A single step is a trap, whatever the control word.
pub proof fn single_step_is_trap(control: u64)
    ensures
        classify_spec(STEP, control) == DebugEventClass::Trap,
{
    assert(STEP & ACCESS_DETECTED != ACCESS_DETECTED) by (bit_vector);
    assert(STEP & TRAP0 != TRAP0) by (bit_vector);
    assert(STEP & TRAP1 != TRAP1) by (bit_vector);
    assert(STEP & TRAP2 != TRAP2) by (bit_vector);
    assert(STEP & TRAP3 != TRAP3) by (bit_vector);
    assert(STEP & STEP == STEP) by (bit_vector);
}

/// Breakpoint 0 fired with either of its enable bits set: a data breakpoint,
/// so a trap.
pub proof fn enabled_breakpoint_0_is_trap(control: u64)
    requires
        has_flags(control, LOCAL_BREAKPOINT_0_ENABLE) || has_flags(control, GLOBAL_BREAKPOINT_0_ENABLE),
    ensures
        classify_spec(TRAP0, control) == DebugEventClass::Trap,
{
    assert(TRAP0 & ACCESS_DETECTED != ACCESS_DETECTED) by (bit_vector);
    assert(TRAP0 & TRAP0 == TRAP0) by (bit_vector);
}

/// Breakpoint 0 fired with neither enable bit set: an instruction breakpoint,
/// so a fault.
pub proof fn disabled_breakpoint_0_is_fault(control: u64)
    requires
        !has_flags(control, LOCAL_BREAKPOINT_0_ENABLE),
        !has_flags(control, GLOBAL_BREAKPOINT_0_ENABLE),
    ensures
        classify_spec(TRAP0, control) == DebugEventClass::Fault,
{
    assert(TRAP0 & ACCESS_DETECTED != ACCESS_DETECTED) by (bit_vector);
    assert(TRAP0 & TRAP0 == TRAP0) by (bit_vector);
}

} // verus!
