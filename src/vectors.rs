//! The interrupt vector table: which handler each vector is bound to, which
//! shape each handler has, and how an exception handler responds.
use vstd::prelude::*;

use crate::controller::{InterruptIndex, PIC_1_OFFSET};
use crate::debug_event::DebugEventClass;

verus! {

/// Slot of the interrupt stack table that holds the known-good stack used by
/// the double-fault handler.
pub const DOUBLE_FAULT_IST_INDEX: u16 = 0;

/// Number of vectors in the table.
pub const VECTOR_COUNT: usize = 256;

/// Every handler this kernel binds, one per supported vector.
#[derive(Debug, Clone, Copy, PartialEq, Eq, Structural)]
pub enum Handler {
    DivideError,
    Debug,
    NonMaskableInterrupt,
    Breakpoint,
    Overflow,
    BoundRangeExceeded,
    InvalidOpcode,
    DeviceNotAvailable,
    DoubleFault,
    InvalidTss,
    SegmentNotPresent,
    StackSegmentFault,
    GeneralProtectionFault,
    PageFault,
    X87FloatingPoint,
    AlignmentCheck,
    MachineCheck,
    SimdFloatingPoint,
    Virtualization,
    CpProtection,
    HvInjection,
    VmmCommunication,
    Security,
    Timer,
    Keyboard,
}

/// What a handler does once entered.
#[derive(Debug, Clone, Copy, PartialEq, Eq, Structural)]
pub enum HandlerShape {
    /// Reports only in debug builds, then resumes at the faulting instruction.
    Fault { error_code: bool },
    /// Always reports, then resumes at the next instruction.
    Trap,
    /// Classified at run time from the debug registers.
    Debug,
    /// Reports in debug builds, then halts: there is no page-fault recovery.
    PageFault,
    /// Always reports and never returns.
    Fatal { error_code: bool },
    /// A hardware interrupt: serviced, then acknowledged.
    Hardware(InterruptIndex),
}

impl Handler {
    /// The vector the handler is bound to.
    pub open spec fn vector_spec(self) -> u8 {
        match self {
            Handler::DivideError => 0,
            Handler::Debug => 1,
            Handler::NonMaskableInterrupt => 2,
            Handler::Breakpoint => 3,
            Handler::Overflow => 4,
            Handler::BoundRangeExceeded => 5,
            Handler::InvalidOpcode => 6,
            Handler::DeviceNotAvailable => 7,
            Handler::DoubleFault => 8,
            Handler::InvalidTss => 10,
            Handler::SegmentNotPresent => 11,
            Handler::StackSegmentFault => 12,
            Handler::GeneralProtectionFault => 13,
            Handler::PageFault => 14,
            Handler::X87FloatingPoint => 16,
            Handler::AlignmentCheck => 17,
            Handler::MachineCheck => 18,
            Handler::SimdFloatingPoint => 19,
            Handler::Virtualization => 20,
            Handler::CpProtection => 21,
            Handler::HvInjection => 28,
            Handler::VmmCommunication => 29,
            Handler::Security => 30,
            Handler::Timer => InterruptIndex::Timer.vector_spec(),
            Handler::Keyboard => InterruptIndex::Keyboard.vector_spec(),
        }
    }

    /// The handler bound to `vector`, if this kernel supports the vector.
    pub open spec fn for_vector_spec(vector: u8) -> Option<Handler> {
        if vector == 0 {
            Some(Handler::DivideError)
        } else if vector == 1 {
            Some(Handler::Debug)
        } else if vector == 2 {
            Some(Handler::NonMaskableInterrupt)
        } else if vector == 3 {
            Some(Handler::Breakpoint)
        } else if vector == 4 {
            Some(Handler::Overflow)
        } else if vector == 5 {
            Some(Handler::BoundRangeExceeded)
        } else if vector == 6 {
            Some(Handler::InvalidOpcode)
        } else if vector == 7 {
            Some(Handler::DeviceNotAvailable)
        } else if vector == 8 {
            Some(Handler::DoubleFault)
        } else if vector == 10 {
            Some(Handler::InvalidTss)
        } else if vector == 11 {
            Some(Handler::SegmentNotPresent)
        } else if vector == 12 {
            Some(Handler::StackSegmentFault)
        } else if vector == 13 {
            Some(Handler::GeneralProtectionFault)
        } else if vector == 14 {
            Some(Handler::PageFault)
        } else if vector == 16 {
            Some(Handler::X87FloatingPoint)
        } else if vector == 17 {
            Some(Handler::AlignmentCheck)
        } else if vector == 18 {
            Some(Handler::MachineCheck)
        } else if vector == 19 {
            Some(Handler::SimdFloatingPoint)
        } else if vector == 20 {
            Some(Handler::Virtualization)
        } else if vector == 21 {
            Some(Handler::CpProtection)
        } else if vector == 28 {
            Some(Handler::HvInjection)
        } else if vector == 29 {
            Some(Handler::VmmCommunication)
        } else if vector == 30 {
            Some(Handler::Security)
        } else if vector == PIC_1_OFFSET {
            Some(Handler::Timer)
        } else if vector == PIC_1_OFFSET + 1 {
            Some(Handler::Keyboard)
        } else {
            None
        }
    }

    /// The shape of the handler, fixed by the architecture for exceptions.
    pub open spec fn shape_spec(self) -> HandlerShape {
        match self {
            Handler::Debug => HandlerShape::Debug,
            Handler::NonMaskableInterrupt => HandlerShape::Trap,
            Handler::Breakpoint => HandlerShape::Trap,
            Handler::Overflow => HandlerShape::Trap,
            Handler::DoubleFault => HandlerShape::Fatal { error_code: true },
            Handler::MachineCheck => HandlerShape::Fatal { error_code: false },
            Handler::PageFault => HandlerShape::PageFault,
            Handler::InvalidTss => HandlerShape::Fault { error_code: true },
            Handler::SegmentNotPresent => HandlerShape::Fault { error_code: true },
            Handler::StackSegmentFault => HandlerShape::Fault { error_code: true },
            Handler::GeneralProtectionFault => HandlerShape::Fault { error_code: true },
            Handler::AlignmentCheck => HandlerShape::Fault { error_code: true },
            Handler::CpProtection => HandlerShape::Fault { error_code: true },
            Handler::VmmCommunication => HandlerShape::Fault { error_code: true },
            Handler::Security => HandlerShape::Fault { error_code: true },
            Handler::Timer => HandlerShape::Hardware(InterruptIndex::Timer),
            Handler::Keyboard => HandlerShape::Hardware(InterruptIndex::Keyboard),
            _ => HandlerShape::Fault { error_code: false },
        }
    }

    /// The vector the handler is bound to.
    pub fn vector(self) -> (r: u8)
        ensures
            r == self.vector_spec(),
    {
        match self {
            Handler::DivideError => 0,
            Handler::Debug => 1,
            Handler::NonMaskableInterrupt => 2,
            Handler::Breakpoint => 3,
            Handler::Overflow => 4,
            Handler::BoundRangeExceeded => 5,
            Handler::InvalidOpcode => 6,
            Handler::DeviceNotAvailable => 7,
            Handler::DoubleFault => 8,
            Handler::InvalidTss => 10,
            Handler::SegmentNotPresent => 11,
            Handler::StackSegmentFault => 12,
            Handler::GeneralProtectionFault => 13,
            Handler::PageFault => 14,
            Handler::X87FloatingPoint => 16,
            Handler::AlignmentCheck => 17,
            Handler::MachineCheck => 18,
            Handler::SimdFloatingPoint => 19,
            Handler::Virtualization => 20,
            Handler::CpProtection => 21,
            Handler::HvInjection => 28,
            Handler::VmmCommunication => 29,
            Handler::Security => 30,
            Handler::Timer => InterruptIndex::Timer.vector(),
            Handler::Keyboard => InterruptIndex::Keyboard.vector(),
        }
    }

    /// The handler bound to `vector`, if this kernel supports the vector.
    pub fn for_vector(vector: u8) -> (r: Option<Handler>)
        ensures
            r == Handler::for_vector_spec(vector),
    {
        match vector {
            0 => Some(Handler::DivideError),
            1 => Some(Handler::Debug),
            2 => Some(Handler::NonMaskableInterrupt),
            3 => Some(Handler::Breakpoint),
            4 => Some(Handler::Overflow),
            5 => Some(Handler::BoundRangeExceeded),
            6 => Some(Handler::InvalidOpcode),
            7 => Some(Handler::DeviceNotAvailable),
            8 => Some(Handler::DoubleFault),
            10 => Some(Handler::InvalidTss),
            11 => Some(Handler::SegmentNotPresent),
            12 => Some(Handler::StackSegmentFault),
            13 => Some(Handler::GeneralProtectionFault),
            14 => Some(Handler::PageFault),
            16 => Some(Handler::X87FloatingPoint),
            17 => Some(Handler::AlignmentCheck),
            18 => Some(Handler::MachineCheck),
            19 => Some(Handler::SimdFloatingPoint),
            20 => Some(Handler::Virtualization),
            21 => Some(Handler::CpProtection),
            28 => Some(Handler::HvInjection),
            29 => Some(Handler::VmmCommunication),
            30 => Some(Handler::Security),
            32 => Some(Handler::Timer),
            33 => Some(Handler::Keyboard),
            _ => None,
        }
    }

    /// The shape of the handler.
    pub fn shape(self) -> (r: HandlerShape)
        ensures
            r == self.shape_spec(),
    {
        match self {
            Handler::Debug => HandlerShape::Debug,
            Handler::NonMaskableInterrupt => HandlerShape::Trap,
            Handler::Breakpoint => HandlerShape::Trap,
            Handler::Overflow => HandlerShape::Trap,
            Handler::DoubleFault => HandlerShape::Fatal { error_code: true },
            Handler::MachineCheck => HandlerShape::Fatal { error_code: false },
            Handler::PageFault => HandlerShape::PageFault,
            Handler::InvalidTss => HandlerShape::Fault { error_code: true },
            Handler::SegmentNotPresent => HandlerShape::Fault { error_code: true },
            Handler::StackSegmentFault => HandlerShape::Fault { error_code: true },
            Handler::GeneralProtectionFault => HandlerShape::Fault { error_code: true },
            Handler::AlignmentCheck => HandlerShape::Fault { error_code: true },
            Handler::CpProtection => HandlerShape::Fault { error_code: true },
            Handler::VmmCommunication => HandlerShape::Fault { error_code: true },
            Handler::Security => HandlerShape::Fault { error_code: true },
            Handler::Timer => HandlerShape::Hardware(InterruptIndex::Timer),
            Handler::Keyboard => HandlerShape::Hardware(InterruptIndex::Keyboard),
            _ => HandlerShape::Fault { error_code: false },
        }
    }
}

impl Handler {
    /// The name an exception report carries.
    pub open spec fn name_spec(self) -> Seq<char> {
        match self {
            Handler::DivideError => "DIVIDE ERROR"@,
            Handler::Debug => "DEBUG"@,
            Handler::NonMaskableInterrupt => "NON-MASKABLE INTERRUPT"@,
            Handler::Breakpoint => "BREAKPOINT"@,
            Handler::Overflow => "OVERFLOW"@,
            Handler::BoundRangeExceeded => "BOUND RANGE EXCEEDED"@,
            Handler::InvalidOpcode => "INVALID OPCODE"@,
            Handler::DeviceNotAvailable => "DEVICE NOT AVAILABLE"@,
            Handler::DoubleFault => "DOUBLE FAULT"@,
            Handler::InvalidTss => "INVALID TSS"@,
            Handler::SegmentNotPresent => "SEGMENT NOT PRESENT"@,
            Handler::StackSegmentFault => "STACK-SEGMENT FAULT"@,
            Handler::GeneralProtectionFault => "GENERAL PROTECTION FAULT"@,
            Handler::PageFault => "PAGE FAULT"@,
            Handler::X87FloatingPoint => "x87 FLOATING-POINT"@,
            Handler::AlignmentCheck => "ALIGNMENT CHECK"@,
            Handler::MachineCheck => "MACHINE_CHECK"@,
            Handler::SimdFloatingPoint => "SIMD FLOATING-POINT"@,
            Handler::Virtualization => "VIRTUALIZATION"@,
            Handler::CpProtection => "CONTROL PROTECTION"@,
            Handler::HvInjection => "HYPERVISOR INJECTION"@,
            Handler::VmmCommunication => "VMM COMMUNICATION"@,
            Handler::Security => "SECURITY"@,
            Handler::Timer => "TIMER"@,
            Handler::Keyboard => "KEYBOARD"@,
        }
    }

    /// The name an exception report carries.
    pub fn name(self) -> (r: &'static str)
        ensures
            r@ == self.name_spec(),
    {
        match self {
            Handler::DivideError => "DIVIDE ERROR",
            Handler::Debug => "DEBUG",
            Handler::NonMaskableInterrupt => "NON-MASKABLE INTERRUPT",
            Handler::Breakpoint => "BREAKPOINT",
            Handler::Overflow => "OVERFLOW",
            Handler::BoundRangeExceeded => "BOUND RANGE EXCEEDED",
            Handler::InvalidOpcode => "INVALID OPCODE",
            Handler::DeviceNotAvailable => "DEVICE NOT AVAILABLE",
            Handler::DoubleFault => "DOUBLE FAULT",
            Handler::InvalidTss => "INVALID TSS",
            Handler::SegmentNotPresent => "SEGMENT NOT PRESENT",
            Handler::StackSegmentFault => "STACK-SEGMENT FAULT",
            Handler::GeneralProtectionFault => "GENERAL PROTECTION FAULT",
            Handler::PageFault => "PAGE FAULT",
            Handler::X87FloatingPoint => "x87 FLOATING-POINT",
            Handler::AlignmentCheck => "ALIGNMENT CHECK",
            Handler::MachineCheck => "MACHINE_CHECK",
            Handler::SimdFloatingPoint => "SIMD FLOATING-POINT",
            Handler::Virtualization => "VIRTUALIZATION",
            Handler::CpProtection => "CONTROL PROTECTION",
            Handler::HvInjection => "HYPERVISOR INJECTION",
            Handler::VmmCommunication => "VMM COMMUNICATION",
            Handler::Security => "SECURITY",
            Handler::Timer => "TIMER",
            Handler::Keyboard => "KEYBOARD",
        }
    }
}

/// Where execution goes once an exception handler is done.
#[derive(Debug, Clone, Copy, PartialEq, Eq, Structural)]
pub enum Continuation {
    /// Return from the handler to the interrupted instruction stream.
    Resume,
    /// Park the processor in a halt loop for good.
    Halt,
    /// Stop the kernel with a panic carrying the report.
    Panic,
}

/// What an exception handler does: whether it reports, and how it ends.
#[derive(Debug, Clone, Copy, PartialEq, Eq, Structural)]
pub struct ExceptionResponse {
    /// The exception's name and trap frame are reported.
    pub report: bool,
    /// How the handler ends.
    pub continuation: Continuation,
}

/// The response to an exception.
///
/// Faults report only in debug builds and resume; traps always report and
/// resume; a page fault reports in debug builds and halts; fatal exceptions
/// always report and panic. A debug exception follows the class its registers
/// gave (`debug_class`, which matters for no other handler): reported as a
/// fault or a trap, or not at all when no cause was flagged. Hardware
/// interrupts report nothing.
pub open spec fn exception_response_spec(
    handler: Handler,
    debug_build: bool,
    debug_class: DebugEventClass,
) -> ExceptionResponse {
    match handler.shape_spec() {
        HandlerShape::Fault { .. } => ExceptionResponse {
            report: debug_build,
            continuation: Continuation::Resume,
        },
        HandlerShape::Trap => ExceptionResponse { report: true, continuation: Continuation::Resume },
        HandlerShape::Debug => ExceptionResponse {
            report: match debug_class {
                DebugEventClass::Fault => debug_build,
                DebugEventClass::Trap => true,
                DebugEventClass::Unclassified => false,
            },
            continuation: Continuation::Resume,
        },
        HandlerShape::PageFault => ExceptionResponse {
            report: debug_build,
            continuation: Continuation::Halt,
        },
        HandlerShape::Fatal { .. } => ExceptionResponse {
            report: true,
            continuation: Continuation::Panic,
        },
        HandlerShape::Hardware(_) => ExceptionResponse {
            report: false,
            continuation: Continuation::Resume,
        },
    }
}

/// Decides how the handler for `handler` responds.
pub fn exception_response(handler: Handler, debug_build: bool, debug_class: DebugEventClass) -> (r:
    ExceptionResponse)
    ensures
        r == exception_response_spec(handler, debug_build, debug_class),
{
    match handler.shape() {
        HandlerShape::Fault { .. } => ExceptionResponse {
            report: debug_build,
            continuation: Continuation::Resume,
        },
        HandlerShape::Trap => ExceptionResponse { report: true, continuation: Continuation::Resume },
        HandlerShape::Debug => {
            let report = match debug_class {
                DebugEventClass::Fault => debug_build,
                DebugEventClass::Trap => true,
                DebugEventClass::Unclassified => false,
            };
            ExceptionResponse { report, continuation: Continuation::Resume }
        },
        HandlerShape::PageFault => ExceptionResponse {
            report: debug_build,
            continuation: Continuation::Halt,
        },
        HandlerShape::Fatal { .. } => ExceptionResponse {
            report: true,
            continuation: Continuation::Panic,
        },
        HandlerShape::Hardware(_) => ExceptionResponse {
            report: false,
            continuation: Continuation::Resume,
        },
    }
}

/// A handler bound to a vector, with the interrupt-stack-table slot it switches
/// to on entry, if any.
#[derive(Debug, Clone, Copy, PartialEq, Eq, Structural)]
pub struct HandlerBinding {
    /// The bound handler.
    pub handler: Handler,
    /// The interrupt-stack-table slot the processor switches to on entry.
    pub stack_index: Option<u16>,
}

/// The binding this kernel gives `vector`: the handler for the vector, on the
/// reserved stack for the double fault and on the current stack otherwise.
pub open spec fn standard_binding(vector: u8) -> Option<HandlerBinding> {
    match Handler::for_vector_spec(vector) {
        Some(h) => Some(
            HandlerBinding {
                handler: h,
                stack_index: if h == Handler::DoubleFault {
                    Some(DOUBLE_FAULT_IST_INDEX)
                } else {
                    None
                },
            },
        ),
        None => None,
    }
}

/// The full table this kernel loads, slot by slot.
pub open spec fn standard_table() -> Seq<Option<HandlerBinding>> {
    Seq::new(VECTOR_COUNT as nat, |v: int| standard_binding(v as u8))
}

/// The interrupt vector table: one optional binding per vector.
pub struct VectorTable {
    slots: Vec<Option<HandlerBinding>>,
}

impl View for VectorTable {
    type V = Seq<Option<HandlerBinding>>;

    closed spec fn view(&self) -> Seq<Option<HandlerBinding>> {
        self.slots@
    }
}

fn binding_for(vector: u8) -> (r: Option<HandlerBinding>)
    ensures
        r == standard_binding(vector),
{
    match Handler::for_vector(vector) {
        Some(h) => {
            let stack_index = match h {
                Handler::DoubleFault => Some(DOUBLE_FAULT_IST_INDEX),
                _ => None,
            };
            Some(HandlerBinding { handler: h, stack_index })
        },
        None => None,
    }
}

/// Builds the vector table: every supported vector bound to its handler, the
/// double fault on the reserved stack. Loading it is the caller's part.
pub fn init_idt() -> (r: VectorTable)
    ensures
        r@ == standard_table(),
{
    let mut slots: Vec<Option<HandlerBinding>> = Vec::new();
    let mut v: usize = 0;
    while v < VECTOR_COUNT
        invariant
            v <= VECTOR_COUNT,
            slots@.len() == v,
            forall|i: int| 0 <= i < v ==> slots@[i] == standard_binding(i as u8),
        decreases VECTOR_COUNT - v,
    {
        let b = binding_for(v as u8);
        slots.push(b);
        v += 1;
    }
    assert(slots@ =~= standard_table());
    VectorTable { slots }
}

impl VectorTable {
    /// The binding of `vector`.
    pub fn binding(&self, vector: u8) -> (r: Option<HandlerBinding>)
        requires
            self@.len() == VECTOR_COUNT,
        ensures
            r == self@[vector as int],
    {
        self.slots[vector as usize]
    }
}

/// Every vector this kernel supports has its own handler bound in the table
/// before it is loaded: none is left at its architecture default.
pub proof fn supported_vectors_are_bound(h: Handler)
    ensures
        standard_table()[h.vector_spec() as int] is Some,
        standard_table()[h.vector_spec() as int]->Some_0.handler == h,
{
}

/// The double fault is bound to the reserved interrupt-stack-table slot, and
/// no other vector switches to that slot.
pub proof fn double_fault_owns_reserved_stack()
    ensures
        standard_table()[Handler::DoubleFault.vector_spec() as int] == Some(
            HandlerBinding {
                handler: Handler::DoubleFault,
                stack_index: Some(DOUBLE_FAULT_IST_INDEX),
            },
        ),
        forall|v: int|
            0 <= v < VECTOR_COUNT && v != Handler::DoubleFault.vector_spec() && (
            #[trigger] standard_table()[v]) is Some ==> standard_table()[v]->Some_0.stack_index
                != Some(DOUBLE_FAULT_IST_INDEX),
{
}

} // verus!
