use tlenek_traps::debug_event::DebugEventClass;
use tlenek_traps::vectors::{
    exception_response, init_idt, Continuation, ExceptionResponse, Handler, HandlerBinding,
    HandlerShape, DOUBLE_FAULT_IST_INDEX,
};

fn all() -> Vec<Handler> {
    vec![
    Handler::DivideError,
    Handler::Debug,
    Handler::NonMaskableInterrupt,
    Handler::Breakpoint,
    Handler::Overflow,
    Handler::BoundRangeExceeded,
    Handler::InvalidOpcode,
    Handler::DeviceNotAvailable,
    Handler::DoubleFault,
    Handler::InvalidTss,
    Handler::SegmentNotPresent,
    Handler::StackSegmentFault,
    Handler::GeneralProtectionFault,
    Handler::PageFault,
    Handler::X87FloatingPoint,
    Handler::AlignmentCheck,
    Handler::MachineCheck,
    Handler::SimdFloatingPoint,
    Handler::Virtualization,
    Handler::CpProtection,
    Handler::HvInjection,
    Handler::VmmCommunication,
    Handler::Security,
    Handler::Timer,
    Handler::Keyboard,
    ]
}

#[test]
fn every_supported_vector_is_bound() {
    let table = init_idt();
    for h in all() {
        let b = table.binding(h.vector()).unwrap();
        assert_eq!(b.handler, h);
        assert_eq!(Handler::for_vector(h.vector()), Some(h));
    }
}

#[test]
fn architecture_vector_numbers() {
    assert_eq!(Handler::DivideError.vector(), 0);
    assert_eq!(Handler::Breakpoint.vector(), 3);
    assert_eq!(Handler::DoubleFault.vector(), 8);
    assert_eq!(Handler::PageFault.vector(), 14);
    assert_eq!(Handler::MachineCheck.vector(), 18);
    assert_eq!(Handler::Security.vector(), 30);
    assert_eq!(Handler::Timer.vector(), 32);
    assert_eq!(Handler::Keyboard.vector(), 33);
}

#[test]
fn unsupported_vectors_stay_unbound() {
    let table = init_idt();
    let bound: Vec<u8> = all().iter().map(|h| h.vector()).collect();
    let mut unbound = 0;
    for v in 0..=255u8 {
        if !bound.contains(&v) {
            assert_eq!(table.binding(v), None);
            unbound += 1;
        }
    }
    assert_eq!(unbound, 256 - 25);
}

#[test]
fn double_fault_runs_on_the_reserved_stack() {
    let table = init_idt();
    assert_eq!(
        table.binding(8),
        Some(HandlerBinding { handler: Handler::DoubleFault, stack_index: Some(DOUBLE_FAULT_IST_INDEX) })
    );
    for v in 0..=255u8 {
        if v != 8 {
            if let Some(b) = table.binding(v) {
                assert_eq!(b.stack_index, None);
            }
        }
    }
}

#[test]
fn handler_names() {
    assert_eq!(Handler::DivideError.name(), "DIVIDE ERROR");
    assert_eq!(Handler::Breakpoint.name(), "BREAKPOINT");
    assert_eq!(Handler::DoubleFault.name(), "DOUBLE FAULT");
    assert_eq!(Handler::StackSegmentFault.name(), "STACK-SEGMENT FAULT");
    assert_eq!(Handler::X87FloatingPoint.name(), "x87 FLOATING-POINT");
}

#[test]
fn handler_shapes() {
    assert_eq!(Handler::Breakpoint.shape(), HandlerShape::Trap);
    assert_eq!(Handler::DivideError.shape(), HandlerShape::Fault { error_code: false });
    assert_eq!(Handler::GeneralProtectionFault.shape(), HandlerShape::Fault { error_code: true });
    assert_eq!(Handler::DoubleFault.shape(), HandlerShape::Fatal { error_code: true });
    assert_eq!(Handler::MachineCheck.shape(), HandlerShape::Fatal { error_code: false });
    assert_eq!(Handler::PageFault.shape(), HandlerShape::PageFault);
    assert_eq!(Handler::Debug.shape(), HandlerShape::Debug);
}

#[test]
fn breakpoint_reports_and_resumes() {
    for debug_build in [false, true] {
        assert_eq!(
            exception_response(Handler::Breakpoint, debug_build, DebugEventClass::Unclassified),
            ExceptionResponse { report: true, continuation: Continuation::Resume }
        );
    }
}

#[test]
fn faults_report_in_debug_builds_only() {
    let r = exception_response(Handler::InvalidOpcode, true, DebugEventClass::Unclassified);
    assert_eq!(r, ExceptionResponse { report: true, continuation: Continuation::Resume });
    let r = exception_response(Handler::InvalidOpcode, false, DebugEventClass::Unclassified);
    assert_eq!(r, ExceptionResponse { report: false, continuation: Continuation::Resume });
}

#[test]
fn page_fault_halts() {
    let r = exception_response(Handler::PageFault, true, DebugEventClass::Unclassified);
    assert_eq!(r, ExceptionResponse { report: true, continuation: Continuation::Halt });
    let r = exception_response(Handler::PageFault, false, DebugEventClass::Unclassified);
    assert_eq!(r, ExceptionResponse { report: false, continuation: Continuation::Halt });
}

#[test]
fn double_fault_reports_and_stops() {
    for debug_build in [false, true] {
        let r = exception_response(Handler::DoubleFault, debug_build, DebugEventClass::Unclassified);
        assert_eq!(r, ExceptionResponse { report: true, continuation: Continuation::Panic });
        let r = exception_response(Handler::MachineCheck, debug_build, DebugEventClass::Unclassified);
        assert_eq!(r, ExceptionResponse { report: true, continuation: Continuation::Panic });
    }
}

#[test]
fn debug_exception_follows_its_class() {
    let r = exception_response(Handler::Debug, false, DebugEventClass::Trap);
    assert_eq!(r, ExceptionResponse { report: true, continuation: Continuation::Resume });
    let r = exception_response(Handler::Debug, false, DebugEventClass::Fault);
    assert_eq!(r, ExceptionResponse { report: false, continuation: Continuation::Resume });
    let r = exception_response(Handler::Debug, true, DebugEventClass::Fault);
    assert_eq!(r, ExceptionResponse { report: true, continuation: Continuation::Resume });
    let r = exception_response(Handler::Debug, true, DebugEventClass::Unclassified);
    assert_eq!(r, ExceptionResponse { report: false, continuation: Continuation::Resume });
}

#[test]
fn hardware_vectors_report_nothing() {
    let r = exception_response(Handler::Timer, true, DebugEventClass::Trap);
    assert_eq!(r, ExceptionResponse { report: false, continuation: Continuation::Resume });
}
