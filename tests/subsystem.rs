use tlenek_traps::init;
use tlenek_traps::keyboard::KeyOutput;
use tlenek_traps::subsystem::{keyboard_response, HardwareAction, InterruptSubsystem};
use tlenek_traps::vectors::Handler;

#[test]
fn timer_tick_is_acknowledged_once_on_its_vector() {
    let mut s = init();
    assert_eq!(s.ticks(), 0);
    assert_eq!(s.timer_tick(), vec![HardwareAction::EndOfInterrupt(32)]);
    assert_eq!(s.ticks(), 1);
    let ack = s.controller().acknowledgement(32);
    assert!(ack.primary);
    assert!(!ack.secondary);
}

#[test]
fn keyboard_byte_echoes_then_acknowledges() {
    let mut s = InterruptSubsystem::new();
    assert_eq!(
        s.keyboard_byte(0x1E),
        vec![HardwareAction::Echo('a'), HardwareAction::EndOfInterrupt(33)]
    );
    assert_eq!(s.ticks(), 0);
}

#[test]
fn incomplete_sequence_is_still_acknowledged() {
    let mut s = init();
    assert_eq!(s.keyboard_byte(0xE0), vec![HardwareAction::EndOfInterrupt(33)]);
    assert_eq!(s.keyboard_byte(0x1D), vec![HardwareAction::EndOfInterrupt(33)]);
}

#[test]
fn keyboard_response_for_each_key() {
    assert_eq!(
        keyboard_response(Some(KeyOutput::Unicode('z'))),
        vec![HardwareAction::Echo('z'), HardwareAction::EndOfInterrupt(33)]
    );
    assert_eq!(keyboard_response(Some(KeyOutput::RawKey)), vec![HardwareAction::EndOfInterrupt(33)]);
    assert_eq!(keyboard_response(None), vec![HardwareAction::EndOfInterrupt(33)]);
}

#[test]
fn init_binds_the_full_table() {
    let s = init();
    assert_eq!(s.vectors().binding(8).unwrap().handler, Handler::DoubleFault);
    assert_eq!(s.vectors().binding(33).unwrap().handler, Handler::Keyboard);
    assert_eq!(s.controller().primary_offset(), 32);
}

#[test]
fn unrecognised_byte_gives_no_output_but_is_acknowledged() {
    let mut s = init();
    assert_eq!(s.keyboard_byte(0x00), vec![HardwareAction::EndOfInterrupt(33)]);
    assert_eq!(
        s.keyboard_byte(0x1E),
        vec![HardwareAction::Echo('a'), HardwareAction::EndOfInterrupt(33)]
    );
}
