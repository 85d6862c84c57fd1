//! The interrupt subsystem as one owned aggregate: the vector table, the
//! controller layout, the keyboard decoder and the tick counter, with the
//! responses of the two hardware interrupt handlers.
use vstd::prelude::*;

use crate::controller::{Acknowledgement, ChainedLayout, InterruptIndex, PIC_1_OFFSET, PIC_2_OFFSET};
use crate::keyboard::{decoded_key, echo, echo_spec, us104_set1_step, KeyOutput, ScancodeDecoder};
use crate::vectors::{init_idt, standard_table, VectorTable, VECTOR_COUNT};

verus! {

/// One step a hardware interrupt handler takes, in order.
#[derive(Debug, Clone, Copy, PartialEq, Eq, Structural)]
pub enum HardwareAction {
    /// Hand a character to the text output.
    Echo(char),
    /// Signal the controller chips that the interrupt on this vector has been
    /// serviced.
    EndOfInterrupt(u8),
}

/// `actions` ends with the end of interrupt for `vector` and signals no other
/// end of interrupt before it: the acknowledgement is sent exactly once, as
/// the last step.
pub open spec fn acknowledged_once_at_end(actions: Seq<HardwareAction>, vector: u8) -> bool {
    &&& actions.len() >= 1
    &&& actions.last() == HardwareAction::EndOfInterrupt(vector)
    &&& forall|i: int| 0 <= i < actions.len() - 1 ==> !(#[trigger] actions[i] is EndOfInterrupt)
}

/// The steps of the timer handler.
pub open spec fn timer_actions() -> Seq<HardwareAction> {
    seq![HardwareAction::EndOfInterrupt(InterruptIndex::Timer.vector_spec())]
}

/// The steps of the keyboard handler once the scancode byte has been read and
/// decoded: echo the character if there is one, then acknowledge.
pub open spec fn keyboard_actions(echoed: Option<char>) -> Seq<HardwareAction> {
    let ack = HardwareAction::EndOfInterrupt(InterruptIndex::Keyboard.vector_spec());
    if echoed is Some {
        seq![HardwareAction::Echo(echoed->Some_0), ack]
    } else {
        seq![ack]
    }
}

/// The keyboard handler's steps for a key that the decoder produced (or not).
pub fn keyboard_response(key: Option<KeyOutput>) -> (r: Vec<HardwareAction>)
    ensures
        r@ == keyboard_actions(echo_spec(key)),
{
    let mut actions: Vec<HardwareAction> = Vec::new();
    match echo(key) {
        Some(c) => actions.push(HardwareAction::Echo(c)),
        None => {},
    }
    actions.push(HardwareAction::EndOfInterrupt(InterruptIndex::Keyboard.vector()));
    proof {
        assert(actions@ =~= keyboard_actions(echo_spec(key)));
    }
    actions
}

proof fn echo_then_acknowledge(c: char)
    ensures
        keyboard_actions(Some(c)).len() == 2,
        keyboard_actions(Some(c))[0] == HardwareAction::Echo(c),
{
}

/// Every hardware interrupt handler acknowledges exactly once, as its last
/// step, after everything read from the device has been used.
pub proof fn hardware_handlers_acknowledge_once(echoed: Option<char>)
    ensures
        acknowledged_once_at_end(timer_actions(), InterruptIndex::Timer.vector_spec()),
        acknowledged_once_at_end(keyboard_actions(echoed), InterruptIndex::Keyboard.vector_spec()),
{
    if echoed is Some {
        echo_then_acknowledge(echoed->Some_0);
    } else {
        assert(keyboard_actions(echoed).len() == 1);
    }
}

/// A timer tick, delivered on the primary chip's first vector, is acknowledged
/// to the primary chip only.
pub proof fn timer_acknowledges_primary_only(layout: ChainedLayout)
    requires
        layout.primary_offset_spec() == PIC_1_OFFSET,
        layout.secondary_offset_spec() == PIC_2_OFFSET,
    ensures
        timer_actions() == seq![HardwareAction::EndOfInterrupt(PIC_1_OFFSET)],
        layout.acknowledgement_spec(PIC_1_OFFSET) == (Acknowledgement {
            primary: true,
            secondary: false,
        }),
{
}

/// The interrupt subsystem, built once at start-up and owned by the kernel.
pub struct InterruptSubsystem {
    vectors: VectorTable,
    controller: ChainedLayout,
    decoder: ScancodeDecoder,
    ticks: u64,
}

impl InterruptSubsystem {
    /// The vector table.
    pub closed spec fn vectors_spec(&self) -> Seq<Option<crate::vectors::HandlerBinding>> {
        self.vectors@
    }

    /// The controller layout.
    pub closed spec fn controller_spec(&self) -> ChainedLayout {
        self.controller
    }

    /// Every scancode byte handed to the keyboard decoder, in order.
    pub closed spec fn fed_spec(&self) -> Seq<u8> {
        self.decoder.fed_spec()
    }

    /// Timer ticks seen so far, modulo 2^64.
    pub closed spec fn ticks_spec(&self) -> u64 {
        self.ticks
    }

    /// The table is complete and the layout valid.
    pub open spec fn wf(&self) -> bool {
        &&& self.vectors_spec().len() == VECTOR_COUNT
        &&& self.controller_spec().wf()
    }

    /// Builds the subsystem: the standard vector table and controller layout,
    /// a fresh keyboard decoder and no ticks.
    pub fn new() -> (r: InterruptSubsystem)
        ensures
            r.wf(),
            r.fed_spec() == Seq::<u8>::empty(),
            r.vectors_spec() == standard_table(),
            r.controller_spec().primary_offset_spec() == PIC_1_OFFSET,
            r.controller_spec().secondary_offset_spec() == PIC_2_OFFSET,
            r.ticks_spec() == 0,
    {
        InterruptSubsystem {
            vectors: init_idt(),
            controller: ChainedLayout::standard(),
            decoder: ScancodeDecoder::new(),
            ticks: 0,
        }
    }

    /// The vector table to load.
    pub fn vectors(&self) -> (r: &VectorTable)
        ensures
            r@ == self.vectors_spec(),
    {
        &self.vectors
    }

    /// The controller layout to program.
    pub fn controller(&self) -> (r: ChainedLayout)
        ensures
            r == self.controller_spec(),
    {
        self.controller
    }

    /// Timer ticks seen so far, modulo 2^64.
    pub fn ticks(&self) -> (r: u64)
        ensures
            r == self.ticks_spec(),
    {
        self.ticks
    }

    /// The timer handler: counts the tick, then acknowledges it.
    pub fn timer_tick(&mut self) -> (r: Vec<HardwareAction>)
        requires
            old(self).wf(),
        ensures
            final(self).wf(),
            r@ == timer_actions(),
            final(self).ticks_spec() == (if old(self).ticks_spec() == u64::MAX {
                0
            } else {
                (old(self).ticks_spec() + 1) as u64
            }),
            final(self).vectors_spec() == old(self).vectors_spec(),
            final(self).controller_spec() == old(self).controller_spec(),
            final(self).fed_spec() == old(self).fed_spec(),
    {
        self.ticks = if self.ticks == u64::MAX {
            0
        } else {
            self.ticks + 1
        };
        let mut actions: Vec<HardwareAction> = Vec::new();
        actions.push(HardwareAction::EndOfInterrupt(InterruptIndex::Timer.vector()));
        proof {
            assert(actions@ =~= timer_actions());
        }
        actions
    }

    /// The keyboard handler, given the scancode byte it read from the
    /// keyboard controller: decodes it, echoes a character key, then
    /// acknowledges.
    pub fn keyboard_byte(&mut self, scancode: u8) -> (r: Vec<HardwareAction>)
        requires
            old(self).wf(),
        ensures
            final(self).wf(),
            final(self).fed_spec() == old(self).fed_spec().push(scancode),
            r@ == keyboard_actions(echo_spec(decoded_key(final(self).fed_spec()))),
            acknowledged_once_at_end(r@, InterruptIndex::Keyboard.vector_spec()),
            us104_set1_step(final(self).fed_spec()) is Unrecognised ==> r@ == seq![
                HardwareAction::EndOfInterrupt(InterruptIndex::Keyboard.vector_spec()),
            ],
            final(self).ticks_spec() == old(self).ticks_spec(),
            final(self).vectors_spec() == old(self).vectors_spec(),
            final(self).controller_spec() == old(self).controller_spec(),
    {
        let key = self.decoder.add_byte(scancode);
        let r = keyboard_response(key);
        proof {
            hardware_handlers_acknowledge_once(echo_spec(key));
        }
        r
    }
}

} // verus!
