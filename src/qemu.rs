//! Exit codes reported to the emulator's debug-exit device.
use vstd::prelude::*;

verus! {

/// I/O port of the emulator's debug-exit device.
pub const ISA_DEBUG_EXIT_IOBASE: u16 = 0xF4;

/// How a run under the emulator ended.
#[derive(Debug, Clone, Copy, PartialEq, Eq, Structural, PartialOrd, Ord, Hash)]
pub enum QemuExitCode {
    Success,
    Failure,
}

impl QemuExitCode {
    /// The word written to the debug-exit port.
    pub open spec fn code_spec(self) -> u32 {
        match self {
            QemuExitCode::Success => 0x10,
            QemuExitCode::Failure => 0x11,
        }
    }

    /// The word written to the debug-exit port.
    pub fn code(self) -> (r: u32)
        ensures
            r == self.code_spec(),
    {
        match self {
            QemuExitCode::Success => 0x10,
            QemuExitCode::Failure => 0x11,
        }
    }
}

} // verus!
