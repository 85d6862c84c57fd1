//! The in-kernel test runner.
use vstd::prelude::*;

use crate::qemu::QemuExitCode;

verus! {

/// Something that can be run as a test: it panics when the test fails.
pub trait Testable {
    /// Runs the test.
    fn run(&self);
}

/// Runs every test in order and gives the exit code to report once all have
/// returned. A failing test panics, so the run never gets here.
pub fn test_runner<T: Testable>(tests: &[T]) -> (r: QemuExitCode)
    ensures
        r == QemuExitCode::Success,
{
    let mut i: usize = 0;
    while i < tests.len()
        invariant
            i <= tests@.len(),
        decreases tests@.len() - i,
    {
        tests[i].run();
        i += 1;
    }
    QemuExitCode::Success
}

} // verus!
