use std::cell::Cell;

use tlenek_traps::qemu::QemuExitCode;
use tlenek_traps::test_framework::{test_runner, Testable};

struct Counted<'a> {
    runs: &'a Cell<u32>,
}

impl Testable for Counted<'_> {
    fn run(&self) {
        self.runs.set(self.runs.get() + 1);
    }
}

#[test]
fn runner_runs_every_test_and_succeeds() {
    let runs = Cell::new(0);
    let tests = [Counted { runs: &runs }, Counted { runs: &runs }, Counted { runs: &runs }];
    assert_eq!(test_runner(&tests), QemuExitCode::Success);
    assert_eq!(runs.get(), 3);
}

#[test]
fn runner_with_no_tests_succeeds() {
    let tests: [Counted; 0] = [];
    assert_eq!(test_runner(&tests), QemuExitCode::Success);
}

#[test]
fn exit_codes() {
    assert_eq!(QemuExitCode::Success.code(), 0x10);
    assert_eq!(QemuExitCode::Failure.code(), 0x11);
}
