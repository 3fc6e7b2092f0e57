use kernel_bringup::status::{exit_qemu, Outcome, PortWrite, QemuExitCode, DEBUG_EXIT_PORT};

#[test]
fn success_is_written_as_0x10() {
    assert_eq!(QemuExitCode::Success.code(), 0x10);
    assert_eq!(exit_qemu(QemuExitCode::Success), PortWrite { port: 0xf4, value: 0x10 });
}

#[test]
fn failure_is_written_as_0x11() {
    assert_eq!(QemuExitCode::Failed.code(), 0x11);
    assert_eq!(exit_qemu(QemuExitCode::Failed), PortWrite { port: 0xf4, value: 0x11 });
}

#[test]
fn the_debug_exit_port_is_0xf4() {
    assert_eq!(DEBUG_EXIT_PORT, 0xf4);
    assert_eq!(exit_qemu(QemuExitCode::Success).port, DEBUG_EXIT_PORT);
    assert_eq!(exit_qemu(QemuExitCode::Failed).port, DEBUG_EXIT_PORT);
}

#[test]
fn each_outcome_has_its_own_status() {
    assert_eq!(Outcome::Passed.status(), QemuExitCode::Success);
    assert_eq!(Outcome::Failed.status(), QemuExitCode::Failed);
    assert_ne!(Outcome::Passed.status().code(), Outcome::Failed.status().code());
}

#[test]
fn the_outcome_is_read_back_from_the_status() {
    for outcome in [Outcome::Passed, Outcome::Failed] {
        assert_eq!(outcome.status().outcome(), outcome);
        let code = outcome.status().code();
        assert!(code == 0x10 || code == 0x11);
    }
    for status in [QemuExitCode::Success, QemuExitCode::Failed] {
        assert_eq!(status.outcome().status(), status);
    }
}
