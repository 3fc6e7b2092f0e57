//! Outcomes of a test run and their encoding on the debug-exit channel.

use vstd::prelude::*;

verus! {

/// Address of the emulator's debug-exit port.
pub const DEBUG_EXIT_PORT: u16 = 0xf4;

/// How a test case, and with it the whole run, ended.
#[derive(Clone, Copy, Debug, PartialEq, Eq, Structural)]
pub enum Outcome {
    /// The case returned normally.
    Passed,
    /// The case raised a fault that no handler recovered from.
    Failed,
}

/// The status handed to the emulator when the machine is stopped.
#[derive(Clone, Copy, Debug, PartialEq, Eq, Structural)]
pub enum QemuExitCode {
    Success,
    Failed,
}

/// One write to an output port: the caller performs it.
#[derive(Clone, Copy, Debug, PartialEq, Eq, Structural)]
pub struct PortWrite {
    pub port: u16,
    pub value: u8,
}

impl Outcome {
    /// The status that an outcome leads to.
    pub open spec fn status_spec(self) -> QemuExitCode {
        match self {
            Outcome::Passed => QemuExitCode::Success,
            Outcome::Failed => QemuExitCode::Failed,
        }
    }

    /// The status that an outcome leads to.
    #[verifier::when_used_as_spec(status_spec)]
    pub fn status(self) -> (status: QemuExitCode)
        ensures
            status == self.status_spec(),
    {
        match self {
            Outcome::Passed => QemuExitCode::Success,
            Outcome::Failed => QemuExitCode::Failed,
        }
    }
}

impl QemuExitCode {
    /// The number that stands for this status on the debug-exit channel.
    pub open spec fn code_spec(self) -> u8 {
        match self {
            QemuExitCode::Success => 0x10,
            QemuExitCode::Failed => 0x11,
        }
    }

    /// The number that stands for this status on the debug-exit channel.
    #[verifier::when_used_as_spec(code_spec)]
    pub fn code(self) -> (value: u8)
        ensures
            value == self.code_spec(),
    {
        match self {
            QemuExitCode::Success => 0x10,
            QemuExitCode::Failed => 0x11,
        }
    }

    /// The outcome that this status reports.
    pub open spec fn outcome_spec(self) -> Outcome {
        match self {
            QemuExitCode::Success => Outcome::Passed,
            QemuExitCode::Failed => Outcome::Failed,
        }
    }

    /// The outcome that this status reports.
    #[verifier::when_used_as_spec(outcome_spec)]
    pub fn outcome(self) -> (outcome: Outcome)
        ensures
            outcome == self.outcome_spec(),
    {
        match self {
            QemuExitCode::Success => Outcome::Passed,
            QemuExitCode::Failed => Outcome::Failed,
        }
    }
}

/// The port write that stops the emulated machine with the given status.
///
/// The write is fire-and-forget: hardware without the debug-exit device
/// ignores it, so the caller parks the CPU afterwards.
pub fn exit_qemu(exit_code: QemuExitCode) -> (write: PortWrite)
    ensures
        write.port == DEBUG_EXIT_PORT,
        write.value == exit_code.code_spec(),
{
    PortWrite { port: DEBUG_EXIT_PORT, value: exit_code.code() }
}

/// Every outcome has a status, every status one of the two codes `0x10`
/// and `0x11`, and the outcome can be read back from the code alone: two
/// outcomes with the same code are the same outcome.
pub proof fn exit_encoding_is_total_and_injective(a: Outcome, b: Outcome)
    ensures
        a.status_spec().code_spec() == 0x10 || a.status_spec().code_spec() == 0x11,
        a.status_spec().code_spec() == 0x10 <==> a == Outcome::Passed,
        a.status_spec().code_spec() == 0x11 <==> a == Outcome::Failed,
        a.status_spec().outcome_spec() == a,
        a.status_spec().code_spec() == b.status_spec().code_spec() ==> a == b,
{
}

/// A status is determined by its code: two statuses with the same code are
/// the same status.
pub proof fn exit_code_is_injective(a: QemuExitCode, b: QemuExitCode)
    ensures
        a.code_spec() == 0x10 || a.code_spec() == 0x11,
        a.outcome_spec().status_spec() == a,
        a.code_spec() == b.code_spec() ==> a == b,
{
}

} // verus!
