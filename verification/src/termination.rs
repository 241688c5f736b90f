use vstd::prelude::*;

verus! {

/// What the framework's run loop reported back: it either ran the
/// application to completion or failed to start.
#[derive(Clone, Copy, Debug, PartialEq, Eq, Structural)]
pub enum RunStatus {
    Completed,
    StartupFailed,
}

/// The exit code owed for a run-loop outcome: zero exactly when the run
/// loop completed normally, one when it failed to start. A failure is
/// terminal, so the shell exits with this code and goes no further.
pub fn exit_code(status: &RunStatus) -> (code: i32)
    ensures
        code == 0 <==> *status is Completed,
        *status is StartupFailed ==> code == 1,
{
    match status {
        RunStatus::Completed => 0,
        RunStatus::StartupFailed => 1,
    }
}

/// The diagnostic line the shell prints before it exits on a startup
/// failure.
pub fn fatal_message() -> (m: &'static str)
    ensures
        m@ == "fatal: application failed to start"@,
{
    "fatal: application failed to start"
}

} // verus!
