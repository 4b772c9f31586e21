//! The result of running one external command.
//!
//! The commands themselves run at the program's edge, inheriting the
//! terminal's output streams. The edge reports back one of three outcomes;
//! the two failure causes are kept apart for diagnostics, but every caller
//! treats them identically — retry policy lives in the orchestrator, not
//! here.

use vstd::prelude::*;

verus! {

/// How one external command ended.
#[derive(Clone, Copy, Debug, PartialEq, Eq, Structural)]
pub enum RunOutcome {
    /// The program ran and exited with status zero.
    Success,
    /// The program could not be launched at all (missing binary, denied
    /// permission).
    LaunchFailure,
    /// The program ran and exited with a non-zero status.
    ExitFailure,
}

/// Whether the command succeeded: the only distinction callers act on.
pub fn run_succeeded(outcome: RunOutcome) -> (ok: bool)
    ensures
        ok == (outcome is Success),
{
    match outcome {
        RunOutcome::Success => true,
        RunOutcome::LaunchFailure => false,
        RunOutcome::ExitFailure => false,
    }
}

} // verus!
