//! The build orchestrator: clone → primary build → conditional relaxed
//! retry, as a state machine over the results of the external commands.
//!
//! The commands themselves (the recipe clone and the build tool) run at the
//! program's edge; the edge asks this machine which action to perform next,
//! runs it, and reports back success or failure. A clone failure is
//! terminal. A failed primary build triggers exactly one retry with
//! signature verification relaxed; a success with the relaxed flag is
//! reported distinctly from a clean success, so the user knows verification
//! was bypassed. After a relaxed failure the job fails with remediation
//! guidance — there is no further escalation.

use vstd::prelude::*;

use crate::errors::AurError;

verus! {

/// Why a job failed.
#[derive(Clone, Copy, Debug, PartialEq, Eq, Structural)]
pub enum FailureReason {
    /// The recipe repository clone exited non-zero.
    CloneFailed,
    /// The build exited non-zero even with verification relaxed.
    BuildFailed,
}

/// Where a build job stands.
#[derive(Clone, Copy, Debug, PartialEq, Eq, Structural)]
pub enum Phase {
    /// Waiting for the recipe repository clone.
    Cloning,
    /// Waiting for the build with its default, signature-verifying flags.
    BuildingPrimary,
    /// Waiting for the one retry with signature verification relaxed.
    BuildingRelaxed,
    /// The package is installed; `verification_skipped` records whether the
    /// relaxed retry (rather than a clean primary build) produced it.
    Done { verification_skipped: bool },
    /// The job is over and nothing was installed.
    Failed { reason: FailureReason },
}

/// What the edge must run next for a job in the given phase.
#[derive(Clone, Copy, Debug, PartialEq, Eq, Structural)]
pub enum BuildAction {
    /// Clone the recipe repository into the prepared workspace.
    RunClone,
    /// Invoke the build tool in the workspace; with `relaxed` set, add the
    /// flag that skips signature verification of the build inputs.
    RunBuild { relaxed: bool },
}

/// The transition relation: the next phase, given the phase an external
/// command was run for and whether that command succeeded. Terminal phases
/// never move again.
pub open spec fn spec_advance(p: Phase, ok: bool) -> Phase {
    match p {
        Phase::Cloning => if ok {
            Phase::BuildingPrimary
        } else {
            Phase::Failed { reason: FailureReason::CloneFailed }
        },
        Phase::BuildingPrimary => if ok {
            Phase::Done { verification_skipped: false }
        } else {
            Phase::BuildingRelaxed
        },
        Phase::BuildingRelaxed => if ok {
            Phase::Done { verification_skipped: true }
        } else {
            Phase::Failed { reason: FailureReason::BuildFailed }
        },
        _ => p,
    }
}

/// The phase accepts no further command results.
pub open spec fn is_terminal(p: Phase) -> bool {
    p is Done || p is Failed
}

/// The action owed for a phase: each non-terminal phase waits for exactly
/// one command.
pub open spec fn spec_next_action(p: Phase) -> Option<BuildAction> {
    match p {
        Phase::Cloning => Some(BuildAction::RunClone),
        Phase::BuildingPrimary => Some(BuildAction::RunBuild { relaxed: false }),
        Phase::BuildingRelaxed => Some(BuildAction::RunBuild { relaxed: true }),
        _ => None,
    }
}

/// One build job: the resolved package, its recipe base, and the phase the
/// job has reached. Starts at [`Phase::Cloning`].
pub struct BuildJob {
    pub package_name: String,
    pub build_base: String,
    pub phase: Phase,
}

impl BuildJob {
    pub fn new(package_name: String, build_base: String) -> (job: BuildJob)
        ensures
            job.package_name == package_name,
            job.build_base == build_base,
            job.phase == Phase::Cloning,
    {
        BuildJob { package_name, build_base, phase: Phase::Cloning }
    }

    /// The command the edge must run next, or nothing for a finished job.
    pub fn next_action(&self) -> (a: Option<BuildAction>)
        ensures
            a == spec_next_action(self.phase),
    {
        match self.phase {
            Phase::Cloning => Some(BuildAction::RunClone),
            Phase::BuildingPrimary => Some(BuildAction::RunBuild { relaxed: false }),
            Phase::BuildingRelaxed => Some(BuildAction::RunBuild { relaxed: true }),
            _ => None,
        }
    }

    /// Feed back whether the command just run succeeded.
    pub fn on_result(&mut self, ok: bool)
        ensures
            final(self).phase == spec_advance(old(self).phase, ok),
            final(self).package_name == old(self).package_name,
            final(self).build_base == old(self).build_base,
    {
        self.phase = advance(self.phase, ok);
    }

    /// The terminal error of a failed job; `None` while the job still runs
    /// or when it succeeded.
    pub fn error(&self) -> (e: Option<AurError>)
        ensures
            e == phase_error(self.phase),
    {
        match self.phase {
            Phase::Failed { reason: FailureReason::CloneFailed } => Some(AurError::CloneFailure),
            Phase::Failed { reason: FailureReason::BuildFailed } => Some(AurError::BuildFailure),
            _ => None,
        }
    }
}

/// The error a failed phase surfaces.
pub open spec fn phase_error(p: Phase) -> Option<AurError> {
    match p {
        Phase::Failed { reason: FailureReason::CloneFailed } => Some(AurError::CloneFailure),
        Phase::Failed { reason: FailureReason::BuildFailed } => Some(AurError::BuildFailure),
        _ => None,
    }
}

/// Advances a phase by one command result.
pub fn advance(p: Phase, ok: bool) -> (n: Phase)
    ensures
        n == spec_advance(p, ok),
{
    match p {
        Phase::Cloning => if ok {
            Phase::BuildingPrimary
        } else {
            Phase::Failed { reason: FailureReason::CloneFailed }
        },
        Phase::BuildingPrimary => if ok {
            Phase::Done { verification_skipped: false }
        } else {
            Phase::BuildingRelaxed
        },
        Phase::BuildingRelaxed => if ok {
            Phase::Done { verification_skipped: true }
        } else {
            Phase::Failed { reason: FailureReason::BuildFailed }
        },
        _ => p,
    }
}

/// The phase reached from `p` after a whole run of command results.
pub open spec fn run_phases(p: Phase, results: Seq<bool>) -> Phase
    decreases results.len(),
{
    if results.len() == 0 {
        p
    } else {
        run_phases(spec_advance(p, results[0]), results.drop_first())
    }
}

/// A finished job never moves again, whatever further command results
/// arrive: there is no escalation path past `Done` or `Failed`.
pub proof fn lemma_terminal_is_final(p: Phase, results: Seq<bool>)
    requires
        is_terminal(p),
    ensures
        run_phases(p, results) == p,
    decreases results.len(),
{
    if results.len() > 0 {
        lemma_terminal_is_final(spec_advance(p, results[0]), results.drop_first());
    }
}

/// How often, along a run from `p`, the machine fires the relaxed retry —
/// that is, takes the step from a failed primary build into
/// [`Phase::BuildingRelaxed`].
pub open spec fn retry_count(p: Phase, results: Seq<bool>) -> nat
    decreases results.len(),
{
    if results.len() == 0 {
        0
    } else {
        (if p is BuildingPrimary && !results[0] {
            1nat
        } else {
            0nat
        }) + retry_count(spec_advance(p, results[0]), results.drop_first())
    }
}

/// Whether, along a run from `p`, a primary build attempt failed.
pub open spec fn primary_attempt_failed(p: Phase, results: Seq<bool>) -> bool
    decreases results.len(),
{
    if results.len() == 0 {
        false
    } else {
        (p is BuildingPrimary && !results[0]) || primary_attempt_failed(
            spec_advance(p, results[0]),
            results.drop_first(),
        )
    }
}

/// How a run's retries relate to its primary attempt, phase by phase: a
/// terminal phase and the relaxed phase never retry again, and from the
/// primary-build phase on, the retry fires exactly when the primary attempt
/// fails.
proof fn lemma_retry_count_cases(p: Phase, results: Seq<bool>)
    ensures
        is_terminal(p) ==> retry_count(p, results) == 0 && !primary_attempt_failed(p, results),
        p is BuildingRelaxed ==> retry_count(p, results) == 0 && !primary_attempt_failed(
            p,
            results,
        ),
        p is BuildingPrimary ==> retry_count(p, results) == (if primary_attempt_failed(
            p,
            results,
        ) {
            1nat
        } else {
            0nat
        }),
        p is Cloning ==> retry_count(p, results) == (if primary_attempt_failed(p, results) {
            1nat
        } else {
            0nat
        }),
    decreases results.len(),
{
    if results.len() > 0 {
        lemma_retry_count_cases(spec_advance(p, results[0]), results.drop_first());
    }
}

/// The relaxed retry fires iff the primary build attempt failed — never
/// after a successful primary build — and never more than once per job,
/// whatever results the external commands deliver.
pub proof fn lemma_retry_iff_primary_failure(results: Seq<bool>)
    ensures
        retry_count(Phase::Cloning, results) <= 1,
        retry_count(Phase::Cloning, results) == 1 <==> primary_attempt_failed(
            Phase::Cloning,
            results,
        ),
{
    lemma_retry_count_cases(Phase::Cloning, results);
}

} // verus!
