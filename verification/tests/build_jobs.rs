use voidpkg::errors::AurError;
use voidpkg::orchestrator::{BuildAction, BuildJob, FailureReason, Phase};
use voidpkg::runner::{run_succeeded, RunOutcome};

fn job() -> BuildJob {
    BuildJob::new("pkg".to_string(), "pkg-base".to_string())
}

#[test]
fn clean_build_runs_one_build() {
    let mut j = job();
    let mut builds = 0;
    assert_eq!(j.next_action(), Some(BuildAction::RunClone));
    j.on_result(true);
    while let Some(a) = j.next_action() {
        match a {
            BuildAction::RunBuild { relaxed } => {
                assert!(!relaxed);
                builds += 1;
                j.on_result(true);
            }
            BuildAction::RunClone => panic!("clone may only happen first"),
        }
    }
    assert_eq!(builds, 1);
    assert_eq!(j.phase, Phase::Done { verification_skipped: false });
    assert_eq!(j.error(), None);
}

#[test]
fn failed_primary_retries_relaxed_exactly_once() {
    let mut j = job();
    j.on_result(true); // clone
    assert_eq!(j.next_action(), Some(BuildAction::RunBuild { relaxed: false }));
    j.on_result(false); // primary build fails
    assert_eq!(j.next_action(), Some(BuildAction::RunBuild { relaxed: true }));
    j.on_result(true); // relaxed build succeeds
    // Two build invocations happened, and the reported outcome is distinct
    // from a clean success: verification was skipped.
    assert_eq!(j.phase, Phase::Done { verification_skipped: true });
    assert_ne!(j.phase, Phase::Done { verification_skipped: false });
    assert_eq!(j.next_action(), None);
    assert_eq!(j.error(), None);
}

#[test]
fn successful_primary_never_retries() {
    let mut j = job();
    j.on_result(true); // clone
    j.on_result(true); // primary build succeeds
    assert_eq!(j.next_action(), None);
    j.on_result(false); // a stray result moves a finished job nowhere
    assert_eq!(j.phase, Phase::Done { verification_skipped: false });
}

#[test]
fn clone_failure_is_terminal() {
    let mut j = job();
    assert_eq!(j.next_action(), Some(BuildAction::RunClone));
    j.on_result(false);
    assert_eq!(j.phase, Phase::Failed { reason: FailureReason::CloneFailed });
    assert_eq!(j.next_action(), None);
    assert_eq!(j.error(), Some(AurError::CloneFailure));
}

#[test]
fn relaxed_failure_ends_the_job() {
    let mut j = job();
    j.on_result(true); // clone
    j.on_result(false); // primary build fails
    j.on_result(false); // relaxed build fails too
    assert_eq!(j.phase, Phase::Failed { reason: FailureReason::BuildFailed });
    assert_eq!(j.next_action(), None);
    assert_eq!(j.error(), Some(AurError::BuildFailure));
}

#[test]
fn job_keeps_its_identity() {
    let mut j = BuildJob::new("name".to_string(), "base".to_string());
    j.on_result(true);
    j.on_result(false);
    assert_eq!(j.package_name, "name");
    assert_eq!(j.build_base, "base");
}

#[test]
fn run_outcome_collapses_failures() {
    assert!(run_succeeded(RunOutcome::Success));
    assert!(!run_succeeded(RunOutcome::LaunchFailure));
    assert!(!run_succeeded(RunOutcome::ExitFailure));
}
