//! Top-level decisions of one invocation: what follows an exact lookup, and
//! how the delegated removal's exit status is reported.

use vstd::prelude::*;

use crate::errors::AurError;
use crate::record::PackageRecord;

verus! {

/// What the pipeline does once the exact-info lookup has answered.
pub enum ResolutionStep {
    /// The package exists: prepare the workspace and build this record.
    Install(PackageRecord),
    /// No record came back. Not an error: run the fuzzy search for the same
    /// query and show ranked suggestions instead.
    Suggest,
}

/// Decides the step after the exact-info lookup: a hit is built, a miss
/// switches to the suggestion path — the lookup is never repeated.
pub fn plan_after_lookup(info: Option<PackageRecord>) -> (step: ResolutionStep)
    ensures
        match info {
            Some(record) => step == ResolutionStep::Install(record),
            None => step is Suggest,
        },
{
    match info {
        Some(record) => ResolutionStep::Install(record),
        None => ResolutionStep::Suggest,
    }
}

/// Reports the system package manager's removal for what it was: success
/// exactly when the delegated command succeeded, and a non-zero exit —
/// an uninstalled package included — as a removal failure, never silently
/// ignored.
pub fn removal_result(exit_ok: bool) -> (r: Result<(), AurError>)
    ensures
        r is Ok <==> exit_ok,
        !exit_ok ==> r == Err::<(), AurError>(AurError::RemovalFailure),
{
    if exit_ok {
        Ok(())
    } else {
        Err(AurError::RemovalFailure)
    }
}

} // verus!
