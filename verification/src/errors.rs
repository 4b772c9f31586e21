//! The error taxonomy of the install/remove pipeline.

use vstd::prelude::*;

verus! {

/// A terminal failure of one invocation. A missing package is deliberately
/// not an error: it switches the pipeline to the suggestion path instead.
/// A failed primary build attempt is internal to the orchestrator (it
/// triggers the relaxed retry) and never surfaces here either.
#[derive(Clone, Copy, Debug, PartialEq, Eq, Structural)]
pub enum AurError {
    /// Transport or connection failure during a remote query.
    Network,
    /// The remote response body did not match the expected schema.
    Decode,
    /// The recipe repository clone exited non-zero.
    CloneFailure,
    /// The build failed even with signature verification relaxed.
    BuildFailure,
    /// The system package manager's removal exited non-zero.
    RemovalFailure,
}

impl AurError {
    /// The message shown to the user for this failure.
    pub fn message(&self) -> (m: String)
        ensures
            *self is Network ==> m@ == "Network request failed"@,
            *self is Decode ==> m@ == "Unexpected response from package repository"@,
            *self is CloneFailure ==> m@ == "Failed to clone repository"@,
            *self is BuildFailure ==> m@ == "Installation failed"@,
            *self is RemovalFailure ==> m@ == "Removal failed"@,
    {
        match self {
            AurError::Network => "Network request failed".to_owned(),
            AurError::Decode => "Unexpected response from package repository".to_owned(),
            AurError::CloneFailure => "Failed to clone repository".to_owned(),
            AurError::BuildFailure => "Installation failed".to_owned(),
            AurError::RemovalFailure => "Removal failed".to_owned(),
        }
    }
}

} // verus!
