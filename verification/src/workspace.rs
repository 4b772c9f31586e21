//! The per-package build workspace: a scratch directory derived from the
//! package's recipe base, prepared fresh before every build attempt.
//!
//! The directory path is derived deterministically from the recipe base
//! under a fixed root in the user's home directory — never from raw user
//! input. The preparation itself (removing a stale tree, recreating it
//! empty) is carried out at the program's edge; this module decides which
//! filesystem steps to take and models their effect, so that preparation is
//! provably idempotent: whatever was left behind, a prepared workspace is an
//! empty directory.

use vstd::prelude::*;
use vstd::string::StringExecFns;

verus! {

/// Relies on `dirs::home_dir`: returns the user's home directory, if the
/// platform reports one, converted to a plain string. The result depends on
/// the environment, so nothing is promised of it.
#[verifier::external_body]
fn query_home_dir() -> (r: Option<String>) {
    match dirs::home_dir() {
        Some(p) => p.into_os_string().into_string().ok(),
        None => None,
    }
}

/// The workspace path for a recipe base: `<home>/.void-builds/<base>`.
pub open spec fn workspace_path_spec(home: Seq<char>, build_base: Seq<char>) -> Seq<char> {
    home + "/.void-builds/"@ + build_base
}

/// Derives the workspace directory for `build_base` under `home`.
pub fn workspace_path(home: &str, build_base: &str) -> (p: String)
    ensures
        p@ == workspace_path_spec(home@, build_base@),
{
    let mut p = home.to_owned();
    p.append("/.void-builds/");
    p.append(build_base);
    p
}

/// Derives the workspace directory for `build_base` under the current
/// user's home directory; `None` when the platform reports no home. Any
/// returned path has the derived shape for some home prefix.
pub fn resolve_workspace_path(build_base: &str) -> (r: Option<String>)
    ensures
        r matches Some(p) ==> exists|home: Seq<char>|
            p@ == #[trigger] workspace_path_spec(home, build_base@),
{
    match query_home_dir() {
        Some(home) => {
            let p = workspace_path(home.as_str(), build_base);
            proof {
                assert(p@ == workspace_path_spec(home@, build_base@));
            }
            Some(p)
        },
        None => None,
    }
}

/// Under one home, the derived path determines the recipe base: two recipe
/// bases share a workspace only if they are the same. The path is derived
/// from the resolver-returned recipe base alone, never from raw user input.
pub proof fn lemma_workspace_path_unique(home: Seq<char>, base1: Seq<char>, base2: Seq<char>)
    ensures
        workspace_path_spec(home, base1) == workspace_path_spec(home, base2) ==> base1 == base2,
{
    reveal_strlit("/.void-builds/");
    if workspace_path_spec(home, base1) == workspace_path_spec(home, base2) {
        let prefix = home.len() + "/.void-builds/"@.len();
        let p1 = workspace_path_spec(home, base1);
        let p2 = workspace_path_spec(home, base2);
        assert(p1.len() == prefix + base1.len());
        assert(p2.len() == prefix + base2.len());
        assert forall|i: int| 0 <= i < base1.len() implies base1[i] == base2[i] by {
            assert(p1[prefix + i] == base1[i]);
            assert(p2[prefix + i] == base2[i]);
        }
        assert(base1 =~= base2);
    }
}

/// One filesystem step of workspace preparation.
#[derive(Clone, Copy, Debug, PartialEq, Eq, Structural)]
pub enum FsStep {
    /// Remove the directory and everything under it.
    RemoveTree,
    /// Create the directory (and its parents); an existing directory is
    /// left exactly as it is.
    CreateDir,
}

/// The modelled state of the workspace directory: absent, or present with
/// the set of file paths currently under it.
pub enum DirState {
    Missing,
    Present { files: Set<Seq<char>> },
}

/// An existing, empty workspace directory.
pub open spec fn empty_dir() -> DirState {
    DirState::Present { files: Set::empty() }
}

/// What one preparation step does to the directory.
pub open spec fn apply_step(s: DirState, step: FsStep) -> DirState {
    match step {
        FsStep::RemoveTree => DirState::Missing,
        FsStep::CreateDir => match s {
            DirState::Missing => empty_dir(),
            DirState::Present { files } => DirState::Present { files },
        },
    }
}

/// The directory state after a sequence of preparation steps.
pub open spec fn apply_steps(s: DirState, steps: Seq<FsStep>) -> DirState
    decreases steps.len(),
{
    if steps.len() == 0 {
        s
    } else {
        apply_steps(apply_step(s, steps[0]), steps.drop_first())
    }
}

/// A caller writing a file into an existing workspace; writes nowhere when
/// the directory is missing.
pub open spec fn write_file(s: DirState, path: Seq<char>) -> DirState {
    match s {
        DirState::Missing => DirState::Missing,
        DirState::Present { files } => DirState::Present { files: files.insert(path) },
    }
}

/// The workspace after a caller wrote a batch of files into it.
pub open spec fn write_files(s: DirState, paths: Seq<Seq<char>>) -> DirState
    decreases paths.len(),
{
    if paths.len() == 0 {
        s
    } else {
        write_files(write_file(s, paths[0]), paths.drop_first())
    }
}

/// The steps that prepare the workspace: a stale directory is removed
/// before the empty one is created, so no build attempt inherits a
/// half-built tree.
pub open spec fn prepare_steps_spec(dir_exists: bool) -> Seq<FsStep> {
    if dir_exists {
        seq![FsStep::RemoveTree, FsStep::CreateDir]
    } else {
        seq![FsStep::CreateDir]
    }
}

/// Decides the preparation steps from whether the workspace directory
/// already exists on disk.
pub fn prepare_steps(dir_exists: bool) -> (steps: Vec<FsStep>)
    ensures
        steps@ == prepare_steps_spec(dir_exists),
{
    let mut steps: Vec<FsStep> = Vec::new();
    if dir_exists {
        steps.push(FsStep::RemoveTree);
    }
    steps.push(FsStep::CreateDir);
    proof {
        assert(steps@ =~= prepare_steps_spec(dir_exists));
    }
    steps
}

/// Preparation always yields an empty directory, whatever state a prior
/// failed or aborted attempt left behind.
pub proof fn lemma_prepare_empty(s: DirState)
    ensures
        apply_steps(s, prepare_steps_spec(s is Present)) == empty_dir(),
{
    let steps = prepare_steps_spec(s is Present);
    let one = seq![FsStep::CreateDir];
    assert(one.drop_first() =~= Seq::<FsStep>::empty());
    assert(apply_steps(empty_dir(), Seq::<FsStep>::empty()) == empty_dir());
    assert(apply_steps(DirState::Missing, one) == apply_steps(
        empty_dir(),
        Seq::<FsStep>::empty(),
    ));
    if s is Present {
        assert(steps.drop_first() =~= one);
        assert(apply_steps(s, steps) == apply_steps(DirState::Missing, steps.drop_first()));
    } else {
        assert(steps =~= one);
    }
}

/// Preparation is idempotent: a second preparation for the same recipe base
/// yields an empty directory again, even if the first preparation's caller
/// wrote files into the workspace in between.
pub proof fn lemma_prepare_idempotent(s: DirState, written: Seq<Seq<char>>)
    ensures
        ({
            let first = apply_steps(s, prepare_steps_spec(s is Present));
            let used = write_files(first, written);
            let second = apply_steps(used, prepare_steps_spec(used is Present));
            first == empty_dir() && second == empty_dir()
        }),
{
    lemma_prepare_empty(s);
    let first = apply_steps(s, prepare_steps_spec(s is Present));
    let used = write_files(first, written);
    lemma_writes_stay_present(first, written);
    lemma_prepare_empty(used);
}

/// Writing files never removes the directory.
proof fn lemma_writes_stay_present(s: DirState, written: Seq<Seq<char>>)
    requires
        s is Present,
    ensures
        write_files(s, written) is Present,
    decreases written.len(),
{
    if written.len() > 0 {
        lemma_writes_stay_present(write_file(s, written[0]), written.drop_first());
    }
}

} // verus!
