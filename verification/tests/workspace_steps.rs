use voidpkg::workspace::{prepare_steps, workspace_path, FsStep};

#[test]
fn path_is_derived_from_home_and_base() {
    let p = workspace_path("/home/user", "yay-bin");
    assert_eq!(p, "/home/user/.void-builds/yay-bin");
}

#[test]
fn path_is_deterministic_per_base() {
    assert_eq!(workspace_path("/h", "pkg"), workspace_path("/h", "pkg"));
    assert_ne!(workspace_path("/h", "pkg-a"), workspace_path("/h", "pkg-b"));
}

#[test]
fn stale_workspace_is_removed_before_recreation() {
    let steps = prepare_steps(true);
    assert_eq!(steps, vec![FsStep::RemoveTree, FsStep::CreateDir]);
}

#[test]
fn fresh_workspace_is_only_created() {
    let steps = prepare_steps(false);
    assert_eq!(steps, vec![FsStep::CreateDir]);
}

#[test]
fn preparing_twice_plans_the_same_cleanup() {
    // After the first preparation the directory exists, so a second
    // preparation always removes it first, whatever was written into it.
    let first = prepare_steps(true);
    let second = prepare_steps(true);
    assert_eq!(first, second);
    assert_eq!(second.last(), Some(&FsStep::CreateDir));
}
