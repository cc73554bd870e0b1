use codedoc::filter::{is_lockfile, ExclusionSet, WalkPolicy};

#[test]
fn every_fixed_lockfile_name_is_recognized() {
    assert!(is_lockfile("Cargo.lock"));
    assert!(is_lockfile("package-lock.json"));
    assert!(is_lockfile("yarn.lock"));
    assert!(is_lockfile("poetry.lock"));
    assert!(is_lockfile("Gemfile.lock"));
    assert!(is_lockfile("composer.lock"));
    assert!(is_lockfile("Pipfile.lock"));
    assert!(is_lockfile("go.sum"));
    assert!(is_lockfile("flake.lock"));
}

#[test]
fn near_misses_are_not_lockfiles() {
    assert!(!is_lockfile("cargo.lock"));
    assert!(!is_lockfile("Cargo.toml"));
    assert!(!is_lockfile("go.sum.bak"));
    assert!(!is_lockfile(""));
}

#[test]
fn lockfiles_are_excluded_regardless_of_other_state() {
    let excl = ExclusionSet::new(None);
    assert!(!excl.should_include(true, "Cargo.lock", None));
    let with_output = ExclusionSet::new(Some(String::from("/tmp/out.md")));
    assert!(!with_output.should_include(true, "yarn.lock", Some(&String::from("/r/yarn.lock"))));
}

#[test]
fn a_directory_named_like_a_lockfile_is_kept() {
    let excl = ExclusionSet::new(None);
    assert!(excl.should_include(false, "Cargo.lock", None));
}

#[test]
fn the_destination_artifact_is_excluded_by_identity() {
    let excl = ExclusionSet::new(Some(String::from("/r/out.md")));
    assert!(!excl.should_include(true, "out.md", Some(&String::from("/r/out.md"))));
    assert!(!excl.should_include(false, "out.md", Some(&String::from("/r/out.md"))));
}

#[test]
fn unresolved_identities_are_kept() {
    let excl = ExclusionSet::new(Some(String::from("/r/out.md")));
    assert!(excl.should_include(true, "other.md", None));
    assert!(excl.should_include(true, "out.md", Some(&String::from("/r/sub/out.md"))));
    let no_output = ExclusionSet::new(None);
    assert!(no_output.should_include(true, "out.md", Some(&String::from("/r/out.md"))));
}

#[test]
fn the_walk_policy_honors_every_ignore_source() {
    let p = WalkPolicy::new(false);
    assert!(p.filter_hidden);
    assert!(p.respect_parents);
    assert!(p.respect_git_ignore);
    assert!(p.respect_git_global);
    assert!(p.respect_git_exclude);
    assert!(p.respect_ignore_files);
    let q = WalkPolicy::new(true);
    assert!(!q.filter_hidden);
    assert!(q.respect_git_ignore);
}
