use vesta::provenance::{
    build_provenance_inputs, git_dirty_status_args, git_rerun_inputs, join_path, recorded_build_id,
    recorded_dirty,
};

#[test]
fn provenance_status_command_includes_untracked_files() {
    assert_eq!(git_dirty_status_args(), ["status", "--porcelain"]);
    assert!(!git_dirty_status_args().contains(&"--untracked-files=no"));
}

#[test]
fn provenance_reruns_for_source_and_build_input_changes() {
    assert!(build_provenance_inputs().contains(&"src"));
    assert!(build_provenance_inputs().contains(&"Cargo.toml"));
    assert!(build_provenance_inputs().contains(&"Cargo.lock"));
    assert!(build_provenance_inputs().contains(&"build.rs"));
    assert!(build_provenance_inputs().contains(&".cargo/config.toml"));
}

#[test]
fn provenance_watches_resolved_branch_and_worktree_metadata() {
    let inputs = git_rerun_inputs(
        "/repo/.git/worktrees/review",
        "/repo/.git",
        Some("refs/heads/profile-v2"),
    );
    assert!(inputs.contains(&String::from("/repo/.git/worktrees/review/HEAD")));
    assert!(inputs.contains(&String::from("/repo/.git/worktrees/review/index")));
    assert!(inputs.contains(&String::from("/repo/.git/packed-refs")));
    assert!(inputs.contains(&String::from("/repo/.git/refs/heads/profile-v2")));
}

#[test]
fn detached_head_watches_three_files() {
    let inputs = git_rerun_inputs("/repo/.git", "/repo/.git", None);
    assert_eq!(
        inputs,
        vec![
            String::from("/repo/.git/HEAD"),
            String::from("/repo/.git/index"),
            String::from("/repo/.git/packed-refs"),
        ]
    );
}

#[test]
fn joining_uses_one_separator_and_respects_absolute_paths() {
    assert_eq!(join_path("/repo/.git", "HEAD"), "/repo/.git/HEAD");
    assert_eq!(join_path("/repo/.git/", "HEAD"), "/repo/.git/HEAD");
    assert_eq!(join_path("", "HEAD"), "HEAD");
    assert_eq!(join_path("/repo", "/other"), "/other");
    for (base, component) in [
        ("/repo/.git", "refs/heads/main"),
        ("/repo/", "index"),
        ("", "x"),
        ("/a", "/b"),
        ("/a", ""),
    ] {
        let expected = std::path::Path::new(base).join(component);
        assert_eq!(join_path(base, component), expected.to_str().unwrap());
    }
}

#[test]
fn build_id_needs_all_sixteen_digits() {
    assert_eq!(recorded_build_id(Some("ee3729433e6a79f7")), "ee3729433e6a79f7");
    assert_eq!(recorded_build_id(Some("ee3729433e6a79f")), "");
    assert_eq!(recorded_build_id(None), "");
}

#[test]
fn any_status_output_marks_a_dirty_build() {
    assert_eq!(recorded_dirty(Some(b"?? src/new.rs")), 1);
    assert_eq!(recorded_dirty(Some(b"")), 0);
    assert_eq!(recorded_dirty(None), 0);
}
