//! Provenance of a firmware build: what the build depends on and how its
//! source revision is recorded.

use vstd::prelude::*;
use vstd::string::*;

verus! {

/// Arguments of the Git command whose output tells a dirty work tree. They
/// cover untracked files: a new source module can affect the linked image and
/// must never be reported as a clean build.
#[must_use]
pub fn git_dirty_status_args() -> (args: [&'static str; 2])
    ensures
        args@[0]@ == "status"@,
        args@[1]@ == "--porcelain"@,
{
    ["status", "--porcelain"]
}

/// Paths whose change makes the build script run again.
#[must_use]
pub fn build_provenance_inputs() -> (inputs: [&'static str; 5])
    ensures
        inputs@[0]@ == "src"@,
        inputs@[1]@ == "Cargo.toml"@,
        inputs@[2]@ == "Cargo.lock"@,
        inputs@[3]@ == "build.rs"@,
        inputs@[4]@ == ".cargo/config.toml"@,
{
    ["src", "Cargo.toml", "Cargo.lock", "build.rs", ".cargo/config.toml"]
}

/// `component` seen from the directory `base`: an absolute component stands for
/// itself, any other is appended behind exactly one separator.
pub open spec fn joined(base: Seq<char>, component: Seq<char>) -> Seq<char> {
    if component.len() != 0 && component[0] == '/' {
        component
    } else if base.len() == 0 || base.last() == '/' {
        base + component
    } else {
        base + seq!['/'] + component
    }
}

/// Join a directory and a path relative to it.
#[must_use]
pub fn join_path(base: &str, component: &str) -> (path: String)
    ensures
        path@ == joined(base@, component@),
{
    if !component.is_empty() && component.get_char(0) == '/' {
        return String::from_str(component);
    }
    let mut path = String::from_str(base);
    let len: usize = base.unicode_len();
    if len != 0 && base.get_char(len - 1) != '/' {
        proof {
            reveal_strlit("/");
        }
        path.append("/");
        assert("/"@ =~= seq!['/']);
    }
    path.append(component);
    path
}

/// Git files that a commit advance changes: the worktree's HEAD and index, the
/// packed refs, and the resolved branch where HEAD names one.
#[must_use]
pub fn git_rerun_inputs(git_dir: &str, common_dir: &str, symbolic_head: Option<&str>) -> (inputs:
    Vec<String>)
    ensures
        inputs@.len() == if symbolic_head is Some {
            4int
        } else {
            3
        },
        inputs@[0]@ == joined(git_dir@, "HEAD"@),
        inputs@[1]@ == joined(git_dir@, "index"@),
        inputs@[2]@ == joined(common_dir@, "packed-refs"@),
        symbolic_head matches Some(reference) ==> inputs@[3]@ == joined(common_dir@, reference@),
{
    let mut inputs: Vec<String> = Vec::new();
    inputs.push(join_path(git_dir, "HEAD"));
    inputs.push(join_path(git_dir, "index"));
    inputs.push(join_path(common_dir, "packed-refs"));
    if let Some(reference) = symbolic_head {
        inputs.push(join_path(common_dir, reference));
    }
    inputs
}

/// The build ID to record: the abbreviated commit if it has the full sixteen
/// digits, nothing otherwise.
#[must_use]
pub fn recorded_build_id<'a>(abbreviated_commit: Option<&'a str>) -> (build_id: &'a str)
    ensures
        match abbreviated_commit {
            Some(commit) => build_id@ == if commit.spec_bytes().len() == 16 {
                commit@
            } else {
                ""@
            },
            None => build_id@ == ""@,
        },
{
    match abbreviated_commit {
        Some(commit) => if commit.as_bytes().len() == 16 {
            commit
        } else {
            ""
        },
        None => "",
    }
}

/// The dirty mark to record: one if the status command succeeded and printed
/// anything, zero otherwise.
#[must_use]
pub fn recorded_dirty(status_output: Option<&[u8]>) -> (dirty: u8)
    ensures
        dirty == match status_output {
            Some(output) => if output@.len() != 0 {
                1u8
            } else {
                0
            },
            None => 0,
        },
{
    match status_output {
        Some(output) => if output.len() != 0 {
            1
        } else {
            0
        },
        None => 0,
    }
}

} // verus!
