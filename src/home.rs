//! Where a workspace's agent configuration directory lives.
use vstd::prelude::*;
use crate::install::non_blank;
use crate::path_env::opt_text;
use crate::text::{text_is_blank, trim_text, trimmed_of};

verus! {

/// Whether a workspace is a main checkout or a worktree of another one.
#[derive(PartialEq, Eq, Structural, Clone, Copy, Debug)]
pub enum WorkspaceKind {
    Main,
    Worktree,
}

impl WorkspaceKind {
    pub fn is_worktree(&self) -> (r: bool)
        ensures
            r == (*self == WorkspaceKind::Worktree),
    {
        match self {
            WorkspaceKind::Main => false,
            WorkspaceKind::Worktree => true,
        }
    }
}

/// The static description of a workspace.
pub struct WorkspaceEntry {
    pub path: String,
    pub claude_bin: Option<String>,
    pub kind: WorkspaceKind,
}

/// What `PathBuf::join` gives for a base path and a relative name, as text.
pub uninterp spec fn path_joined(base: Seq<char>, name: Seq<char>) -> Seq<char>;

/// Relies on `std::path::PathBuf::join`: the base path extended by `name`.
/// The result depends on the two texts alone.
#[verifier::external_body]
fn join_path(base: &str, name: &str) -> (r: String)
    ensures
        r@ == path_joined(base@, name@),
{
    std::path::PathBuf::from(base).join(name).to_string_lossy().to_string()
}

/// The configuration directory named `dir_name` inside `dir`.
pub open spec fn home_in(dir: Seq<char>, dir_name: Seq<char>) -> Seq<char> {
    path_joined(dir, dir_name)
}

/// The configuration directory named `dir_name` inside `dir`.
pub fn claude_home_in(dir: &str, dir_name: &str) -> (r: String)
    ensures
        r@ == home_in(dir@, dir_name@),
{
    join_path(dir, dir_name)
}

/// The configuration directory (named `dir_name`) of a workspace. A worktree
/// uses its parent project's directory when that exists (`parent_home_is_dir`
/// tells whether `claude_home_in(parent_path, dir_name)` is a directory);
/// otherwise the workspace's own one is used when it exists
/// (`project_home_is_dir`).
pub fn resolve_workspace_claude_home(
    entry: &WorkspaceEntry,
    parent_path: Option<&str>,
    dir_name: &str,
    parent_home_is_dir: bool,
    project_home_is_dir: bool,
) -> (r: Option<String>)
    ensures
        match parent_path {
            Some(p) if entry.kind == WorkspaceKind::Worktree && parent_home_is_dir => r matches Some(
                h,
            ) && h@ == home_in(p@, dir_name@),
            _ => if project_home_is_dir {
                r matches Some(h) && h@ == home_in(entry.path@, dir_name@)
            } else {
                r is None
            },
        },
{
    if entry.kind.is_worktree() {
        match parent_path {
            Some(p) => {
                if parent_home_is_dir {
                    return Some(claude_home_in(p, dir_name));
                }
            },
            None => {},
        }
    }
    if project_home_is_dir {
        Some(claude_home_in(entry.path.as_str(), dir_name))
    } else {
        None
    }
}

fn trimmed_setting(v: Option<&str>) -> (r: Option<String>)
    ensures
        match non_blank(opt_text(v)) {
            Some(s) => r matches Some(t) && t@ == trimmed_of(s),
            None => r is None,
        },
{
    match v {
        Some(s) => {
            if text_is_blank(s) {
                None
            } else {
                Some(String::from_str(trim_text(s)))
            }
        },
        None => None,
    }
}

/// The default configuration directory: the trimmed value of the first
/// non-blank of the two override variables, else the directory `dir_name`
/// in the home directory, if that is known.
pub fn resolve_default_claude_home(
    claude_home_var: Option<&str>,
    codex_home_var: Option<&str>,
    home_dir: Option<&str>,
    dir_name: &str,
) -> (r: Option<String>)
    ensures
        match non_blank(opt_text(claude_home_var)) {
            Some(s) => r matches Some(t) && t@ == trimmed_of(s),
            None => match non_blank(opt_text(codex_home_var)) {
                Some(s) => r matches Some(t) && t@ == trimmed_of(s),
                None => match home_dir {
                    Some(h) => r matches Some(t) && t@ == home_in(h@, dir_name@),
                    None => r is None,
                },
            },
        },
{
    match trimmed_setting(claude_home_var) {
        Some(t) => return Some(t),
        None => {},
    }
    match trimmed_setting(codex_home_var) {
        Some(t) => return Some(t),
        None => {},
    }
    match home_dir {
        Some(h) => Some(claude_home_in(h, dir_name)),
        None => None,
    }
}

/// The home directory named by the environment: the first non-blank of the
/// two variables, untrimmed. `None` leaves the lookup to the platform.
pub fn resolve_home_dir(home_var: Option<&str>, user_profile_var: Option<&str>) -> (r: Option<String>)
    ensures
        match non_blank(opt_text(home_var)) {
            Some(s) => r matches Some(t) && t@ == s,
            None => match non_blank(opt_text(user_profile_var)) {
                Some(s) => r matches Some(t) && t@ == s,
                None => r is None,
            },
        },
{
    match home_var {
        Some(h) => {
            if !text_is_blank(h) {
                return Some(String::from_str(h));
            }
        },
        None => {},
    }
    match user_profile_var {
        Some(u) => {
            if !text_is_blank(u) {
                return Some(String::from_str(u));
            }
        },
        None => {},
    }
    None
}

} // verus!
