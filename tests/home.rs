use agent_session::home::{
    claude_home_in, resolve_default_claude_home, resolve_home_dir, resolve_workspace_claude_home,
    WorkspaceEntry, WorkspaceKind,
};
use agent_session::text::{same_text, text_is_blank};

fn entry(kind: WorkspaceKind) -> WorkspaceEntry {
    WorkspaceEntry { path: "/work/tree".to_string(), claude_bin: None, kind }
}

#[test]
fn home_in_joins_dot_claude() {
    assert_eq!(claude_home_in("/p", ".agent"), "/p/.agent");
    assert_eq!(claude_home_in("/p/", ".agent"), "/p/.agent");
}

#[test]
fn worktree_prefers_parent_home() {
    let e = entry(WorkspaceKind::Worktree);
    assert_eq!(resolve_workspace_claude_home(&e, Some("/main"), ".agent", true, true), Some("/main/.agent".to_string()));
    assert_eq!(resolve_workspace_claude_home(&e, Some("/main"), ".agent", false, true), Some("/work/tree/.agent".to_string()));
    assert_eq!(resolve_workspace_claude_home(&e, None, ".agent", true, false), None);
}

#[test]
fn main_workspace_ignores_parent() {
    let e = entry(WorkspaceKind::Main);
    assert_eq!(resolve_workspace_claude_home(&e, Some("/main"), ".agent", true, true), Some("/work/tree/.agent".to_string()));
    assert_eq!(resolve_workspace_claude_home(&e, Some("/main"), ".agent", true, false), None);
}

#[test]
fn default_home_order() {
    assert_eq!(resolve_default_claude_home(Some(" /c "), Some("/x"), Some("/h"), ".agent"), Some("/c".to_string()));
    assert_eq!(resolve_default_claude_home(Some("  "), Some(" /x"), Some("/h"), ".agent"), Some("/x".to_string()));
    assert_eq!(resolve_default_claude_home(None, None, Some("/h"), ".agent"), Some("/h/.agent".to_string()));
    assert_eq!(resolve_default_claude_home(None, Some(""), None, ".agent"), None);
}

#[test]
fn home_dir_from_variables() {
    assert_eq!(resolve_home_dir(Some("/home/u "), Some("/p")), Some("/home/u ".to_string()));
    assert_eq!(resolve_home_dir(Some(" "), Some("C:\\Users\\u")), Some("C:\\Users\\u".to_string()));
    assert_eq!(resolve_home_dir(None, None), None);
}

#[test]
fn text_helpers() {
    assert!(same_text("abc", "abc"));
    assert!(!same_text("abc", "abd"));
    assert!(!same_text("ab", "abc"));
    assert!(text_is_blank(" \t\n"));
    assert!(!text_is_blank(" a "));
    assert!(WorkspaceKind::Worktree.is_worktree());
}
