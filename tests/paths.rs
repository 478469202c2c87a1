use agent_session::path_env::{build_claude_path_env, claude_path_dirs, join_path_dirs, split_path_var};

const STANDARD: &str = "/opt/homebrew/bin:/usr/local/bin:/usr/bin:/bin:/usr/sbin:/sbin";

fn no_dups(v: &[String]) -> bool {
    v.iter().enumerate().all(|(i, a)| v.iter().skip(i + 1).all(|b| a != b))
}

#[test]
fn path_starts_with_input_and_adds_home_dirs_once() {
    let dirs = claude_path_dirs("/usr/bin", Some("/home/u"), &Vec::new(), None);
    assert_eq!(dirs[0], "/usr/bin");
    assert!(no_dups(&dirs));
    assert_eq!(dirs.iter().filter(|d| *d == "/home/u/.local/bin").count(), 1);
    let env = build_claude_path_env("/usr/bin", Some("/home/u"), &Vec::new(), None).unwrap();
    assert_eq!(
        env,
        "/usr/bin:/opt/homebrew/bin:/usr/local/bin:/bin:/usr/sbin:/sbin:/home/u/.local/bin:/home/u/.local/share/mise/shims:/home/u/.cargo/bin:/home/u/.bun/bin"
    );
}

#[test]
fn local_bin_already_in_path_is_not_repeated() {
    let dirs = claude_path_dirs("/usr/bin:/home/u/.local/bin", Some("/home/u"), &Vec::new(), None);
    assert_eq!(dirs[0], "/usr/bin");
    assert_eq!(dirs[1], "/home/u/.local/bin");
    assert!(no_dups(&dirs));
    assert_eq!(dirs.iter().filter(|d| *d == "/home/u/.local/bin").count(), 1);
}

#[test]
fn empty_path_without_home_gives_standard_dirs() {
    assert_eq!(build_claude_path_env("", None, &Vec::new(), None).unwrap(), STANDARD);
}

#[test]
fn node_bins_and_binary_parent_are_appended() {
    let nodes = vec!["/home/u/.nvm/versions/node/v20/bin".to_string()];
    let env = build_claude_path_env("/x", Some("/home/u"), &nodes, Some("/opt/tools/agent")).unwrap();
    assert!(env.starts_with("/x:/opt/homebrew/bin"));
    assert!(env.ends_with(":/home/u/.bun/bin:/home/u/.nvm/versions/node/v20/bin:/opt/tools"));
}

#[test]
fn node_bins_ignored_without_home() {
    let nodes = vec!["/n/bin".to_string()];
    assert_eq!(build_claude_path_env("", None, &nodes, None).unwrap(), STANDARD);
}

#[test]
fn blank_binary_adds_no_parent() {
    assert_eq!(build_claude_path_env("", None, &Vec::new(), Some("   ")).unwrap(), STANDARD);
    assert_eq!(
        build_claude_path_env("", None, &Vec::new(), Some("/usr/bin/agent")).unwrap(),
        STANDARD
    );
}

#[test]
fn split_drops_empty_entries() {
    assert_eq!(split_path_var("::/a::/b:"), vec!["/a".to_string(), "/b".to_string()]);
    assert!(split_path_var("").is_empty());
    assert_eq!(split_path_var("/only"), vec!["/only".to_string()]);
}

#[test]
fn input_duplicates_are_kept() {
    let dirs = claude_path_dirs("/a:/a", None, &Vec::new(), None);
    assert_eq!(dirs[0], "/a");
    assert_eq!(dirs[1], "/a");
    assert_eq!(dirs.len(), 8);
}

#[test]
fn join_uses_colons() {
    assert_eq!(join_path_dirs(&vec!["a".to_string(), "b".to_string(), "c".to_string()]), "a:b:c");
    assert_eq!(join_path_dirs(&Vec::new()), "");
}

#[test]
fn bare_binary_name_adds_its_empty_parent() {
    let dirs = claude_path_dirs("/x", None, &Vec::new(), Some("agent"));
    assert_eq!(dirs.last().unwrap(), "");
    assert_eq!(dirs.len(), 8);
    assert_eq!(
        build_claude_path_env("", None, &Vec::new(), Some("agent")).unwrap(),
        format!("{}:", STANDARD)
    );
}
