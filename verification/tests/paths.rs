use nb_mcp::paths::{
    compute_log_path, detect_git_info, get_log_path, git_rev_parse, git_rev_parse_args,
    join_path, sanitize_name, xdg_state_home, GitLayout, GIT_COMMON_DIR, SHOW_TOPLEVEL,
};
use std::path::Path;

fn layout(worktree: Option<&str>, common: Option<&str>, parent: Option<&str>) -> GitLayout {
    GitLayout {
        worktree_name: worktree.map(String::from),
        common_dir_name: common.map(String::from),
        common_parent_name: parent.map(String::from),
    }
}

#[test]
fn test_sanitize_name() {
    assert_eq!(sanitize_name("my-project"), "my-project");
    assert_eq!(sanitize_name("my_project"), "my_project");
    assert_eq!(sanitize_name("my project"), "my-project");
    assert_eq!(sanitize_name("my/project"), "my-project");
}

#[test]
fn test_log_path_has_expected_structure() {
    let path = get_log_path(None, None, None);
    assert!(path.contains("nb-mcp"));
    assert!(Path::new(&path).extension().is_some_and(|e| e == "log"));
}

#[test]
fn sanitize_name_edge_cases() {
    assert_eq!(sanitize_name(""), "");
    assert_eq!(sanitize_name("a.b:c"), "a-b-c");
    assert_eq!(sanitize_name("Abc123"), "Abc123");
    assert_eq!(sanitize_name("caf\u{e9} \u{4e2d}\u{6587}"), "caf\u{e9}-\u{4e2d}\u{6587}");
    assert_eq!(sanitize_name("\t\n"), "--");
}

#[test]
fn sanitize_name_is_idempotent_and_keeps_length() {
    for name in ["my project", "a/b/c", "--__", "x y\tz", ""] {
        let once = sanitize_name(name);
        assert_eq!(sanitize_name(&once), once);
        assert_eq!(once.chars().count(), name.chars().count());
    }
}

#[test]
fn log_path_outside_a_repository() {
    assert_eq!(get_log_path(None, None, None), "/tmp/.local/state/nb-mcp/nb-mcp.log");
    assert_eq!(
        get_log_path(None, Some("/home/u"), None),
        "/home/u/.local/state/nb-mcp/nb-mcp.log"
    );
    assert_eq!(get_log_path(Some("/state"), Some("/home/u"), None), "/state/nb-mcp/nb-mcp.log");
}

#[test]
fn log_path_in_a_repository() {
    let plain = layout(Some("proj"), Some(".git"), Some("proj"));
    assert_eq!(
        compute_log_path(Some("/state"), None, Some(&plain)),
        "/state/nb-mcp/proj.log"
    );
    let linked = layout(Some("feature x"), Some(".git"), Some("proj"));
    assert_eq!(
        compute_log_path(Some("/state"), None, Some(&linked)),
        "/state/nb-mcp/proj--feature-x.log"
    );
    assert_eq!(
        get_log_path(Some("/state"), None, Some(&linked)),
        compute_log_path(Some("/state"), None, Some(&linked))
    );
}

#[test]
fn state_home_prefers_a_set_variable() {
    assert_eq!(xdg_state_home(Some("  /x/state \n"), Some("/home/u")), "/x/state");
    assert_eq!(xdg_state_home(Some("   "), Some("/home/u")), "/home/u/.local/state");
    assert_eq!(xdg_state_home(Some(""), None), "/tmp/.local/state");
    assert_eq!(xdg_state_home(None, Some("/home/u/")), "/home/u/.local/state");
    assert_eq!(xdg_state_home(None, Some("")), ".local/state");
}

#[test]
fn join_path_puts_one_separator() {
    assert_eq!(join_path("/a", "b"), "/a/b");
    assert_eq!(join_path("/a/", "b"), "/a/b");
    assert_eq!(join_path("", "b"), "b");
    assert_eq!(join_path("/", "b"), "/b");
}

#[test]
fn git_info_of_a_standard_layout() {
    let l = layout(Some("wt"), Some(".git"), Some("main repo"));
    assert_eq!(detect_git_info(Some(&l)), Some(("main-repo".to_string(), "wt".to_string())));
}

#[test]
fn git_info_falls_back_to_the_worktree() {
    let bare = layout(Some("wt"), Some("repo.git"), Some("srv"));
    assert_eq!(detect_git_info(Some(&bare)), Some(("wt".to_string(), "wt".to_string())));
}

#[test]
fn git_info_needs_both_names() {
    assert_eq!(detect_git_info(None), None);
    assert_eq!(detect_git_info(Some(&layout(None, Some(".git"), Some("p")))), None);
    assert_eq!(detect_git_info(Some(&layout(Some("w"), Some(".git"), None))), None);
    assert_eq!(detect_git_info(Some(&layout(None, None, None))), None);
}

#[test]
fn rev_parse_value_is_trimmed_output() {
    assert_eq!(git_rev_parse(true, Some("/repo\n")), Some("/repo".to_string()));
    assert_eq!(git_rev_parse(true, Some("  ../.git ")), Some("../.git".to_string()));
    assert_eq!(git_rev_parse(true, Some(" \n")), None);
    assert_eq!(git_rev_parse(true, Some("")), None);
    assert_eq!(git_rev_parse(false, Some("/repo\n")), None);
    assert_eq!(git_rev_parse(true, None), None);
}

#[test]
fn rev_parse_arguments() {
    assert_eq!(git_rev_parse_args(SHOW_TOPLEVEL), vec!["rev-parse", "--show-toplevel"]);
    assert_eq!(git_rev_parse_args(GIT_COMMON_DIR), vec!["rev-parse", "--git-common-dir"]);
}
