use nb_mcp::paths::GitLayout;
use nb_mcp::resolver::derive_git_notebook_name;

fn layout(worktree: Option<&str>, common: Option<&str>, parent: Option<&str>) -> GitLayout {
    GitLayout {
        worktree_name: worktree.map(String::from),
        common_dir_name: common.map(String::from),
        common_parent_name: parent.map(String::from),
    }
}

#[test]
fn notebook_name_is_the_main_checkout() {
    let l = layout(Some("feature"), Some(".git"), Some("my project"));
    assert_eq!(derive_git_notebook_name(Some(&l)), Some("my-project".to_string()));
}

#[test]
fn notebook_name_never_falls_back_to_the_worktree() {
    let bare = layout(Some("wt"), Some("repo.git"), Some("srv"));
    assert_eq!(derive_git_notebook_name(Some(&bare)), None);
    assert_eq!(derive_git_notebook_name(Some(&layout(Some("wt"), None, Some("srv")))), None);
}

#[test]
fn notebook_name_needs_a_repository() {
    assert_eq!(derive_git_notebook_name(None), None);
    assert_eq!(derive_git_notebook_name(Some(&layout(Some("wt"), Some(".git"), None))), None);
}
