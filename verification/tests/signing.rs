use nb_mcp::session::ProcessOutput;
use nb_mcp::signing::{
    resolve_git_root, resolve_git_root_args, run_git_config, run_git_config_args,
    signing_settings,
};

fn strings(items: &[&str]) -> Vec<String> {
    items.iter().map(|s| s.to_string()).collect()
}

fn output(success: bool, stdout: &str, stderr: &str) -> ProcessOutput {
    ProcessOutput { success, stdout: stdout.to_string(), stderr: stderr.to_string() }
}

#[test]
fn git_root_arguments() {
    assert_eq!(
        resolve_git_root_args("/n/home"),
        strings(&["-C", "/n/home", "rev-parse", "--show-toplevel"])
    );
}

#[test]
fn git_root_is_the_trimmed_output() {
    assert_eq!(resolve_git_root(&output(true, "/n/home\n", "")), Ok("/n/home".to_string()));
}

#[test]
fn git_root_failures() {
    assert_eq!(
        resolve_git_root(&output(false, "ignored", " fatal: not a git repository\n")),
        Err("git rev-parse failed for notebook repository: fatal: not a git repository"
            .to_string())
    );
    assert_eq!(
        resolve_git_root(&output(false, "on stdout\n", " ")),
        Err("git rev-parse failed for notebook repository: on stdout".to_string())
    );
    assert_eq!(
        resolve_git_root(&output(true, "\n", "")),
        Err("git rev-parse returned an empty notebook repository path".to_string())
    );
}

#[test]
fn signing_is_switched_off_for_commits_and_tags() {
    assert_eq!(signing_settings(), vec![("commit.gpgsign", "false"), ("tag.gpgsign", "false")]);
    assert_eq!(
        run_git_config_args("/n/home", "commit.gpgsign", "false"),
        strings(&["-C", "/n/home", "config", "commit.gpgsign", "false"])
    );
}

#[test]
fn git_config_outcome() {
    assert_eq!(run_git_config("tag.gpgsign", &output(true, "", "noise")), Ok(()));
    assert_eq!(
        run_git_config("tag.gpgsign", &output(false, "", "error: could not lock\n")),
        Err("git config failed for tag.gpgsign in notebook repository: error: could not lock"
            .to_string())
    );
    assert_eq!(
        run_git_config("commit.gpgsign", &output(false, " out ", "")),
        Err("git config failed for commit.gpgsign in notebook repository: out".to_string())
    );
}
