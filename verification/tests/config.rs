use nb_mcp::config::{parse_args, CliAction};
use nb_mcp::Config;

fn strings(items: &[&str]) -> Vec<String> {
    items.iter().map(|s| s.to_string()).collect()
}

fn config(notebook: Option<&str>, commit_signing_disabled: bool, create_notebook: bool) -> Config {
    Config { notebook: notebook.map(String::from), commit_signing_disabled, create_notebook }
}

#[test]
fn default_config_creates_notebooks() {
    assert_eq!(Config::default(), config(None, false, true));
}

#[test]
fn no_arguments_give_the_default() {
    assert_eq!(parse_args(&[]), CliAction::Run(Config::default()));
}

#[test]
fn options_set_the_configuration() {
    assert_eq!(
        parse_args(&strings(&["--notebook", "work"])),
        CliAction::Run(config(Some("work"), false, true))
    );
    assert_eq!(parse_args(&strings(&["-n", "work"])), CliAction::Run(config(Some("work"), false, true)));
    assert_eq!(
        parse_args(&strings(&["--no-commit-signing", "--no-create-notebook"])),
        CliAction::Run(config(None, true, false))
    );
    assert_eq!(
        parse_args(&strings(&["-n", "a", "--no-create-notebook", "-n", "b"])),
        CliAction::Run(config(Some("b"), false, false))
    );
}

#[test]
fn unknown_arguments_are_passed_over() {
    assert_eq!(
        parse_args(&strings(&["--verbose", "x", "-n", "work", "--future"])),
        CliAction::Run(config(Some("work"), false, true))
    );
}

#[test]
fn notebook_option_takes_whatever_follows() {
    assert_eq!(
        parse_args(&strings(&["--notebook", "--version"])),
        CliAction::Run(config(Some("--version"), false, true))
    );
    assert_eq!(
        parse_args(&strings(&["-n", "work", "--notebook"])),
        CliAction::Run(config(None, false, true))
    );
}

#[test]
fn version_and_help_decide_at_once() {
    assert_eq!(parse_args(&strings(&["--version"])), CliAction::Version);
    assert_eq!(parse_args(&strings(&["--help"])), CliAction::Help);
    assert_eq!(parse_args(&strings(&["-h", "--version"])), CliAction::Help);
    assert_eq!(parse_args(&strings(&["-n", "w", "--version", "--help"])), CliAction::Version);
}
