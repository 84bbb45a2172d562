//! Switching off commit and tag signing in the repository of a notebook:
//! the Git commands to run and how their outcomes are read.
//!
//! The caller runs the commands. It first resolves the root of the
//! repository that holds the notebook's path, then applies each of the
//! [`signing_settings`] there.

use crate::output::{select_output, selected_output};
use crate::session::ProcessOutput;
use crate::text::{join2, texts, trimmed};
use vstd::prelude::*;
use vstd::string::*;

verus! {

/// The arguments for Git that print the root of the repository holding
/// `path`.
pub open spec fn git_root_args(path: Seq<char>) -> Seq<Seq<char>> {
    seq!["-C"@, path, "rev-parse"@, "--show-toplevel"@]
}

/// The arguments for Git that set `key` to `value` in the repository at
/// `path`.
pub open spec fn git_config_args(path: Seq<char>, key: Seq<char>, value: Seq<char>) -> Seq<
    Seq<char>,
> {
    seq!["-C"@, path, "config"@, key, value]
}

/// The root that Git printed, trimmed; or why there is none.
pub open spec fn git_root_of(output: ProcessOutput) -> Result<Seq<char>, Seq<char>> {
    if !output.success {
        Err(
            "git rev-parse failed for notebook repository: "@ + trimmed(
                selected_output(output.stderr@, output.stdout@),
            ),
        )
    } else if trimmed(output.stdout@).len() == 0 {
        Err("git rev-parse returned an empty notebook repository path"@)
    } else {
        Ok(trimmed(output.stdout@))
    }
}

/// Why setting `key` failed, if it did.
pub open spec fn git_config_failure(key: Seq<char>, output: ProcessOutput) -> Option<Seq<char>> {
    if output.success {
        None
    } else {
        Some(
            "git config failed for "@ + key + " in notebook repository: "@ + trimmed(
                selected_output(output.stderr@, output.stdout@),
            ),
        )
    }
}

/// The model of a result whose value and error are both texts.
pub open spec fn text_result(r: Result<String, String>) -> Result<Seq<char>, Seq<char>> {
    match r {
        Ok(value) => Ok(value@),
        Err(message) => Err(message@),
    }
}

/// The arguments of the Git run that resolves the root of the repository
/// holding `path`.
pub fn resolve_git_root_args(path: &str) -> (args: Vec<String>)
    ensures
        texts(args@) == git_root_args(path@),
{
    let mut args: Vec<String> = Vec::new();
    args.push("-C".to_owned());
    args.push(path.to_owned());
    args.push("rev-parse".to_owned());
    args.push("--show-toplevel".to_owned());
    assert(texts(args@) =~= git_root_args(path@));
    args
}

/// Reads the outcome of the run that [`resolve_git_root_args`] describes.
pub fn resolve_git_root(output: &ProcessOutput) -> (root: Result<String, String>)
    ensures
        text_result(root) == git_root_of(*output),
{
    if !output.success {
        let message = select_output(output.stderr.as_str(), output.stdout.as_str());
        return Err(join2("git rev-parse failed for notebook repository: ", message.trim()));
    }
    let root = output.stdout.as_str().trim();
    if root.is_empty() {
        return Err("git rev-parse returned an empty notebook repository path".to_owned());
    }
    Ok(root.to_owned())
}

/// The settings that switch signing off: the key and the value of each, in
/// the order in which they are applied.
pub open spec fn signing_settings_spec() -> Seq<(Seq<char>, Seq<char>)> {
    seq![("commit.gpgsign"@, "false"@), ("tag.gpgsign"@, "false"@)]
}

/// The settings that switch signing off, in the order in which they are
/// applied.
pub fn signing_settings() -> (settings: Vec<(&'static str, &'static str)>)
    ensures
        settings@.len() == signing_settings_spec().len(),
        forall|i: int|
            0 <= i < settings@.len() ==> (#[trigger] settings@[i]).0@ == signing_settings_spec()[i].0
                && settings@[i].1@ == signing_settings_spec()[i].1,
{
    let mut settings: Vec<(&'static str, &'static str)> = Vec::new();
    settings.push(("commit.gpgsign", "false"));
    settings.push(("tag.gpgsign", "false"));
    settings
}

/// The arguments of the Git run that sets `key` to `value` in the
/// repository at `path`.
pub fn run_git_config_args(path: &str, key: &str, value: &str) -> (args: Vec<String>)
    ensures
        texts(args@) == git_config_args(path@, key@, value@),
{
    let mut args: Vec<String> = Vec::new();
    args.push("-C".to_owned());
    args.push(path.to_owned());
    args.push("config".to_owned());
    args.push(key.to_owned());
    args.push(value.to_owned());
    assert(texts(args@) =~= git_config_args(path@, key@, value@));
    args
}

/// Reads the outcome of the run that [`run_git_config_args`] describes for
/// `key`.
pub fn run_git_config(key: &str, output: &ProcessOutput) -> (done: Result<(), String>)
    ensures
        match done {
            Ok(_) => git_config_failure(key@, *output) is None,
            Err(message) => git_config_failure(key@, *output) == Some(message@),
        },
{
    if output.success {
        return Ok(());
    }
    let message = select_output(output.stderr.as_str(), output.stdout.as_str());
    let mut text = join2("git config failed for ", key);
    text.append(" in notebook repository: ");
    text.append(message.trim());
    Err(text)
}

} // verus!
