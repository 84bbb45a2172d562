//! Configuration of the server and how the command line sets it.

use crate::text::{opt_text, str_eq, texts};
use vstd::prelude::*;
use vstd::string::*;

verus! {

/// Command-line configuration of the server.
#[derive(Debug, Clone, PartialEq, Eq)]
pub struct Config {
    /// Default notebook; the command line overrides the environment.
    pub notebook: Option<String>,
    /// Whether commit and tag signing is switched off in the notebook's
    /// repository.
    pub commit_signing_disabled: bool,
    /// Whether a missing notebook is created.
    pub create_notebook: bool,
}

/// The model of a [`Config`].
pub struct ConfigView {
    pub notebook: Option<Seq<char>>,
    pub commit_signing_disabled: bool,
    pub create_notebook: bool,
}

impl View for Config {
    type V = ConfigView;

    open spec fn view(&self) -> ConfigView {
        ConfigView {
            notebook: opt_text(self.notebook),
            commit_signing_disabled: self.commit_signing_disabled,
            create_notebook: self.create_notebook,
        }
    }
}

/// The configuration of a server that was started without options: no
/// default notebook, signing untouched, missing notebooks created.
pub open spec fn default_config() -> ConfigView {
    ConfigView { notebook: None, commit_signing_disabled: false, create_notebook: true }
}

impl Default for Config {
    fn default() -> (config: Config)
        ensures
            config@ == default_config(),
    {
        Config { notebook: None, commit_signing_disabled: false, create_notebook: true }
    }
}

/// What the command line asks for.
#[derive(Debug, Clone, PartialEq, Eq)]
pub enum CliAction {
    /// Serve, with this configuration.
    Run(Config),
    /// Print the version and leave.
    Version,
    /// Print the usage and leave.
    Help,
}

/// The model of a [`CliAction`].
pub enum CliActionView {
    Run(ConfigView),
    Version,
    Help,
}

impl View for CliAction {
    type V = CliActionView;

    open spec fn view(&self) -> CliActionView {
        match self {
            CliAction::Run(config) => CliActionView::Run(config@),
            CliAction::Version => CliActionView::Version,
            CliAction::Help => CliActionView::Help,
        }
    }
}

/// What the arguments from place `i` on ask for, given what the arguments
/// before it have configured.
///
/// `--notebook` and `-n` take the next argument as their value, whatever it
/// looks like; at the very end they clear the default notebook. The first
/// `--version`, `--help` or `-h` that is not such a value decides. Unknown
/// arguments are passed over.
pub open spec fn parsed_from(args: Seq<Seq<char>>, i: int, config: ConfigView) -> CliActionView
    decreases args.len() - i,
{
    if i < 0 || i >= args.len() {
        CliActionView::Run(config)
    } else if args[i] == "--notebook"@ || args[i] == "-n"@ {
        if i + 1 < args.len() {
            parsed_from(args, i + 2, ConfigView { notebook: Some(args[i + 1]), ..config })
        } else {
            CliActionView::Run(ConfigView { notebook: None, ..config })
        }
    } else if args[i] == "--no-commit-signing"@ {
        parsed_from(args, i + 1, ConfigView { commit_signing_disabled: true, ..config })
    } else if args[i] == "--no-create-notebook"@ {
        parsed_from(args, i + 1, ConfigView { create_notebook: false, ..config })
    } else if args[i] == "--version"@ {
        CliActionView::Version
    } else if args[i] == "--help"@ || args[i] == "-h"@ {
        CliActionView::Help
    } else {
        parsed_from(args, i + 1, config)
    }
}

/// What the arguments of the program (without its name) ask for.
pub open spec fn parsed(args: Seq<Seq<char>>) -> CliActionView {
    parsed_from(args, 0, default_config())
}

/// Reads the arguments of the program, the program's name left out.
pub fn parse_args(args: &[String]) -> (action: CliAction)
    ensures
        action@ == parsed(texts(args@)),
{
    let mut config = Config::default();
    let mut i: usize = 0;
    while i < args.len()
        invariant
            i <= args.len(),
            parsed(texts(args@)) == parsed_from(texts(args@), i as int, config@),
        decreases args.len() - i,
    {
        let arg = args[i].as_str();
        assert(texts(args@)[i as int] == arg@);
        if str_eq(arg, "--notebook") || str_eq(arg, "-n") {
            if i + 1 < args.len() {
                assert(texts(args@)[i + 1] == args@[i + 1]@);
                config.notebook = Some(args[i + 1].clone());
                i += 2;
            } else {
                config.notebook = None;
                i += 1;
            }
        } else if str_eq(arg, "--no-commit-signing") {
            config.commit_signing_disabled = true;
            i += 1;
        } else if str_eq(arg, "--no-create-notebook") {
            config.create_notebook = false;
            i += 1;
        } else if str_eq(arg, "--version") {
            return CliAction::Version;
        } else if str_eq(arg, "--help") || str_eq(arg, "-h") {
            return CliAction::Help;
        } else {
            i += 1;
        }
    }
    CliAction::Run(config)
}

} // verus!
