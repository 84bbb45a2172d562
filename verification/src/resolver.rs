//! Notebook resolver: which notebook an operation addresses.
//!
//! The sources of a name, highest priority first: the argument of the call,
//! the default configured on the command line, the default configured in the
//! environment, the name derived from the Git repository around the working
//! directory.

use crate::error::NbErrorView;
use crate::paths::{sanitize_name, sanitized, GitLayout};
use crate::text::opt_text;
use vstd::prelude::*;
use vstd::string::*;

verus! {

/// The first of two optional values that is present.
pub open spec fn or_else<T>(first: Option<T>, second: Option<T>) -> Option<T> {
    match first {
        Some(_) => first,
        None => second,
    }
}

/// The notebook name that a repository layout yields: the sanitized name of
/// the main checkout, in a standard layout where that name can be had. Any
/// other layout yields none; the name of the current directory is never used
/// in its place.
pub open spec fn derived_notebook(layout: Option<&GitLayout>) -> Option<Seq<char>> {
    match layout {
        Some(l) => match l.common_parent_name {
            Some(name) => if l.is_standard() {
                Some(sanitized(name@))
            } else {
                None
            },
            None => None,
        },
        None => None,
    }
}

/// Derives the default notebook name from the Git repository around the
/// working directory, if there is one.
pub fn derive_git_notebook_name(layout: Option<&GitLayout>) -> (name: Option<String>)
    ensures
        opt_text(name) == derived_notebook(layout),
{
    match layout {
        Some(l) => {
            if !l.standard() {
                return None;
            }
            match &l.common_parent_name {
                Some(name) => Some(sanitize_name(name.as_str())),
                None => None,
            }
        },
        None => None,
    }
}

/// The default that is configured at startup: the command line wins over the
/// environment.
pub open spec fn configured_default(cli: Option<Seq<char>>, env: Option<Seq<char>>) -> Option<
    Seq<char>,
> {
    or_else(cli, env)
}

/// The default notebook of a client: the configured default wins over the
/// derived name.
pub open spec fn default_notebook(
    cli: Option<Seq<char>>,
    env: Option<Seq<char>>,
    derived: Option<Seq<char>>,
) -> Option<Seq<char>> {
    or_else(configured_default(cli, env), derived)
}

/// The notebook of one call: the argument of the call wins over the default.
pub open spec fn resolved_notebook(explicit: Option<Seq<char>>, default: Option<Seq<char>>) -> Option<
    Seq<char>,
> {
    or_else(explicit, default)
}

/// The outcome of resolving the notebook of one call: the resolved name, or
/// a configuration error where no source has one.
pub open spec fn resolution(explicit: Option<Seq<char>>, default: Option<Seq<char>>) -> Result<
    Seq<char>,
    NbErrorView,
> {
    match resolved_notebook(explicit, default) {
        Some(name) => Ok(name),
        None => Err(NbErrorView::Configuration),
    }
}

/// Resolution follows a strict precedence. An explicit argument always wins;
/// without one the configured default wins, the command line before the
/// environment; without that the derived name is used; and a name is resolved
/// exactly when at least one source has one. Where none has, resolution
/// fails with a configuration error.
pub proof fn lemma_resolution_precedence(
    explicit: Option<Seq<char>>,
    cli: Option<Seq<char>>,
    env: Option<Seq<char>>,
    derived: Option<Seq<char>>,
)
    ensures
        explicit is Some ==> resolved_notebook(explicit, default_notebook(cli, env, derived))
            == explicit,
        explicit is None && configured_default(cli, env) is Some ==> resolved_notebook(
            explicit,
            default_notebook(cli, env, derived),
        ) == configured_default(cli, env),
        cli is Some ==> configured_default(cli, env) == cli,
        cli is None ==> configured_default(cli, env) == env,
        explicit is None && configured_default(cli, env) is None ==> resolved_notebook(
            explicit,
            default_notebook(cli, env, derived),
        ) == derived,
        resolved_notebook(explicit, default_notebook(cli, env, derived)) is None <==> explicit is None
            && cli is None && env is None && derived is None,
        resolution(explicit, default_notebook(cli, env, derived)) == Err::<Seq<char>, NbErrorView>(
            NbErrorView::Configuration,
        ) <==> explicit is None && cli is None && env is None && derived is None,
        resolution(explicit, default_notebook(cli, env, derived)) is Ok <==> explicit is Some
            || cli is Some || env is Some || derived is Some,
{
}

} // verus!
