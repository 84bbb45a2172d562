//! Names and paths derived from the Git repository around the working
//! directory: the project and worktree names, and the log file that is named
//! after them.
//!
//! Paths are plain texts with `/` between their components. What Git and the
//! file system report is handed in by the caller as a [`GitLayout`].

use crate::text::{
    alphanumeric, ends_with_char, join2, join3, opt_str, opt_text, str_eq, texts, trimmed,
};
use vstd::prelude::*;
use vstd::string::*;

verus! {

/// Whether a character may stay in a sanitized name.
pub open spec fn is_name_char(c: char) -> bool {
    alphanumeric(c) || c == '-' || c == '_'
}

/// `name` with every character that is not alphanumeric, `-` or `_` replaced
/// by `-`.
pub open spec fn sanitized(name: Seq<char>) -> Seq<char> {
    name.map_values(
        |c: char|
            if is_name_char(c) {
                c
            } else {
                '-'
            },
    )
}

/// Makes a name fit for a file name or a notebook name: every character that
/// is not alphanumeric, `-` or `_` becomes `-`.
pub fn sanitize_name(name: &str) -> (out: String)
    ensures
        out@ == sanitized(name@),
{
    broadcast use vstd::string::group_string_axioms;

    let mut out = String::new();
    for c in it: name.chars()
        invariant
            it.seq() == name@,
            out@ == sanitized(name@.take(it.index() as int)),
    {
        if c.is_alphanumeric() || c == '-' || c == '_' {
            out.push(c);
        } else {
            out.push('-');
        }
        assert(name@.take(it.index() + 1) == name@.take(it.index() as int).push(c));
        assert(out@ == sanitized(name@.take(it.index() + 1)));
    }
    assert(name@.take(name@.len() as int) == name@);
    out
}

/// A sanitized name has the length of the name and holds allowed characters
/// only.
pub proof fn lemma_sanitized_is_clean(name: Seq<char>)
    ensures
        sanitized(name).len() == name.len(),
        forall|i: int| 0 <= i < name.len() ==> is_name_char(#[trigger] sanitized(name)[i]),
{
}

/// Sanitizing a sanitized name changes nothing.
pub proof fn lemma_sanitize_idempotent(name: Seq<char>)
    ensures
        sanitized(sanitized(name)) == sanitized(name),
{
    lemma_sanitized_is_clean(name);
    assert(sanitized(sanitized(name)) =~= sanitized(name));
}

/// A name made of allowed characters only is not altered.
pub proof fn lemma_clean_name_unchanged(name: Seq<char>)
    requires
        forall|i: int| 0 <= i < name.len() ==> is_name_char(#[trigger] name[i]),
    ensures
        sanitized(name) == name,
{
    assert(sanitized(name) =~= name);
}

/// What `git rev-parse` and the file system tell about the repository around
/// the working directory. Each name is the final component of a path, absent
/// where the path has none or where it is not valid Unicode.
#[derive(Debug, Clone, PartialEq, Eq)]
pub struct GitLayout {
    /// Final component of the top-level directory of the current worktree.
    pub worktree_name: Option<String>,
    /// Final component of the canonical common control directory.
    pub common_dir_name: Option<String>,
    /// Final component of the directory that holds the common control
    /// directory.
    pub common_parent_name: Option<String>,
}

/// The name of Git's control directory in a standard layout.
pub const GIT_DIR: &'static str = ".git";

impl GitLayout {
    /// Whether the common control directory is a `.git` directory, so that
    /// the directory holding it is the main checkout.
    pub open spec fn is_standard(&self) -> bool {
        opt_text(self.common_dir_name) == Some(GIT_DIR@)
    }

    /// Decides [`GitLayout::is_standard`].
    pub fn standard(&self) -> (yes: bool)
        ensures
            yes == self.is_standard(),
    {
        match &self.common_dir_name {
            Some(name) => str_eq(name.as_str(), GIT_DIR),
            None => false,
        }
    }

    /// The project and worktree names of this layout, sanitized. In a
    /// standard layout the project is named after the main checkout; in any
    /// other (a bare repository, say) after the current worktree.
    pub open spec fn names(&self) -> Option<(Seq<char>, Seq<char>)> {
        let project = if self.is_standard() {
            self.common_parent_name
        } else {
            self.worktree_name
        };
        match (project, self.worktree_name) {
            (Some(p), Some(w)) => Some((sanitized(p@), sanitized(w@))),
            _ => None,
        }
    }
}

/// The value that one run of `git rev-parse` reports: its trimmed output,
/// if the run succeeded, the output is valid Unicode (`stdout` is `None`
/// where it is not) and something is left after trimming.
pub open spec fn rev_parse_value(succeeded: bool, stdout: Option<Seq<char>>) -> Option<Seq<char>> {
    match stdout {
        Some(text) => if succeeded && trimmed(text).len() > 0 {
            Some(trimmed(text))
        } else {
            None
        },
        None => None,
    }
}

/// The flag that makes `git rev-parse` print the top-level directory of the
/// current worktree.
pub const SHOW_TOPLEVEL: &'static str = "--show-toplevel";

/// The flag that makes `git rev-parse` print the common control directory,
/// which linked worktrees share.
pub const GIT_COMMON_DIR: &'static str = "--git-common-dir";

/// The arguments for Git that ask one question of `git rev-parse`.
pub fn git_rev_parse_args(flag: &str) -> (args: Vec<String>)
    ensures
        texts(args@) == seq!["rev-parse"@, flag@],
{
    let mut args: Vec<String> = Vec::new();
    args.push("rev-parse".to_owned());
    args.push(flag.to_owned());
    assert(texts(args@) =~= seq!["rev-parse"@, flag@]);
    args
}

/// Reads the answer of one run of `git rev-parse`.
pub fn git_rev_parse(succeeded: bool, stdout: Option<&str>) -> (value: Option<String>)
    ensures
        opt_text(value) == rev_parse_value(succeeded, opt_str(stdout)),
{
    if !succeeded {
        return None;
    }
    match stdout {
        Some(text) => {
            let value = text.trim();
            if value.is_empty() {
                None
            } else {
                Some(value.to_owned())
            }
        },
        None => None,
    }
}

/// The project and worktree names of the repository around the working
/// directory, if there is one and both names can be had.
pub open spec fn layout_names(layout: Option<&GitLayout>) -> Option<(Seq<char>, Seq<char>)> {
    match layout {
        Some(l) => l.names(),
        None => None,
    }
}

/// The Git project name and the worktree name, sanitized; they are the same
/// outside a linked worktree. `None` where no repository was found or a
/// name cannot be had.
pub fn detect_git_info(layout: Option<&GitLayout>) -> (names: Option<(String, String)>)
    ensures
        match names {
            Some((project, worktree)) => layout_names(layout) == Some((project@, worktree@)),
            None => layout_names(layout) is None,
        },
{
    let layout = match layout {
        Some(l) => l,
        None => { return None; },
    };
    let project = if layout.standard() {
        &layout.common_parent_name
    } else {
        &layout.worktree_name
    };
    match (project, &layout.worktree_name) {
        (Some(p), Some(w)) => Some((sanitize_name(p.as_str()), sanitize_name(w.as_str()))),
        _ => None,
    }
}

/// `base` and `child` as one path: a `/` is put between them unless `base`
/// is empty or ends in one already.
pub open spec fn joined(base: Seq<char>, child: Seq<char>) -> Seq<char> {
    if base.len() == 0 || base.last() == '/' {
        base + child
    } else {
        base + "/"@ + child
    }
}

/// Appends the relative path `child` to the directory `base`.
pub fn join_path(base: &str, child: &str) -> (path: String)
    ensures
        path@ == joined(base@, child@),
{
    if base.is_empty() || ends_with_char(base, '/') {
        join2(base, child)
    } else {
        join3(base, "/", child)
    }
}

/// The directory that stands in for the home directory where none is set.
pub const FALLBACK_HOME: &'static str = "/tmp";

/// The state directory below the home directory.
pub const STATE_BELOW_HOME: &'static str = ".local/state";

/// The directory of this program below the state directory.
pub const STATE_SUBDIR: &'static str = "nb-mcp";

/// The name of the log file outside a Git repository.
pub const DEFAULT_LOG_NAME: &'static str = "nb-mcp.log";

/// The XDG state directory: `$XDG_STATE_HOME` trimmed, unless it is unset or
/// blank; else `.local/state` below `$HOME`, or below `/tmp` where `$HOME`
/// is unset.
pub open spec fn state_home(xdg: Option<Seq<char>>, home: Option<Seq<char>>) -> Seq<char> {
    if xdg is Some && trimmed(xdg->0).len() > 0 {
        trimmed(xdg->0)
    } else {
        joined(
            match home {
                Some(dir) => dir,
                None => FALLBACK_HOME@,
            },
            STATE_BELOW_HOME@,
        )
    }
}

/// Resolves the XDG state directory from the values of `$XDG_STATE_HOME`
/// (`xdg`) and `$HOME`.
pub fn xdg_state_home(xdg: Option<&str>, home: Option<&str>) -> (dir: String)
    ensures
        dir@ == state_home(opt_str(xdg), opt_str(home)),
{
    if let Some(dir) = xdg {
        let dir = dir.trim();
        if !dir.is_empty() {
            return dir.to_owned();
        }
    }
    let home = match home {
        Some(dir) => dir,
        None => FALLBACK_HOME,
    };
    join_path(home, STATE_BELOW_HOME)
}

/// The name of the log file: `{project}.log`, or
/// `{project}--{worktree}.log` in a linked worktree, or `nb-mcp.log`
/// outside a repository.
pub open spec fn log_name(names: Option<(Seq<char>, Seq<char>)>) -> Seq<char> {
    match names {
        Some((project, worktree)) => if project == worktree {
            project + ".log"@
        } else {
            project + "--"@ + worktree + ".log"@
        },
        None => DEFAULT_LOG_NAME@,
    }
}

/// The path of the log file: the log name, in `nb-mcp`, in the state
/// directory.
pub open spec fn log_path(
    xdg: Option<Seq<char>>,
    home: Option<Seq<char>>,
    names: Option<(Seq<char>, Seq<char>)>,
) -> Seq<char> {
    joined(joined(state_home(xdg, home), STATE_SUBDIR@), log_name(names))
}

/// The log file lies directly in the directory `nb-mcp` of the state
/// directory, and its name ends in `.log`.
pub proof fn lemma_log_path_shape(
    xdg: Option<Seq<char>>,
    home: Option<Seq<char>>,
    names: Option<(Seq<char>, Seq<char>)>,
)
    ensures
        log_path(xdg, home, names) == joined(state_home(xdg, home), STATE_SUBDIR@) + "/"@
            + log_name(names),
        STATE_SUBDIR@.is_suffix_of(joined(state_home(xdg, home), STATE_SUBDIR@)),
        ".log"@.is_suffix_of(log_name(names)),
{
    reveal_strlit("nb-mcp");
    reveal_strlit("nb-mcp.log");
    reveal_strlit(".log");
    reveal_strlit("/");
    let dir = joined(state_home(xdg, home), STATE_SUBDIR@);
    assert(dir.len() > 0 && dir.last() == 'p');
    assert(dir.subrange(dir.len() - STATE_SUBDIR@.len(), dir.len() as int) =~= STATE_SUBDIR@);
    let name = log_name(names);
    assert(name.subrange(name.len() - 4, name.len() as int) =~= ".log"@);
}

/// Computes the path of the log file from the values of `$XDG_STATE_HOME`
/// (`xdg`) and `$HOME` and from the repository around the working directory.
pub fn compute_log_path(xdg: Option<&str>, home: Option<&str>, layout: Option<&GitLayout>) -> (path:
    String)
    ensures
        path@ == log_path(opt_str(xdg), opt_str(home), layout_names(layout)),
{
    let state_dir = join_path(xdg_state_home(xdg, home).as_str(), STATE_SUBDIR);
    let name = match detect_git_info(layout) {
        Some((project, worktree)) => {
            if str_eq(project.as_str(), worktree.as_str()) {
                join2(project.as_str(), ".log")
            } else {
                let mut name = join3(project.as_str(), "--", worktree.as_str());
                name.append(".log");
                name
            }
        },
        None => DEFAULT_LOG_NAME.to_owned(),
    };
    join_path(state_dir.as_str(), name.as_str())
}

/// The path of the log file of this server instance.
pub fn get_log_path(xdg: Option<&str>, home: Option<&str>, layout: Option<&GitLayout>) -> (path:
    String)
    ensures
        path@ == log_path(opt_str(xdg), opt_str(home), layout_names(layout)),
{
    compute_log_path(xdg, home, layout)
}

} // verus!
