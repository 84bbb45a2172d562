//! Output normalizer: removes terminal control sequences from captured
//! output and picks the stream that carries a failure message.

use crate::text::{is_blank, trimmed};
use regex::Regex;
use vstd::prelude::*;
use vstd::string::*;

verus! {

/// The pattern of a terminal control sequence: the escape character followed
/// by a single control byte, by a parameterized sequence that ends in a final
/// byte, or by a short designation sequence.
pub const ANSI_PATTERN: &'static str = r"\x1B(?:[@-Z\\-_]|\[[0-?]*[ -/]*[@-~]|[ -/]*[0-~])";

/// What `regex::Regex::is_match` answers for `haystack` once `pattern` is
/// compiled; `None` where `regex::Regex::new` rejects the pattern.
pub uninterp spec fn regex_is_match(pattern: Seq<char>, haystack: Seq<char>) -> Option<bool>;

/// What `regex::Regex::replace_all` makes of `haystack` once `pattern` is
/// compiled; `None` where `regex::Regex::new` rejects the pattern.
pub uninterp spec fn regex_replace_all(
    pattern: Seq<char>,
    haystack: Seq<char>,
    replacement: Seq<char>,
) -> Option<Seq<char>>;

/// Compiles `pattern` with `regex::Regex::new` and asks
/// `regex::Regex::is_match` whether it matches anywhere in `haystack`.
/// The answer depends on the two texts alone and is named by
/// [`regex_is_match`]; nothing more is claimed of it.
#[verifier::external_body]
fn pattern_is_match(pattern: &str, haystack: &str) -> (found: Option<bool>)
    ensures
        found == regex_is_match(pattern@, haystack@),
{
    match Regex::new(pattern) {
        Ok(re) => Some(re.is_match(haystack)),
        Err(_) => None,
    }
}

/// Compiles `pattern` with `regex::Regex::new` and lets
/// `regex::Regex::replace_all` replace every non-overlapping match in
/// `haystack` by `replacement`. The text that comes back depends on the three
/// texts alone and is named by [`regex_replace_all`]; nothing more is claimed
/// of it.
#[verifier::external_body]
fn pattern_replace_all(pattern: &str, haystack: &str, replacement: &str) -> (out: Option<String>)
    ensures
        match out {
            Some(text) => regex_replace_all(pattern@, haystack@, replacement@) == Some(text@),
            None => regex_replace_all(pattern@, haystack@, replacement@) is None,
        },
{
    match Regex::new(pattern) {
        Ok(re) => Some(re.replace_all(haystack, replacement).into_owned()),
        Err(_) => None,
    }
}

/// The character that introduces every control sequence.
pub const ESCAPE: char = '\u{1b}';

/// Whether the pattern matches somewhere in `text`, that is, whether `text`
/// holds at least one control sequence.
pub open spec fn has_control_sequence(text: Seq<char>) -> bool {
    regex_is_match(ANSI_PATTERN@, text) == Some(true)
}

/// `text` with every control sequence removed. A text without the escape
/// character, and a text in which the pattern finds nothing, is its own
/// normal form.
pub open spec fn normalized(text: Seq<char>) -> Seq<char> {
    if text.contains(ESCAPE) && has_control_sequence(text) {
        match regex_replace_all(ANSI_PATTERN@, text, ""@) {
            Some(clean) => clean,
            None => text,
        }
    } else {
        text
    }
}

/// Whether the escape character occurs in `text`.
pub fn contains_escape(text: &str) -> (found: bool)
    ensures
        found == text@.contains(ESCAPE),
{
    broadcast use vstd::string::group_string_axioms;

    for c in it: text.chars()
        invariant
            it.seq() == text@,
            forall|j: int| 0 <= j < it.index() ==> text@[j] != ESCAPE,
    {
        if c == ESCAPE {
            assert(text@[it.index() as int] == ESCAPE);
            return true;
        }
    }
    false
}

/// Whether `text` holds at least one control sequence.
pub fn contains_control_sequence(text: &str) -> (found: bool)
    ensures
        found == has_control_sequence(text@),
{
    match pattern_is_match(ANSI_PATTERN, text) {
        Some(found) => found,
        None => false,
    }
}

/// Whether `text` is free of control sequences, so that normalizing it
/// changes nothing. A text without the escape character is known to be
/// plain without a search.
pub fn is_plain(text: &str) -> (plain: bool)
    ensures
        plain == !(text@.contains(ESCAPE) && has_control_sequence(text@)),
        plain ==> normalized(text@) == text@,
{
    if !contains_escape(text) {
        proof {
            lemma_text_without_escape_unchanged(text@);
        }
        return true;
    }
    let plain = !contains_control_sequence(text);
    proof {
        if plain {
            lemma_plain_text_unchanged(text@);
        }
    }
    plain
}

/// Removes the terminal control sequences from `text` and leaves everything
/// else as it is.
pub fn strip_ansi(text: &str) -> (out: String)
    ensures
        out@ == normalized(text@),
{
    if is_plain(text) {
        return text.to_owned();
    }
    match pattern_replace_all(ANSI_PATTERN, text, "") {
        Some(clean) => clean,
        None => text.to_owned(),
    }
}

/// A text without the escape character is not altered.
pub proof fn lemma_text_without_escape_unchanged(text: Seq<char>)
    requires
        !text.contains(ESCAPE),
    ensures
        normalized(text) == text,
{
}

/// A text without control sequences is not altered.
/// [`contains_control_sequence`] tests the premise.
pub proof fn lemma_plain_text_unchanged(text: Seq<char>)
    requires
        !has_control_sequence(text),
    ensures
        normalized(text) == text,
{
}

/// Normalizing twice is normalizing once, whenever the first pass left no
/// control sequence behind. (Removing a sequence can join what stood on its
/// two sides into a new one, so the condition is needed.) [`is_plain`],
/// called on the text that the first pass gave, tests the premise.
pub proof fn lemma_normalize_idempotent(text: Seq<char>)
    requires
        !has_control_sequence(normalized(text)) || !normalized(text).contains(ESCAPE),
    ensures
        normalized(normalized(text)) == normalized(text),
{
    if has_control_sequence(normalized(text)) {
        lemma_text_without_escape_unchanged(normalized(text));
    } else {
        lemma_plain_text_unchanged(normalized(text));
    }
}

/// The stream that carries the message of a failed command: the error stream,
/// unless it is blank.
pub open spec fn selected_output(stderr: Seq<char>, stdout: Seq<char>) -> Seq<char> {
    if trimmed(stderr).len() == 0 {
        stdout
    } else {
        stderr
    }
}

/// Picks the error stream, or the standard stream where the error stream is
/// blank.
pub fn select_output<'a>(stderr: &'a str, stdout: &'a str) -> (chosen: &'a str)
    ensures
        chosen@ == selected_output(stderr@, stdout@),
{
    if is_blank(stderr) {
        stdout
    } else {
        stderr
    }
}

} // verus!
