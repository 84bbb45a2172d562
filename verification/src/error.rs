//! Failures of a call into the notebook tool.

use crate::text::join2;
use vstd::prelude::*;
use vstd::string::*;

verus! {

/// Why an operation on the notebook tool did not produce its output.
#[derive(Debug, Clone, PartialEq, Eq)]
pub enum NbError {
    /// The tool ran and exited unsuccessfully, or its output was unusable.
    /// Holds the best diagnostic text available.
    CommandFailed(String),
    /// The tool's executable could not be located.
    NotFound,
    /// The process could not be started or its pipes failed, for another
    /// reason than a missing executable. Holds the system's message.
    Io(String),
    /// No notebook name could be resolved from any source.
    Configuration,
}

/// The model of an [`NbError`].
pub enum NbErrorView {
    CommandFailed(Seq<char>),
    NotFound,
    Io(Seq<char>),
    Configuration,
}

impl View for NbError {
    type V = NbErrorView;

    open spec fn view(&self) -> NbErrorView {
        match self {
            NbError::CommandFailed(text) => NbErrorView::CommandFailed(text@),
            NbError::NotFound => NbErrorView::NotFound,
            NbError::Io(text) => NbErrorView::Io(text@),
            NbError::Configuration => NbErrorView::Configuration,
        }
    }
}

/// What is shown for a missing executable.
pub const NOT_FOUND_MESSAGE: &'static str =
    "nb not found in PATH; install via: brew install xwmx/taps/nb (macOS) or see https://github.com/xwmx/nb#installation";

/// What is shown when no notebook name can be resolved.
pub const NOT_CONFIGURED_MESSAGE: &'static str =
    "notebook not configured; set --notebook or NB_MCP_NOTEBOOK";

impl NbErrorView {
    /// The text shown to the caller for this failure.
    pub open spec fn message(self) -> Seq<char> {
        match self {
            NbErrorView::CommandFailed(text) => "nb command failed: "@ + text,
            NbErrorView::NotFound => NOT_FOUND_MESSAGE@,
            NbErrorView::Io(text) => "IO error: "@ + text,
            NbErrorView::Configuration => NOT_CONFIGURED_MESSAGE@,
        }
    }
}

impl NbError {
    /// The text shown to the caller for this failure.
    pub fn message(&self) -> (out: String)
        ensures
            out@ == self@.message(),
    {
        match self {
            NbError::CommandFailed(text) => join2("nb command failed: ", text.as_str()),
            NbError::NotFound => NOT_FOUND_MESSAGE.to_owned(),
            NbError::Io(text) => join2("IO error: ", text.as_str()),
            NbError::Configuration => NOT_CONFIGURED_MESSAGE.to_owned(),
        }
    }
}

/// The model of a result: the view of what it holds.
pub open spec fn result_view<T: View, E: View>(r: Result<T, E>) -> Result<T::V, E::V> {
    match r {
        Ok(value) => Ok(value@),
        Err(error) => Err(error@),
    }
}

} // verus!
