//! Running the tool, as far as the library decides it: how the outcome of a
//! run is classified, and in which order the runs of one operation follow
//! each other.
//!
//! The caller owns the processes. It asks [`Session::start`] for the first
//! run, performs it with standard input closed and both output streams
//! captured, hands the [`ProcessOutcome`] to [`Session::step`], and repeats
//! until the step is [`Step::Done`].

use crate::client::{Invocation, InvocationView, NbClient, EMPTY_PATH_MESSAGE};
use crate::error::{result_view, NbError, NbErrorView};
use crate::output::{normalized, strip_ansi};
use crate::text::{is_blank, join3, texts, trimmed};
use vstd::prelude::*;
use vstd::string::*;

verus! {

/// What a process left behind when it ended.
#[derive(Debug, Clone, PartialEq, Eq)]
pub struct ProcessOutput {
    /// Whether the exit code was zero.
    pub success: bool,
    /// The captured standard output.
    pub stdout: String,
    /// The captured standard error.
    pub stderr: String,
}

/// How an attempt to run the tool ended.
#[derive(Debug, Clone, PartialEq, Eq)]
pub enum ProcessOutcome {
    /// The process could not be started. `not_found` says whether the
    /// system reported that the executable does not exist; `message` is the
    /// system's message.
    SpawnFailed { not_found: bool, message: String },
    /// The process was started, but waiting for it or reading its output
    /// failed. Holds the system's message.
    WaitFailed(String),
    /// The process ran to its end.
    Exited(ProcessOutput),
}

/// The text of a failed run: the error stream if it holds anything, else the
/// standard stream, where the tool sometimes reports its errors.
pub open spec fn failure_text(stderr: Seq<char>, stdout: Seq<char>) -> Seq<char> {
    if stderr.len() == 0 {
        stdout
    } else {
        stderr
    }
}

/// The result of a run: the normalized standard output of a successful one;
/// for an unsuccessful one a failure with the normalized failure text. A
/// process that could not be started because its executable is missing is
/// told apart from every other failure of the system.
pub open spec fn classified(outcome: ProcessOutcome) -> Result<Seq<char>, NbErrorView> {
    match outcome {
        ProcessOutcome::SpawnFailed { not_found, message } => if not_found {
            Err(NbErrorView::NotFound)
        } else {
            Err(NbErrorView::Io(message@))
        },
        ProcessOutcome::WaitFailed(message) => Err(NbErrorView::Io(message@)),
        ProcessOutcome::Exited(output) => if output.success {
            Ok(normalized(output.stdout@))
        } else {
            Err(NbErrorView::CommandFailed(normalized(failure_text(output.stderr@, output.stdout@))))
        },
    }
}

/// Classifies the outcome of one run of the tool. All text that comes back,
/// output or failure message, is normalized.
pub fn classify_outcome(outcome: &ProcessOutcome) -> (result: Result<String, NbError>)
    ensures
        result_view(result) == classified(*outcome),
{
    match outcome {
        ProcessOutcome::SpawnFailed { not_found, message } => {
            if *not_found {
                Err(NbError::NotFound)
            } else {
                Err(NbError::Io(message.clone()))
            }
        },
        ProcessOutcome::WaitFailed(message) => Err(NbError::Io(message.clone())),
        ProcessOutcome::Exited(output) => {
            if output.success {
                Ok(strip_ansi(output.stdout.as_str()))
            } else {
                let text = if output.stderr.as_str().is_empty() {
                    strip_ansi(output.stdout.as_str())
                } else {
                    strip_ansi(output.stderr.as_str())
                };
                Err(NbError::CommandFailed(text))
            }
        },
    }
}

/// The arguments that ask the tool for the path of a notebook.
pub open spec fn lookup_args(notebook: Seq<char>) -> Seq<Seq<char>> {
    seq!["notebooks"@, "show"@, notebook, "--path"@]
}

/// The arguments that make the tool create a notebook.
pub open spec fn create_args(notebook: Seq<char>) -> Seq<Seq<char>> {
    seq!["notebooks"@, "add"@, notebook]
}

/// What is reported for a missing notebook that may not be created.
pub open spec fn missing_notebook_message(notebook: Seq<char>) -> Seq<char> {
    "notebook not found; run `nb notebooks add "@ + notebook
        + "` or remove --no-create-notebook"@
}

/// What remains to be done of an operation while one run of the tool is
/// under way.
#[derive(Debug, Clone, PartialEq, Eq)]
pub enum Session {
    /// The path of the notebook is being looked up.
    Lookup { notebook: String, create: bool, args: Vec<String> },
    /// The notebook is being created.
    Create { args: Vec<String> },
    /// The command of the operation itself is running.
    Command,
}

/// The model of a [`Session`].
pub enum SessionView {
    Lookup { notebook: Seq<char>, create: bool, args: Seq<Seq<char>> },
    Create { args: Seq<Seq<char>> },
    Command,
}

impl View for Session {
    type V = SessionView;

    open spec fn view(&self) -> SessionView {
        match self {
            Session::Lookup { notebook, create, args } => SessionView::Lookup {
                notebook: notebook@,
                create: *create,
                args: texts(args@),
            },
            Session::Create { args } => SessionView::Create { args: texts(args@) },
            Session::Command => SessionView::Command,
        }
    }
}

impl SessionView {
    /// How many runs of the tool can still follow the one under way.
    pub open spec fn runs_left(self) -> nat {
        match self {
            SessionView::Lookup { .. } => 2,
            SessionView::Create { .. } => 1,
            SessionView::Command => 0,
        }
    }
}

/// What the caller does next.
#[derive(Debug, PartialEq, Eq)]
pub enum Step {
    /// Run the tool with these arguments, then hand the outcome to the
    /// session.
    Run(Session, Vec<String>),
    /// The operation is over, with this result.
    Done(Result<String, NbError>),
}

/// The model of a [`Step`].
pub enum StepView {
    Run(SessionView, Seq<Seq<char>>),
    Done(Result<Seq<char>, NbErrorView>),
}

impl View for Step {
    type V = StepView;

    open spec fn view(&self) -> StepView {
        match self {
            Step::Run(session, args) => StepView::Run(session@, texts(args@)),
            Step::Done(result) => StepView::Done(result_view(*result)),
        }
    }
}

/// The first step of an operation. Where it addresses a notebook, the
/// notebook is looked up first; else the command runs at once.
pub open spec fn started(create: bool, invocation: InvocationView) -> StepView {
    match invocation.notebook {
        Some(notebook) => StepView::Run(
            SessionView::Lookup { notebook, create, args: invocation.args },
            lookup_args(notebook),
        ),
        None => StepView::Run(SessionView::Command, invocation.args),
    }
}

/// The step that follows a run with the given result.
///
/// A lookup that prints a path shows that the notebook exists, and the
/// command runs. A lookup that succeeds and prints nothing is a failure; it
/// is never taken as a sign that the notebook is missing. A lookup that the
/// tool answered with a failure shows that the notebook is missing: it leads
/// to the creation of the notebook where that is allowed, else to a failure
/// that says how to create it. A lookup that did not run at all, because the
/// tool is missing or the system failed, says nothing of the notebook and
/// ends the operation with that failure. After a successful creation the
/// command runs; a failed one ends the operation with its failure. The
/// result of the command is the result of the operation.
pub open spec fn stepped(session: SessionView, result: Result<Seq<char>, NbErrorView>)
    -> StepView {
    match session {
        SessionView::Lookup { notebook, create, args } => match result {
            Ok(path) => if trimmed(path).len() == 0 {
                StepView::Done(Err(NbErrorView::CommandFailed(EMPTY_PATH_MESSAGE@)))
            } else {
                StepView::Run(SessionView::Command, args)
            },
            Err(NbErrorView::CommandFailed(_)) => if create {
                StepView::Run(SessionView::Create { args }, create_args(notebook))
            } else {
                StepView::Done(
                    Err(NbErrorView::CommandFailed(missing_notebook_message(notebook))),
                )
            },
            Err(e) => StepView::Done(Err(e)),
        },
        SessionView::Create { args } => match result {
            Ok(_) => StepView::Run(SessionView::Command, args),
            Err(e) => StepView::Done(Err(e)),
        },
        SessionView::Command => StepView::Done(result),
    }
}

impl Session {
    /// Begins to carry out `invocation` on behalf of `client`.
    pub fn start(client: &NbClient, invocation: Invocation) -> (step: Step)
        ensures
            step@ == started(client.creates_notebooks(), invocation@),
    {
        let Invocation { notebook, args } = invocation;
        match notebook {
            Some(notebook) => {
                let mut lookup: Vec<String> = Vec::new();
                lookup.push("notebooks".to_owned());
                lookup.push("show".to_owned());
                lookup.push(notebook.clone());
                lookup.push("--path".to_owned());
                assert(texts(lookup@) =~= lookup_args(notebook@));
                Step::Run(
                    Session::Lookup { notebook, create: client.create_notebook(), args },
                    lookup,
                )
            },
            None => Step::Run(Session::Command, args),
        }
    }

    /// Takes the outcome of the run that was under way and says what comes
    /// next.
    pub fn step(self, outcome: &ProcessOutcome) -> (next: Step)
        ensures
            next@ == stepped(self@, classified(*outcome)),
    {
        self.advance(classify_outcome(outcome))
    }

    /// Takes the classified result of the run that was under way and says
    /// what comes next.
    pub fn advance(self, result: Result<String, NbError>) -> (next: Step)
        ensures
            next@ == stepped(self@, result_view(result)),
    {
        match self {
            Session::Lookup { notebook, create, args } => match result {
                Ok(path) => {
                    if is_blank(path.as_str()) {
                        Step::Done(Err(NbError::CommandFailed(EMPTY_PATH_MESSAGE.to_owned())))
                    } else {
                        Step::Run(Session::Command, args)
                    }
                },
                Err(NbError::CommandFailed(_)) => {
                    if create {
                        let mut add: Vec<String> = Vec::new();
                        add.push("notebooks".to_owned());
                        add.push("add".to_owned());
                        add.push(notebook);
                        assert(texts(add@) =~= create_args(notebook@));
                        Step::Run(Session::Create { args }, add)
                    } else {
                        Step::Done(
                            Err(
                                NbError::CommandFailed(
                                    join3(
                                        "notebook not found; run `nb notebooks add ",
                                        notebook.as_str(),
                                        "` or remove --no-create-notebook",
                                    ),
                                ),
                            ),
                        )
                    }
                },
                Err(e) => Step::Done(Err(e)),
            },
            Session::Create { args } => match result {
                Ok(_) => Step::Run(Session::Command, args),
                Err(e) => Step::Done(Err(e)),
            },
            Session::Command => Step::Done(result),
        }
    }
}

/// The step that is reached from `step` when the runs that are asked for end
/// with `results`, in this order. What comes after the end is not looked
/// at.
pub open spec fn after(step: StepView, results: Seq<Result<Seq<char>, NbErrorView>>) -> StepView
    decreases results.len(),
{
    if results.len() == 0 {
        step
    } else {
        match step {
            StepView::Run(session, _) => after(stepped(session, results[0]), results.drop_first()),
            StepView::Done(_) => step,
        }
    }
}

/// Every operation is over after three runs of the tool at the latest,
/// however the runs end.
pub proof fn lemma_done_within_three_runs(
    create: bool,
    invocation: InvocationView,
    results: Seq<Result<Seq<char>, NbErrorView>>,
)
    requires
        results.len() >= 3,
    ensures
        after(started(create, invocation), results) is Done,
{
    let first = started(create, invocation);
    let rest1 = results.drop_first();
    let rest2 = rest1.drop_first();
    let rest3 = rest2.drop_first();
    reveal_with_fuel(after, 4);
    match first {
        StepView::Run(s0, _) => {
            let second = stepped(s0, results[0]);
            lemma_steps_run_down(s0, results[0]);
            match second {
                StepView::Run(s1, _) => {
                    let third = stepped(s1, rest1[0]);
                    lemma_steps_run_down(s1, rest1[0]);
                    match third {
                        StepView::Run(s2, _) => {
                            lemma_steps_run_down(s2, rest2[0]);
                            lemma_after_done(stepped(s2, rest2[0]), rest3);
                        },
                        StepView::Done(_) => {
                            lemma_after_done(third, rest2);
                        },
                    }
                },
                StepView::Done(_) => {
                    lemma_after_done(second, rest1);
                },
            }
        },
        StepView::Done(_) => {},
    }
}

/// An operation that is over stays over.
proof fn lemma_after_done(step: StepView, results: Seq<Result<Seq<char>, NbErrorView>>)
    requires
        step is Done,
    ensures
        after(step, results) == step,
{
}

/// Every step that asks for another run leaves fewer runs to follow: an
/// operation takes at most three runs of the tool.
pub proof fn lemma_steps_run_down(session: SessionView, result: Result<Seq<char>, NbErrorView>)
    ensures
        match stepped(session, result) {
            StepView::Run(next, _) => next.runs_left() < session.runs_left(),
            StepView::Done(_) => true,
        },
{
}

/// The command of an operation runs only once its notebook is known to
/// exist: after a lookup that printed a path, or after a successful
/// creation. A notebook is created only where creation is allowed, and only
/// after a lookup that the tool itself answered with a failure. No step
/// leads back to a lookup.
pub proof fn lemma_command_follows_ensure(
    session: SessionView,
    result: Result<Seq<char>, NbErrorView>,
)
    ensures
        match stepped(session, result) {
            StepView::Run(SessionView::Command, _) => match session {
                SessionView::Lookup { .. } => result is Ok && trimmed(result->Ok_0).len() > 0,
                SessionView::Create { .. } => result is Ok,
                SessionView::Command => false,
            },
            StepView::Run(SessionView::Create { .. }, _) => match session {
                SessionView::Lookup { create, .. } => create && (result matches Err(
                    NbErrorView::CommandFailed(_),
                )),
                _ => false,
            },
            StepView::Run(SessionView::Lookup { .. }, _) => false,
            StepView::Done(_) => true,
        },
{
}

/// A run that the tool did not answer ends the operation at once, in every
/// state, with the failure as it is: a missing executable reaches the caller
/// as such, and so does any other failure of the system. Nothing is created
/// and no message about a missing notebook takes its place.
pub proof fn lemma_system_failure_is_final(session: SessionView, failure: NbErrorView)
    requires
        !(failure is CommandFailed),
    ensures
        stepped(session, Err(failure)) == StepView::Done(Err(failure)),
{
}

} // verus!
