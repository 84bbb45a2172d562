//! Command dispatcher: from the name of a command and its arguments to the
//! run of the tool that answers it, and from the result of that run to the
//! response.
//!
//! A call passes through four states. *Received*: the command name is read
//! by [`parse_command`] and the shape of the arguments by [`parse_args`].
//! *Validated*: the caller has turned the arguments into [`CommandArgs`], and
//! [`dispatch_nb`] has checked what the command demands. *Executed*: the
//! invocation that `dispatch_nb` planned was carried out. *Responded*:
//! [`respond`] has wrapped the result. Nothing is kept between calls.

use crate::arguments::CommandArgs;
use crate::client::{
    add_args, bookmark_args, delete_args, do_args, edit_args, folders_args, import_args,
    list_args, mkdir_args, move_args, notebooks_args, planned, search_args, show_args,
    status_args, tasks_args, todo_args, undo_args, Invocation, InvocationView, NbClient,
};
use crate::command::Command;
use crate::error::{result_view, NbError, NbErrorView};
use crate::session::{started, Session, Step, StepView};
use crate::text::{as_deref, join2, opt_text, str_eq, strip_prefix, texts, trimmed};
use vstd::prelude::*;
use vstd::string::*;

verus! {

/// What is wrong with the arguments of a call.
#[derive(Debug, Clone, PartialEq, Eq)]
pub enum ArgumentFault {
    /// The command name is empty.
    EmptyCommand,
    /// The arguments came as a text that is no JSON document. Holds the
    /// parser's message.
    NotJson(String),
    /// The arguments do not have the shape that the command expects. Holds
    /// the message that says how.
    Mismatch(String),
    /// A note was to be deleted without confirmation. Holds the note's id.
    Unconfirmed(String),
    /// Help was asked for something that is neither the namespace nor a
    /// command. Holds the query.
    UnknownQuery(String),
}

/// A call that is rejected before the tool runs.
#[derive(Debug, Clone, PartialEq, Eq)]
pub enum DispatchError {
    /// Malformed, unparseable or incomplete arguments, or a destructive
    /// operation that was not confirmed.
    InvalidArguments(ArgumentFault),
    /// The command name matches no supported operation. Holds the name as
    /// it was given, trimmed.
    UnknownCommand(String),
}

/// The model of an [`ArgumentFault`].
pub enum ArgumentFaultView {
    EmptyCommand,
    NotJson(Seq<char>),
    Mismatch(Seq<char>),
    Unconfirmed(Seq<char>),
    UnknownQuery(Seq<char>),
}

/// The model of a [`DispatchError`].
pub enum DispatchErrorView {
    InvalidArguments(ArgumentFaultView),
    UnknownCommand(Seq<char>),
}

impl View for ArgumentFault {
    type V = ArgumentFaultView;

    open spec fn view(&self) -> ArgumentFaultView {
        match self {
            ArgumentFault::EmptyCommand => ArgumentFaultView::EmptyCommand,
            ArgumentFault::NotJson(text) => ArgumentFaultView::NotJson(text@),
            ArgumentFault::Mismatch(text) => ArgumentFaultView::Mismatch(text@),
            ArgumentFault::Unconfirmed(id) => ArgumentFaultView::Unconfirmed(id@),
            ArgumentFault::UnknownQuery(query) => ArgumentFaultView::UnknownQuery(query@),
        }
    }
}

impl View for DispatchError {
    type V = DispatchErrorView;

    open spec fn view(&self) -> DispatchErrorView {
        match self {
            DispatchError::InvalidArguments(fault) => DispatchErrorView::InvalidArguments(fault@),
            DispatchError::UnknownCommand(name) => DispatchErrorView::UnknownCommand(name@),
        }
    }
}

impl DispatchErrorView {
    /// The message of the rejection.
    pub open spec fn message(self) -> Seq<char> {
        match self {
            DispatchErrorView::InvalidArguments(fault) => match fault {
                ArgumentFaultView::EmptyCommand => "command must be non-empty"@,
                ArgumentFaultView::NotJson(_) => "invalid args for command"@,
                ArgumentFaultView::Mismatch(_) => "invalid args for command"@,
                ArgumentFaultView::Unconfirmed(_) => "delete requires confirm: true"@,
                ArgumentFaultView::UnknownQuery(_) => "unknown query; try 'nb' for command list"@,
            },
            DispatchErrorView::UnknownCommand(_) => "unknown subcommand"@,
        }
    }

    /// What is attached to the rejection: named texts that tell the caller
    /// what was wrong and what to do about it.
    pub open spec fn data(self) -> Seq<(Seq<char>, Seq<char>)> {
        match self {
            DispatchErrorView::InvalidArguments(fault) => match fault {
                ArgumentFaultView::EmptyCommand => seq![],
                ArgumentFaultView::NotJson(error) => seq![
                    ("error"@, "args was a string but did not parse as JSON: "@ + error),
                    ("hint"@, "Pass args as a JSON object."@),
                ],
                ArgumentFaultView::Mismatch(error) => seq![
                    ("error"@, error),
                    ("hint"@, "Check the required fields using the help tool."@),
                ],
                ArgumentFaultView::Unconfirmed(id) => seq![
                    ("hint"@, "Set confirm: true to delete the note."@),
                    ("id"@, id),
                ],
                ArgumentFaultView::UnknownQuery(query) => seq![("query"@, query)],
            },
            DispatchErrorView::UnknownCommand(command) => seq![
                ("command"@, command),
                ("hint"@, "Call `help` with query 'nb' for available commands."@),
            ],
        }
    }
}

/// The model of a list of named texts.
pub open spec fn named_texts(items: Seq<(String, String)>) -> Seq<(Seq<char>, Seq<char>)> {
    Seq::new(items.len(), |i: int| (items[i].0@, items[i].1@))
}

fn push_named(items: &mut Vec<(String, String)>, name: &str, text: String)
    ensures
        named_texts(final(items)@) == named_texts(old(items)@).push((name@, text@)),
{
    items.push((name.to_owned(), text));
    assert(named_texts(items@) =~= named_texts(old(items)@).push((name@, text@)));
}

impl DispatchError {
    /// The message of the rejection.
    pub fn message(&self) -> (text: &'static str)
        ensures
            text@ == self@.message(),
    {
        match self {
            DispatchError::InvalidArguments(fault) => match fault {
                ArgumentFault::EmptyCommand => "command must be non-empty",
                ArgumentFault::NotJson(_) => "invalid args for command",
                ArgumentFault::Mismatch(_) => "invalid args for command",
                ArgumentFault::Unconfirmed(_) => "delete requires confirm: true",
                ArgumentFault::UnknownQuery(_) => "unknown query; try 'nb' for command list",
            },
            DispatchError::UnknownCommand(_) => "unknown subcommand",
        }
    }

    /// What is attached to the rejection: named texts that tell the caller
    /// what was wrong and what to do about it.
    pub fn data(&self) -> (items: Vec<(String, String)>)
        ensures
            named_texts(items@) == self@.data(),
    {
        let mut items: Vec<(String, String)> = Vec::new();
        match self {
            DispatchError::InvalidArguments(fault) => match fault {
                ArgumentFault::EmptyCommand => {},
                ArgumentFault::NotJson(error) => {
                    push_named(
                        &mut items,
                        "error",
                        join2("args was a string but did not parse as JSON: ", error.as_str()),
                    );
                    push_named(&mut items, "hint", "Pass args as a JSON object.".to_owned());
                },
                ArgumentFault::Mismatch(error) => {
                    push_named(&mut items, "error", error.clone());
                    push_named(
                        &mut items,
                        "hint",
                        "Check the required fields using the help tool.".to_owned(),
                    );
                },
                ArgumentFault::Unconfirmed(id) => {
                    push_named(
                        &mut items,
                        "hint",
                        "Set confirm: true to delete the note.".to_owned(),
                    );
                    push_named(&mut items, "id", id.clone());
                },
                ArgumentFault::UnknownQuery(query) => {
                    push_named(&mut items, "query", query.clone());
                },
            },
            DispatchError::UnknownCommand(command) => {
                push_named(&mut items, "command", command.clone());
                push_named(
                    &mut items,
                    "hint",
                    "Call `help` with query 'nb' for available commands.".to_owned(),
                );
            },
        }
        assert(named_texts(items@) =~= self@.data());
        items
    }
}

/// The namespace that may stand in front of a command name.
pub const NAMESPACE: &'static str = "nb";

/// The namespace with the dot that parts it from the command name.
pub const NAMESPACE_PREFIX: &'static str = "nb.";

/// The name that is matched against the commands: the trimmed name without
/// the namespace prefix, if it has one.
pub open spec fn subcommand(command: Seq<char>) -> Seq<char> {
    let name = trimmed(command);
    if NAMESPACE_PREFIX@.is_prefix_of(name) {
        name.skip(NAMESPACE_PREFIX@.len() as int)
    } else {
        name
    }
}

/// A command is called by its bare name and by its qualified name alike:
/// where no whitespace surrounds it, `nb.` in front of a name that does not
/// itself begin with `nb.` makes no difference to what is matched.
pub proof fn lemma_namespace_is_optional(name: Seq<char>)
    requires
        trimmed(name) == name,
        trimmed(NAMESPACE_PREFIX@ + name) == NAMESPACE_PREFIX@ + name,
        !NAMESPACE_PREFIX@.is_prefix_of(name),
    ensures
        subcommand(name) == name,
        subcommand(NAMESPACE_PREFIX@ + name) == name,
{
    let qualified = NAMESPACE_PREFIX@ + name;
    assert(NAMESPACE_PREFIX@.is_prefix_of(qualified)) by {
        assert(qualified.subrange(0, NAMESPACE_PREFIX@.len() as int) =~= NAMESPACE_PREFIX@);
    }
    assert(qualified.skip(NAMESPACE_PREFIX@.len() as int) =~= name);
}

/// Reads the name of a command. The name is trimmed and an optional
/// namespace prefix is stripped before it is matched.
pub fn parse_command(command: &str) -> (parsed: Result<Command, DispatchError>)
    ensures
        match parsed {
            Ok(c) => trimmed(command@).len() > 0 && c.name() == subcommand(command@),
            Err(e) => if trimmed(command@).len() == 0 {
                e@ == DispatchErrorView::InvalidArguments(ArgumentFaultView::EmptyCommand)
            } else {
                e@ == DispatchErrorView::UnknownCommand(trimmed(command@)) && forall|c: Command|
                    #[trigger] c.name() != subcommand(command@)
            },
        },
{
    let name = command.trim();
    if name.is_empty() {
        return Err(DispatchError::InvalidArguments(ArgumentFault::EmptyCommand));
    }
    let bare = match strip_prefix(name, NAMESPACE_PREFIX) {
        Some(rest) => rest,
        None => name,
    };
    match Command::parse(bare) {
        Some(c) => Ok(c),
        None => Err(DispatchError::UnknownCommand(name.to_owned())),
    }
}

/// The shape in which the arguments of a call arrive.
#[derive(Debug, Clone, PartialEq, Eq)]
pub enum ArgumentShape {
    /// JSON null, or no arguments at all.
    Null,
    /// A JSON object with this many members.
    Object { members: usize },
    /// A JSON string; some callers encode their arguments twice.
    Text(String),
    /// Any other JSON value.
    Other,
}

/// How the arguments of a call are to be read.
#[derive(Debug, Clone, PartialEq, Eq)]
pub enum ArgumentPlan {
    /// Take the defaults of the command ([`CommandArgs::defaults`]).
    Defaults,
    /// Parse this text as a JSON document first, then read the document as
    /// the typed arguments of the command.
    Decode(String),
    /// Read the value as the typed arguments of the command.
    Read,
}

impl ArgumentShape {
    /// How arguments of this shape are to be read: null and the empty
    /// object stand for the defaults, a text holds a JSON document, and any
    /// other value is read as it is.
    pub open spec fn plan(self) -> ArgumentPlan {
        match self {
            ArgumentShape::Null => ArgumentPlan::Defaults,
            ArgumentShape::Object { members } => if members == 0 {
                ArgumentPlan::Defaults
            } else {
                ArgumentPlan::Read
            },
            ArgumentShape::Text(raw) => ArgumentPlan::Decode(raw),
            ArgumentShape::Other => ArgumentPlan::Read,
        }
    }
}

/// Decides how the arguments of a call are to be read.
pub fn parse_args(shape: ArgumentShape) -> (plan: ArgumentPlan)
    ensures
        plan == shape.plan(),
{
    match shape {
        ArgumentShape::Null => ArgumentPlan::Defaults,
        ArgumentShape::Object { members } => {
            if members == 0 {
                ArgumentPlan::Defaults
            } else {
                ArgumentPlan::Read
            }
        },
        ArgumentShape::Text(raw) => ArgumentPlan::Decode(raw),
        ArgumentShape::Other => ArgumentPlan::Read,
    }
}

impl CommandArgs {
    /// Whether the call asks to delete a note without confirming it.
    pub open spec fn is_unconfirmed(&self) -> bool {
        match self {
            CommandArgs::Delete(args) => !args.confirm,
            _ => false,
        }
    }

    /// The run of the tool that answers the call on behalf of `client`.
    pub open spec fn plan(&self, client: &NbClient) -> Result<InvocationView, NbErrorView> {
        match self {
            CommandArgs::Status(a) => planned(
                client.resolved(opt_text(a.notebook)),
                |nb: Seq<char>| status_args(nb),
            ),
            CommandArgs::Notebooks => Ok(InvocationView { notebook: None, args: notebooks_args() }),
            CommandArgs::Add(a) => planned(
                client.resolved(opt_text(a.notebook)),
                |nb: Seq<char>|
                    add_args(nb, opt_text(a.title), a.content@, texts(a.tags@), opt_text(a.folder)),
            ),
            CommandArgs::Show(a) => planned(
                client.resolved(opt_text(a.notebook)),
                |nb: Seq<char>| show_args(nb, a.id@),
            ),
            CommandArgs::Edit(a) => planned(
                client.resolved(opt_text(a.notebook)),
                |nb: Seq<char>| edit_args(nb, a.id@, a.content@),
            ),
            CommandArgs::Delete(a) => planned(
                client.resolved(opt_text(a.notebook)),
                |nb: Seq<char>| delete_args(nb, a.id@),
            ),
            CommandArgs::Move(a) => planned(
                client.resolved(opt_text(a.notebook)),
                |nb: Seq<char>| move_args(nb, a.id@, a.destination@),
            ),
            CommandArgs::List(a) => planned(
                client.resolved(opt_text(a.notebook)),
                |nb: Seq<char>| list_args(nb, opt_text(a.folder), texts(a.tags@), a.limit),
            ),
            CommandArgs::Search(a) => planned(
                client.resolved(opt_text(a.notebook)),
                |nb: Seq<char>| search_args(nb, a.query@, texts(a.tags@), opt_text(a.folder)),
            ),
            CommandArgs::Todo(a) => planned(
                client.resolved(opt_text(a.notebook)),
                |nb: Seq<char>| todo_args(nb, a.description@, texts(a.tags@), opt_text(a.folder)),
            ),
            CommandArgs::Do(a) => planned(
                client.resolved(opt_text(a.notebook)),
                |nb: Seq<char>| do_args(nb, a.id@),
            ),
            CommandArgs::Undo(a) => planned(
                client.resolved(opt_text(a.notebook)),
                |nb: Seq<char>| undo_args(nb, a.id@),
            ),
            CommandArgs::Tasks(a) => planned(
                client.resolved(opt_text(a.notebook)),
                |nb: Seq<char>| tasks_args(nb, opt_text(a.folder)),
            ),
            CommandArgs::Bookmark(a) => planned(
                client.resolved(opt_text(a.notebook)),
                |nb: Seq<char>|
                    bookmark_args(
                        nb,
                        a.url@,
                        opt_text(a.title),
                        texts(a.tags@),
                        opt_text(a.comment),
                        opt_text(a.folder),
                    ),
            ),
            CommandArgs::Folders(a) => planned(
                client.resolved(opt_text(a.notebook)),
                |nb: Seq<char>| folders_args(nb, opt_text(a.parent)),
            ),
            CommandArgs::Mkdir(a) => planned(
                client.resolved(opt_text(a.notebook)),
                |nb: Seq<char>| mkdir_args(nb, a.path@),
            ),
            CommandArgs::Import(a) => planned(
                client.resolved(opt_text(a.notebook)),
                |nb: Seq<char>|
                    import_args(
                        nb,
                        a.source@,
                        opt_text(a.folder),
                        opt_text(a.filename),
                        a.convert,
                    ),
            ),
        }
    }
}

/// What becomes of a validated call: rejected, answered with a failure
/// without a run of the tool, or answered by a run of the tool.
pub open spec fn dispatched(client: &NbClient, call: &CommandArgs) -> Result<
    Result<InvocationView, NbErrorView>,
    DispatchErrorView,
> {
    match call {
        CommandArgs::Delete(args) => if args.confirm {
            Ok(call.plan(client))
        } else {
            Err(DispatchErrorView::InvalidArguments(ArgumentFaultView::Unconfirmed(args.id@)))
        },
        _ => Ok(call.plan(client)),
    }
}

/// The model of what [`dispatch_nb`] returns.
pub open spec fn dispatch_view(outcome: Result<Result<Invocation, NbError>, DispatchError>)
    -> Result<Result<InvocationView, NbErrorView>, DispatchErrorView> {
    match outcome {
        Ok(plan) => Ok(result_view(plan)),
        Err(e) => Err(e@),
    }
}

/// Validates a call and plans the run of the tool that answers it.
///
/// The outer error is a rejection of the call: a note is deleted only where
/// the call confirms it. The inner error is a failure of the operation that
/// is found before anything runs; it is reported to the caller like a failed
/// run, as the content of a response.
pub fn dispatch_nb(client: &NbClient, call: &CommandArgs) -> (outcome: Result<
    Result<Invocation, NbError>,
    DispatchError,
>)
    ensures
        dispatch_view(outcome) == dispatched(client, call),
{
    let plan = match call {
        CommandArgs::Status(a) => client.status(as_deref(&a.notebook)),
        CommandArgs::Notebooks => client.notebooks(),
        CommandArgs::Add(a) => client.add(
            as_deref(&a.title),
            a.content.as_str(),
            a.tags.as_slice(),
            as_deref(&a.folder),
            as_deref(&a.notebook),
        ),
        CommandArgs::Show(a) => client.show(a.id.as_str(), as_deref(&a.notebook)),
        CommandArgs::Edit(a) => client.edit(
            a.id.as_str(),
            a.content.as_str(),
            as_deref(&a.notebook),
        ),
        CommandArgs::Delete(a) => {
            if !a.confirm {
                return Err(
                    DispatchError::InvalidArguments(ArgumentFault::Unconfirmed(a.id.clone())),
                );
            }
            client.delete(a.id.as_str(), as_deref(&a.notebook))
        },
        CommandArgs::Move(a) => client.move_note(
            a.id.as_str(),
            a.destination.as_str(),
            as_deref(&a.notebook),
        ),
        CommandArgs::List(a) => client.list(
            as_deref(&a.folder),
            a.tags.as_slice(),
            a.limit,
            as_deref(&a.notebook),
        ),
        CommandArgs::Search(a) => client.search(
            a.query.as_str(),
            a.tags.as_slice(),
            as_deref(&a.folder),
            as_deref(&a.notebook),
        ),
        CommandArgs::Todo(a) => client.todo(
            a.description.as_str(),
            a.tags.as_slice(),
            as_deref(&a.folder),
            as_deref(&a.notebook),
        ),
        CommandArgs::Do(a) => client.do_task(a.id.as_str(), as_deref(&a.notebook)),
        CommandArgs::Undo(a) => client.undo_task(a.id.as_str(), as_deref(&a.notebook)),
        CommandArgs::Tasks(a) => client.tasks(as_deref(&a.folder), as_deref(&a.notebook)),
        CommandArgs::Bookmark(a) => client.bookmark(
            a.url.as_str(),
            as_deref(&a.title),
            a.tags.as_slice(),
            as_deref(&a.comment),
            as_deref(&a.folder),
            as_deref(&a.notebook),
        ),
        CommandArgs::Folders(a) => client.folders(as_deref(&a.parent), as_deref(&a.notebook)),
        CommandArgs::Mkdir(a) => client.mkdir(a.path.as_str(), as_deref(&a.notebook)),
        CommandArgs::Import(a) => client.import(
            a.source.as_str(),
            as_deref(&a.folder),
            as_deref(&a.filename),
            a.convert,
            as_deref(&a.notebook),
        ),
    };
    Ok(plan)
}

/// A call to delete is rejected unless it is confirmed, whatever else it
/// holds, and a call that leaves the confirmation out is not confirmed. A
/// confirmed one, and a call of any other command, is never rejected; a
/// confirmed call to delete is answered by a run of the tool exactly when a
/// notebook is resolved for it.
pub proof fn lemma_delete_needs_confirmation(client: &NbClient, call: &CommandArgs)
    ensures
        call.is_unconfirmed() <==> dispatched(client, call) is Err,
        call.command() == Command::Delete && call.is_blank() ==> call.is_unconfirmed(),
        call.is_unconfirmed() ==> dispatched(client, call) matches Err(
            DispatchErrorView::InvalidArguments(_),
        ),
        !call.is_unconfirmed() ==> dispatched(client, call) == Ok::<
            Result<InvocationView, NbErrorView>,
            DispatchErrorView,
        >(call.plan(client)),
        call matches CommandArgs::Delete(args) ==> (args.confirm && client.resolved(
            opt_text(args.notebook),
        ) is Some <==> dispatched(client, call) matches Ok(Ok(_))),
{
}

/// The first step of a call: none for a rejected call, the end for a call
/// that fails before anything runs, else the first run of the tool.
pub open spec fn invoked(client: &NbClient, call: &CommandArgs) -> Result<
    StepView,
    DispatchErrorView,
> {
    match dispatched(client, call) {
        Ok(Ok(invocation)) => Ok(started(client.creates_notebooks(), invocation)),
        Ok(Err(failure)) => Ok(StepView::Done(Err(failure))),
        Err(rejection) => Err(rejection),
    }
}

/// Validates a call, plans its run and begins to carry it out. The caller
/// performs the runs that the steps ask for and wraps the final result with
/// [`respond`].
pub fn invoke(client: &NbClient, call: &CommandArgs) -> (first: Result<Step, DispatchError>)
    ensures
        match first {
            Ok(step) => invoked(client, call) == Ok::<StepView, DispatchErrorView>(step@),
            Err(e) => invoked(client, call) == Err::<StepView, DispatchErrorView>(e@),
        },
{
    match dispatch_nb(client, call) {
        Ok(Ok(invocation)) => Ok(Session::start(client, invocation)),
        Ok(Err(failure)) => Ok(Step::Done(Err(failure))),
        Err(rejection) => Err(rejection),
    }
}

/// The tool runs for a call exactly when the call is not rejected and its
/// notebook is resolved. In particular it never runs for a call to delete
/// that is not confirmed, nor for a call on a notebook that no source names.
pub proof fn lemma_tool_runs_when_planned(client: &NbClient, call: &CommandArgs)
    ensures
        invoked(client, call) matches Ok(StepView::Run(_, _)) <==> !call.is_unconfirmed()
            && call.plan(client) is Ok,
        call.is_unconfirmed() ==> invoked(client, call) matches Err(
            DispatchErrorView::InvalidArguments(_),
        ),
        !call.is_unconfirmed() && call.plan(client) is Err ==> invoked(client, call) == Ok::<
            StepView,
            DispatchErrorView,
        >(StepView::Done(Err(NbErrorView::Configuration))),
{
}

/// The content of a response.
#[derive(Debug, Clone, PartialEq, Eq)]
pub enum ToolResponse {
    /// The operation succeeded; holds its normalized output.
    Success(String),
    /// The operation failed; holds the message of the failure.
    Error(String),
}

/// The model of a [`ToolResponse`].
pub enum ToolResponseView {
    Success(Seq<char>),
    Error(Seq<char>),
}

impl View for ToolResponse {
    type V = ToolResponseView;

    open spec fn view(&self) -> ToolResponseView {
        match self {
            ToolResponse::Success(text) => ToolResponseView::Success(text@),
            ToolResponse::Error(text) => ToolResponseView::Error(text@),
        }
    }
}

/// The response to a result: the output as success content, a failure's
/// message as error content.
pub open spec fn responded(result: Result<Seq<char>, NbErrorView>) -> ToolResponseView {
    match result {
        Ok(text) => ToolResponseView::Success(text),
        Err(e) => ToolResponseView::Error(e.message()),
    }
}

/// Wraps the result of an operation into the content of a response. A
/// failed operation is a valid response that carries the failure text.
pub fn respond(result: Result<String, NbError>) -> (response: ToolResponse)
    ensures
        response@ == responded(result_view(result)),
{
    match result {
        Ok(text) => ToolResponse::Success(text),
        Err(e) => ToolResponse::Error(e.message()),
    }
}

/// What a help query asks for.
#[derive(Debug, Clone, Copy, PartialEq, Eq, Structural)]
pub enum HelpTopic {
    /// The list of all commands.
    Index,
    /// The description and the argument schema of one command.
    Command(Command),
}

/// The name under which a command is listed and explained: its name behind
/// the namespace prefix.
pub open spec fn qualified(command: Command) -> Seq<char> {
    NAMESPACE_PREFIX@ + command.name()
}

/// The name under which a command is listed and explained.
pub fn qualified_name(command: Command) -> (name: String)
    ensures
        name@ == qualified(command),
{
    join2(NAMESPACE_PREFIX, command.as_str())
}

/// Reads a help query: the namespace asks for the list of commands, the
/// qualified name of a command for that command. The tool is not involved.
pub fn help_tool(query: &str) -> (topic: Result<HelpTopic, DispatchError>)
    ensures
        match topic {
            Ok(HelpTopic::Index) => trimmed(query@) == NAMESPACE@,
            Ok(HelpTopic::Command(c)) => trimmed(query@) != NAMESPACE@ && trimmed(query@)
                == qualified(c),
            Err(e) => trimmed(query@) != NAMESPACE@ && (forall|c: Command|
                trimmed(query@) != #[trigger] qualified(c)) && e@
                == DispatchErrorView::InvalidArguments(
                ArgumentFaultView::UnknownQuery(trimmed(query@)),
            ),
        },
{
    let query = query.trim();
    if str_eq(query, NAMESPACE) {
        return Ok(HelpTopic::Index);
    }
    match strip_prefix(query, NAMESPACE_PREFIX) {
        Some(name) => match Command::parse(name) {
            Some(c) => {
                assert(query@ =~= NAMESPACE_PREFIX@ + name@);
                Ok(HelpTopic::Command(c))
            },
            None => {
                assert forall|c: Command| query@ != #[trigger] qualified(c) by {
                    if query@ == qualified(c) {
                        assert(qualified(c).skip(NAMESPACE_PREFIX@.len() as int) =~= c.name());
                    }
                }
                Err(DispatchError::InvalidArguments(ArgumentFault::UnknownQuery(query.to_owned())))
            },
        },
        None => {
            assert forall|c: Command| query@ != #[trigger] qualified(c) by {
                if query@ == qualified(c) {
                    assert(NAMESPACE_PREFIX@.is_prefix_of(qualified(c)));
                }
            }
            Err(DispatchError::InvalidArguments(ArgumentFault::UnknownQuery(query.to_owned())))
        },
    }
}

} // verus!
