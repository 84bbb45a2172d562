use nb_mcp::client::{Invocation, NbClient};
use nb_mcp::session::{classify_outcome, ProcessOutcome, ProcessOutput, Session, Step};
use nb_mcp::NbError;

fn strings(items: &[&str]) -> Vec<String> {
    items.iter().map(|s| s.to_string()).collect()
}

fn exited(success: bool, stdout: &str, stderr: &str) -> ProcessOutcome {
    ProcessOutcome::Exited(ProcessOutput {
        success,
        stdout: stdout.to_string(),
        stderr: stderr.to_string(),
    })
}

fn missing() -> ProcessOutcome {
    ProcessOutcome::SpawnFailed { not_found: true, message: "No such file or directory".to_string() }
}

fn invocation() -> Invocation {
    Invocation { notebook: Some("work".to_string()), args: strings(&["work:", "status"]) }
}

fn run(step: Step) -> (Session, Vec<String>) {
    match step {
        Step::Run(session, args) => (session, args),
        Step::Done(result) => panic!("expected a run, got {:?}", result),
    }
}

#[test]
fn successful_run_yields_normalized_output() {
    assert_eq!(
        classify_outcome(&exited(true, "\x1b[32mok\x1b[0m\n", "warning")),
        Ok("ok\n".to_string())
    );
}

#[test]
fn failed_run_prefers_the_error_stream() {
    assert_eq!(
        classify_outcome(&exited(false, "out", "\x1b[31mbad\x1b[0m")),
        Err(NbError::CommandFailed("bad".to_string()))
    );
}

#[test]
fn failed_run_falls_back_to_standard_output() {
    assert_eq!(
        classify_outcome(&exited(false, "\x1b[1mreason\x1b[0m", "")),
        Err(NbError::CommandFailed("reason".to_string()))
    );
    assert_eq!(
        classify_outcome(&exited(false, "out", " ")),
        Err(NbError::CommandFailed(" ".to_string()))
    );
    assert_eq!(
        classify_outcome(&exited(false, "", "")),
        Err(NbError::CommandFailed("".to_string()))
    );
}

#[test]
fn spawn_failures_are_told_apart() {
    assert_eq!(classify_outcome(&missing()), Err(NbError::NotFound));
    assert_eq!(
        classify_outcome(&ProcessOutcome::SpawnFailed {
            not_found: false,
            message: "permission denied".to_string()
        }),
        Err(NbError::Io("permission denied".to_string()))
    );
    assert_eq!(
        classify_outcome(&ProcessOutcome::WaitFailed("broken pipe".to_string())),
        Err(NbError::Io("broken pipe".to_string()))
    );
}

#[test]
fn session_looks_the_notebook_up_first() {
    let client = NbClient::new(None, None, None, true);
    let (session, args) = run(Session::start(&client, invocation()));
    assert_eq!(args, strings(&["notebooks", "show", "work", "--path"]));
    assert_eq!(
        session,
        Session::Lookup {
            notebook: "work".to_string(),
            create: true,
            args: strings(&["work:", "status"])
        }
    );
}

#[test]
fn session_runs_the_command_when_the_notebook_exists() {
    let client = NbClient::new(None, None, None, true);
    let (session, _) = run(Session::start(&client, invocation()));
    let (session, args) = run(session.step(&exited(true, "/home/u/.nb/work\n", "")));
    assert_eq!(session, Session::Command);
    assert_eq!(args, strings(&["work:", "status"]));
    assert_eq!(
        session.step(&exited(true, "\x1b[1mwork\x1b[0m: 3 notes\n", "")),
        Step::Done(Ok("work: 3 notes\n".to_string()))
    );
}

#[test]
fn session_treats_an_empty_path_as_failure() {
    let client = NbClient::new(None, None, None, true);
    let (session, _) = run(Session::start(&client, invocation()));
    assert_eq!(
        session.step(&exited(true, " \n", "")),
        Step::Done(Err(NbError::CommandFailed("nb notebooks path output was empty".to_string())))
    );
}

#[test]
fn session_creates_a_missing_notebook() {
    let client = NbClient::new(None, None, None, true);
    let (session, _) = run(Session::start(&client, invocation()));
    let (session, args) = run(session.step(&exited(false, "", "Notebook not found: work")));
    assert_eq!(args, strings(&["notebooks", "add", "work"]));
    assert_eq!(session, Session::Create { args: strings(&["work:", "status"]) });
    let (session, args) = run(session.step(&exited(true, "Added notebook: work\n", "")));
    assert_eq!(session, Session::Command);
    assert_eq!(args, strings(&["work:", "status"]));
}

#[test]
fn session_reports_a_failed_creation() {
    let client = NbClient::new(None, None, None, true);
    let (session, _) = run(Session::start(&client, invocation()));
    let (session, _) = run(session.step(&exited(false, "", "no")));
    assert_eq!(
        session.step(&exited(false, "", "cannot create")),
        Step::Done(Err(NbError::CommandFailed("cannot create".to_string())))
    );
}

#[test]
fn session_does_not_create_when_told_not_to() {
    let client = NbClient::new(None, None, None, false);
    let (session, _) = run(Session::start(&client, invocation()));
    assert_eq!(
        session.step(&exited(false, "", "Notebook not found: work")),
        Step::Done(Err(NbError::CommandFailed(
            "notebook not found; run `nb notebooks add work` or remove --no-create-notebook"
                .to_string()
        )))
    );
}

#[test]
fn session_reports_a_missing_tool_at_lookup() {
    for create in [true, false] {
        let client = NbClient::new(None, None, None, create);
        let (session, _) = run(Session::start(&client, invocation()));
        assert_eq!(session.step(&missing()), Step::Done(Err(NbError::NotFound)));
    }
}

#[test]
fn session_reports_a_system_failure_at_lookup() {
    for create in [true, false] {
        let client = NbClient::new(None, None, None, create);
        let (session, _) = run(Session::start(&client, invocation()));
        assert_eq!(
            session.step(&ProcessOutcome::SpawnFailed {
                not_found: false,
                message: "permission denied".to_string()
            }),
            Step::Done(Err(NbError::Io("permission denied".to_string())))
        );
        let (session, _) = run(Session::start(&client, invocation()));
        assert_eq!(
            session.step(&ProcessOutcome::WaitFailed("broken pipe".to_string())),
            Step::Done(Err(NbError::Io("broken pipe".to_string())))
        );
    }
}

#[test]
fn session_reports_a_missing_tool_at_creation_and_command() {
    let client = NbClient::new(None, None, None, true);
    let (session, _) = run(Session::start(&client, invocation()));
    let (session, args) = run(session.step(&exited(false, "", "Notebook not found: work")));
    assert_eq!(args, strings(&["notebooks", "add", "work"]));
    assert_eq!(session.step(&missing()), Step::Done(Err(NbError::NotFound)));
    assert_eq!(Session::Command.step(&missing()), Step::Done(Err(NbError::NotFound)));
}

#[test]
fn session_without_notebook_runs_at_once() {
    let client = NbClient::new(None, None, None, true);
    let plan = client.notebooks().unwrap();
    let (session, args) = run(Session::start(&client, plan));
    assert_eq!(session, Session::Command);
    assert_eq!(args, strings(&["notebooks", "--no-color"]));
    assert_eq!(
        session.step(&exited(false, "", "oops")),
        Step::Done(Err(NbError::CommandFailed("oops".to_string())))
    );
}

#[test]
fn session_advances_on_classified_results() {
    let lookup = Session::Lookup {
        notebook: "work".to_string(),
        create: true,
        args: strings(&["work:", "status"]),
    };
    assert_eq!(
        lookup.clone().advance(Ok("/n/work".to_string())),
        Step::Run(Session::Command, strings(&["work:", "status"]))
    );
    assert_eq!(
        lookup.clone().advance(Err(NbError::CommandFailed("no such notebook".to_string()))),
        Step::Run(
            Session::Create { args: strings(&["work:", "status"]) },
            strings(&["notebooks", "add", "work"])
        )
    );
    assert_eq!(
        lookup.clone().advance(Err(NbError::Io("x".to_string()))),
        Step::Done(Err(NbError::Io("x".to_string())))
    );
    assert_eq!(
        lookup.clone().advance(Err(NbError::NotFound)),
        Step::Done(Err(NbError::NotFound))
    );
    let strict = Session::Lookup {
        notebook: "work".to_string(),
        create: false,
        args: strings(&["work:", "status"]),
    };
    assert_eq!(
        strict.clone().advance(Err(NbError::NotFound)),
        Step::Done(Err(NbError::NotFound))
    );
    assert_eq!(
        strict.advance(Err(NbError::CommandFailed("no such notebook".to_string()))),
        Step::Done(Err(NbError::CommandFailed(
            "notebook not found; run `nb notebooks add work` or remove --no-create-notebook"
                .to_string()
        )))
    );
    assert_eq!(
        lookup.advance(Ok("".to_string())),
        Step::Done(Err(NbError::CommandFailed("nb notebooks path output was empty".to_string())))
    );
    assert_eq!(
        Session::Command.advance(Ok("out".to_string())),
        Step::Done(Ok("out".to_string()))
    );
    assert_eq!(
        Session::Command.advance(Err(NbError::NotFound)),
        Step::Done(Err(NbError::NotFound))
    );
}
