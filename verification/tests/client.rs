use nb_mcp::client::{normalize_tag, notebook_path_from, Invocation, NbClient};
use nb_mcp::NbError;

fn strings(items: &[&str]) -> Vec<String> {
    items.iter().map(|s| s.to_string()).collect()
}

fn client() -> NbClient {
    NbClient::new(Some("home"), None, None, true)
}

fn args_of(plan: Result<Invocation, NbError>) -> Vec<String> {
    plan.expect("a notebook is configured").args
}

#[test]
fn add_builds_the_documented_vector() {
    let plan = client()
        .add(Some("T"), "C", &strings(&["x"]), Some("f"), Some("nb"))
        .unwrap();
    assert_eq!(plan.notebook, Some("nb".to_string()));
    assert_eq!(
        plan.args,
        strings(&["nb:add", "--title", "T", "--content", "C", "--tags", "#x", "--folder", "f"])
    );
}

#[test]
fn add_without_options() {
    assert_eq!(
        args_of(client().add(None, "body", &[], None, None)),
        strings(&["home:add", "--content", "body"])
    );
}

#[test]
fn add_repeats_the_tag_flag() {
    assert_eq!(
        args_of(client().add(None, "b", &strings(&["a", "#b", ""]), None, None)),
        strings(&["home:add", "--content", "b", "--tags", "#a", "--tags", "#b", "--tags", "#"])
    );
}

#[test]
fn list_builds_the_documented_vector() {
    let plan = client().list(Some("proj"), &[], None, Some("work")).unwrap();
    assert_eq!(plan.notebook, Some("work".to_string()));
    assert_eq!(plan.args, strings(&["list", "work:proj/", "--no-color"]));
}

#[test]
fn list_with_limit_and_tags() {
    assert_eq!(
        args_of(client().list(None, &strings(&["t"]), Some(25), None)),
        strings(&["list", "home:", "--no-color", "-n", "25", "--tags", "#t"])
    );
    assert_eq!(
        args_of(client().list(None, &[], Some(0), None)),
        strings(&["list", "home:", "--no-color", "-n", "0"])
    );
}

#[test]
fn status_and_notebooks() {
    assert_eq!(args_of(client().status(None)), strings(&["home:", "status"]));
    let plan = client().notebooks().unwrap();
    assert_eq!(plan.notebook, None);
    assert_eq!(plan.args, strings(&["notebooks", "--no-color"]));
}

#[test]
fn notebooks_needs_no_notebook() {
    let bare = NbClient::new(None, None, None, true);
    assert_eq!(bare.notebooks().unwrap().args, strings(&["notebooks", "--no-color"]));
}

#[test]
fn notebook_path_asks_for_the_path() {
    assert_eq!(
        args_of(client().notebook_path(Some("n"))),
        strings(&["notebooks", "show", "n", "--path"])
    );
}

#[test]
fn notebook_path_from_trims_the_output() {
    assert_eq!(notebook_path_from(" /home/u/.nb/home\n"), Ok("/home/u/.nb/home".to_string()));
    assert_eq!(
        notebook_path_from(" \n"),
        Err(NbError::CommandFailed("nb notebooks path output was empty".to_string()))
    );
}

#[test]
fn show_edit_delete_move_address_a_note() {
    let c = client();
    assert_eq!(args_of(c.show("3", None)), strings(&["show", "home:3", "--no-color"]));
    assert_eq!(
        args_of(c.edit("3", "new", Some("w"))),
        strings(&["edit", "w:3", "--content", "new"])
    );
    assert_eq!(args_of(c.delete("a.md", None)), strings(&["delete", "home:a.md", "--force"]));
    assert_eq!(
        args_of(c.move_note("3", "dir/b.md", None)),
        strings(&["move", "home:3", "dir/b.md", "--force"])
    );
}

#[test]
fn search_puts_no_color_last() {
    assert_eq!(
        args_of(client().search("q.*", &strings(&["a"]), Some("f"), None)),
        strings(&["search", "home:f/", "q.*", "--tag", "#a", "--no-color"])
    );
    assert_eq!(
        args_of(client().search("q", &[], None, None)),
        strings(&["search", "home:", "q", "--no-color"])
    );
}

#[test]
fn todo_puts_the_folder_before_the_description() {
    let c = client();
    assert_eq!(
        args_of(c.todo("buy milk", &strings(&["home"]), Some("chores"), None)),
        strings(&["home:todo", "add", "chores/", "buy milk", "--tags", "#home"])
    );
    assert_eq!(
        args_of(c.todo("x", &[], Some("chores/"), None)),
        strings(&["home:todo", "add", "chores/", "x"])
    );
    assert_eq!(args_of(c.todo("x", &[], None, None)), strings(&["home:todo", "add", "x"]));
}

#[test]
fn do_undo_and_tasks() {
    let c = client();
    assert_eq!(args_of(c.do_task("4", None)), strings(&["do", "home:4"]));
    assert_eq!(args_of(c.undo_task("4", Some("w"))), strings(&["undo", "w:4"]));
    assert_eq!(args_of(c.tasks(None, None)), strings(&["tasks", "home:", "--no-color"]));
    assert_eq!(args_of(c.tasks(Some("f"), None)), strings(&["tasks", "home:f/", "--no-color"]));
}

#[test]
fn bookmark_orders_title_comment_tags() {
    assert_eq!(
        args_of(client().bookmark(
            "https://example.com",
            Some("Ex"),
            &strings(&["web"]),
            Some("nice"),
            Some("links"),
            None
        )),
        strings(&[
            "home:links/bookmark",
            "https://example.com",
            "--title",
            "Ex",
            "--comment",
            "nice",
            "--tags",
            "#web"
        ])
    );
    assert_eq!(
        args_of(client().bookmark("u", None, &[], None, None, None)),
        strings(&["home:bookmark", "u"])
    );
}

#[test]
fn folders_and_mkdir() {
    let c = client();
    assert_eq!(
        args_of(c.folders(None, None)),
        strings(&["list", "home:", "--type", "folder", "--no-color"])
    );
    assert_eq!(
        args_of(c.folders(Some("a/b"), None)),
        strings(&["list", "home:a/b/", "--type", "folder", "--no-color"])
    );
    assert_eq!(args_of(c.mkdir("a/b", None)), strings(&["add", "folder", "home:a/b/"]));
}

#[test]
fn import_combines_folder_and_filename() {
    let c = client();
    assert_eq!(
        args_of(c.import("/tmp/a.html", Some("in"), Some("a.md"), true, None)),
        strings(&["home:import", "/tmp/a.html", "--convert", "in/a.md"])
    );
    assert_eq!(
        args_of(c.import("s", Some("in"), None, false, None)),
        strings(&["home:import", "s", "in/"])
    );
    assert_eq!(
        args_of(c.import("s", None, Some("a.md"), false, None)),
        strings(&["home:import", "s", "a.md"])
    );
    assert_eq!(args_of(c.import("s", None, None, false, None)), strings(&["home:import", "s"]));
}

#[test]
fn normalize_tag_adds_the_marker_once() {
    assert_eq!(normalize_tag("x"), "#x");
    assert_eq!(normalize_tag("#x"), "#x");
    assert_eq!(normalize_tag(""), "#");
    assert_eq!(normalize_tag("##x"), "##x");
    assert_eq!(normalize_tag(&normalize_tag("x")), "#x");
}

#[test]
fn resolution_follows_the_precedence() {
    for explicit in [None, Some("explicit")] {
        for cli in [None, Some("cli")] {
            for env in [None, Some("env")] {
                for git in [None, Some("git")] {
                    let c = NbClient::new(cli, env, git, true);
                    let expected = explicit.or(cli).or(env).or(git);
                    match expected {
                        Some(name) => {
                            assert_eq!(c.resolve_notebook_name(explicit), Ok(name.to_string()))
                        }
                        None => assert_eq!(
                            c.resolve_notebook_name(explicit),
                            Err(NbError::Configuration)
                        ),
                    }
                    assert_eq!(c.default_notebook(), cli.or(env).or(git));
                }
            }
        }
    }
}

#[test]
fn every_operation_needs_a_notebook_but_notebooks() {
    let c = NbClient::new(None, None, None, false);
    assert!(!c.create_notebook());
    assert_eq!(c.status(None), Err(NbError::Configuration));
    assert_eq!(c.add(None, "c", &[], None, None), Err(NbError::Configuration));
    assert_eq!(c.show("1", None), Err(NbError::Configuration));
    assert_eq!(c.list(None, &[], None, None), Err(NbError::Configuration));
    assert_eq!(c.search("q", &[], None, None), Err(NbError::Configuration));
    assert_eq!(c.edit("1", "c", None), Err(NbError::Configuration));
    assert_eq!(c.delete("1", None), Err(NbError::Configuration));
    assert_eq!(c.move_note("1", "2", None), Err(NbError::Configuration));
    assert_eq!(c.todo("d", &[], None, None), Err(NbError::Configuration));
    assert_eq!(c.do_task("1", None), Err(NbError::Configuration));
    assert_eq!(c.undo_task("1", None), Err(NbError::Configuration));
    assert_eq!(c.tasks(None, None), Err(NbError::Configuration));
    assert_eq!(c.bookmark("u", None, &[], None, None, None), Err(NbError::Configuration));
    assert_eq!(c.folders(None, None), Err(NbError::Configuration));
    assert_eq!(c.mkdir("p", None), Err(NbError::Configuration));
    assert_eq!(c.import("s", None, None, false, None), Err(NbError::Configuration));
    assert_eq!(c.notebook_path(None), Err(NbError::Configuration));
    assert!(c.notebooks().is_ok());
    assert!(c.status(Some("given")).is_ok());
}

#[test]
fn error_messages() {
    assert_eq!(NbError::CommandFailed("boom".to_string()).message(), "nb command failed: boom");
    assert_eq!(
        NbError::NotFound.message(),
        "nb not found in PATH; install via: brew install xwmx/taps/nb (macOS) or see https://github.com/xwmx/nb#installation"
    );
    assert_eq!(NbError::Io("pipe closed".to_string()).message(), "IO error: pipe closed");
    assert_eq!(
        NbError::Configuration.message(),
        "notebook not configured; set --notebook or NB_MCP_NOTEBOOK"
    );
}
