//! The commands that a caller can name, with the texts that describe them.

use crate::text::str_eq;
use vstd::prelude::*;
use vstd::string::*;

verus! {

/// A supported command.
#[derive(Debug, Clone, Copy, PartialEq, Eq, Structural)]
pub enum Command {
    Status,
    Notebooks,
    Add,
    Show,
    Edit,
    Delete,
    Move,
    List,
    Search,
    Todo,
    Do,
    Undo,
    Tasks,
    Bookmark,
    Folders,
    Mkdir,
    Import,
}

impl Command {
    /// The name by which the command is called.
    pub open spec fn name(self) -> Seq<char> {
        match self {
            Command::Status => "status"@,
            Command::Notebooks => "notebooks"@,
            Command::Add => "add"@,
            Command::Show => "show"@,
            Command::Edit => "edit"@,
            Command::Delete => "delete"@,
            Command::Move => "move"@,
            Command::List => "list"@,
            Command::Search => "search"@,
            Command::Todo => "todo"@,
            Command::Do => "do"@,
            Command::Undo => "undo"@,
            Command::Tasks => "tasks"@,
            Command::Bookmark => "bookmark"@,
            Command::Folders => "folders"@,
            Command::Mkdir => "mkdir"@,
            Command::Import => "import"@,
        }
    }

    /// The command's one-line description in the list of commands.
    pub open spec fn summary(self) -> Seq<char> {
        match self {
            Command::Status => "Show current notebook and stats"@,
            Command::Notebooks => "List available notebooks"@,
            Command::Add => "Create a new note"@,
            Command::Show => "Read a note's content"@,
            Command::Edit => "Update a note's content"@,
            Command::Delete => "Delete a note (requires confirm: true)"@,
            Command::Move => "Move or rename a note"@,
            Command::List => "List notes with optional filtering"@,
            Command::Search => "Full-text search notes"@,
            Command::Todo => "Create a todo item"@,
            Command::Do => "Mark a todo as complete"@,
            Command::Undo => "Reopen a completed todo"@,
            Command::Tasks => "List todo items"@,
            Command::Bookmark => "Save a URL as a bookmark"@,
            Command::Folders => "List folders in notebook"@,
            Command::Mkdir => "Create a folder"@,
            Command::Import => "Import a file or URL into notebook"@,
        }
    }

    /// The command's description in its own help entry.
    pub open spec fn description(self) -> Seq<char> {
        match self {
            Command::Status => "Show notebook status"@,
            _ => self.summary(),
        }
    }

    /// The command's place in the list of commands.
    pub open spec fn index(self) -> int {
        match self {
            Command::Status => 0,
            Command::Notebooks => 1,
            Command::Add => 2,
            Command::Show => 3,
            Command::Edit => 4,
            Command::Delete => 5,
            Command::Move => 6,
            Command::List => 7,
            Command::Search => 8,
            Command::Todo => 9,
            Command::Do => 10,
            Command::Undo => 11,
            Command::Tasks => 12,
            Command::Bookmark => 13,
            Command::Folders => 14,
            Command::Mkdir => 15,
            Command::Import => 16,
        }
    }

    /// The name by which the command is called.
    pub fn as_str(self) -> (name: &'static str)
        ensures
            name@ == self.name(),
    {
        match self {
            Command::Status => "status",
            Command::Notebooks => "notebooks",
            Command::Add => "add",
            Command::Show => "show",
            Command::Edit => "edit",
            Command::Delete => "delete",
            Command::Move => "move",
            Command::List => "list",
            Command::Search => "search",
            Command::Todo => "todo",
            Command::Do => "do",
            Command::Undo => "undo",
            Command::Tasks => "tasks",
            Command::Bookmark => "bookmark",
            Command::Folders => "folders",
            Command::Mkdir => "mkdir",
            Command::Import => "import",
        }
    }

    /// The command's one-line description in the list of commands.
    pub fn summary_str(self) -> (text: &'static str)
        ensures
            text@ == self.summary(),
    {
        match self {
            Command::Status => "Show current notebook and stats",
            Command::Notebooks => "List available notebooks",
            Command::Add => "Create a new note",
            Command::Show => "Read a note's content",
            Command::Edit => "Update a note's content",
            Command::Delete => "Delete a note (requires confirm: true)",
            Command::Move => "Move or rename a note",
            Command::List => "List notes with optional filtering",
            Command::Search => "Full-text search notes",
            Command::Todo => "Create a todo item",
            Command::Do => "Mark a todo as complete",
            Command::Undo => "Reopen a completed todo",
            Command::Tasks => "List todo items",
            Command::Bookmark => "Save a URL as a bookmark",
            Command::Folders => "List folders in notebook",
            Command::Mkdir => "Create a folder",
            Command::Import => "Import a file or URL into notebook",
        }
    }

    /// The command's description in its own help entry.
    pub fn description_str(self) -> (text: &'static str)
        ensures
            text@ == self.description(),
    {
        match self {
            Command::Status => "Show notebook status",
            _ => self.summary_str(),
        }
    }

    /// The command that is called `name`, if there is one.
    pub fn parse(name: &str) -> (command: Option<Command>)
        ensures
            match command {
                Some(c) => c.name() == name@,
                None => forall|c: Command| #[trigger] c.name() != name@,
            },
    {
        let all = commands();
        let mut i: usize = 0;
        while i < all.len()
            invariant
                i <= all.len(),
                all@ == listed(),
                forall|j: int| 0 <= j < i ==> (#[trigger] listed()[j]).name() != name@,
            decreases all.len() - i,
        {
            if str_eq(all[i].as_str(), name) {
                return Some(all[i]);
            }
            i += 1;
        }
        assert forall|c: Command| #[trigger] c.name() != name@ by {
            assert(listed()[c.index()] == c);
        }
        None
    }
}

/// The supported commands, in the order in which they are listed.
pub open spec fn listed() -> Seq<Command> {
    seq![
        Command::Status,
        Command::Notebooks,
        Command::Add,
        Command::Show,
        Command::Edit,
        Command::Delete,
        Command::Move,
        Command::List,
        Command::Search,
        Command::Todo,
        Command::Do,
        Command::Undo,
        Command::Tasks,
        Command::Bookmark,
        Command::Folders,
        Command::Mkdir,
        Command::Import,
    ]
}

/// The supported commands, in the order in which they are listed.
pub fn commands() -> (all: Vec<Command>)
    ensures
        all@ == listed(),
{
    let mut all: Vec<Command> = Vec::new();
    all.push(Command::Status);
    all.push(Command::Notebooks);
    all.push(Command::Add);
    all.push(Command::Show);
    all.push(Command::Edit);
    all.push(Command::Delete);
    all.push(Command::Move);
    all.push(Command::List);
    all.push(Command::Search);
    all.push(Command::Todo);
    all.push(Command::Do);
    all.push(Command::Undo);
    all.push(Command::Tasks);
    all.push(Command::Bookmark);
    all.push(Command::Folders);
    all.push(Command::Mkdir);
    all.push(Command::Import);
    assert(all@ =~= listed());
    all
}

/// Every command is listed, once, at its place.
pub proof fn lemma_every_command_listed(c: Command)
    ensures
        0 <= c.index() < listed().len(),
        listed()[c.index()] == c,
        forall|i: int| 0 <= i < listed().len() && listed()[i] == c ==> i == c.index(),
{
    assert forall|i: int| 0 <= i < listed().len() && listed()[i] == c implies i == c.index() by {
        assert(listed()[i].index() == i);
    }
}

/// The length and the first two characters of a command's name. They tell
/// the names apart.
pub open spec fn name_key(c: Command) -> (nat, char, char) {
    match c {
        Command::Status => (6, 's', 't'),
        Command::Notebooks => (9, 'n', 'o'),
        Command::Add => (3, 'a', 'd'),
        Command::Show => (4, 's', 'h'),
        Command::Edit => (4, 'e', 'd'),
        Command::Delete => (6, 'd', 'e'),
        Command::Move => (4, 'm', 'o'),
        Command::List => (4, 'l', 'i'),
        Command::Search => (6, 's', 'e'),
        Command::Todo => (4, 't', 'o'),
        Command::Do => (2, 'd', 'o'),
        Command::Undo => (4, 'u', 'n'),
        Command::Tasks => (5, 't', 'a'),
        Command::Bookmark => (8, 'b', 'o'),
        Command::Folders => (7, 'f', 'o'),
        Command::Mkdir => (5, 'm', 'k'),
        Command::Import => (6, 'i', 'm'),
    }
}

proof fn lemma_name_key(c: Command)
    ensures
        name_key(c) == (c.name().len(), c.name()[0], c.name()[1]),
{
    match c {
        Command::Status => {
            reveal_strlit("status");
            assert(c.name().len() == 6 && c.name()[0] == 's' && c.name()[1] == 't');
        },
        Command::Notebooks => {
            reveal_strlit("notebooks");
            assert(c.name().len() == 9 && c.name()[0] == 'n' && c.name()[1] == 'o');
        },
        Command::Add => {
            reveal_strlit("add");
            assert(c.name().len() == 3 && c.name()[0] == 'a' && c.name()[1] == 'd');
        },
        Command::Show => {
            reveal_strlit("show");
            assert(c.name().len() == 4 && c.name()[0] == 's' && c.name()[1] == 'h');
        },
        Command::Edit => {
            reveal_strlit("edit");
            assert(c.name().len() == 4 && c.name()[0] == 'e' && c.name()[1] == 'd');
        },
        Command::Delete => {
            reveal_strlit("delete");
            assert(c.name().len() == 6 && c.name()[0] == 'd' && c.name()[1] == 'e');
        },
        Command::Move => {
            reveal_strlit("move");
            assert(c.name().len() == 4 && c.name()[0] == 'm' && c.name()[1] == 'o');
        },
        Command::List => {
            reveal_strlit("list");
            assert(c.name().len() == 4 && c.name()[0] == 'l' && c.name()[1] == 'i');
        },
        Command::Search => {
            reveal_strlit("search");
            assert(c.name().len() == 6 && c.name()[0] == 's' && c.name()[1] == 'e');
        },
        Command::Todo => {
            reveal_strlit("todo");
            assert(c.name().len() == 4 && c.name()[0] == 't' && c.name()[1] == 'o');
        },
        Command::Do => {
            reveal_strlit("do");
            assert(c.name().len() == 2 && c.name()[0] == 'd' && c.name()[1] == 'o');
        },
        Command::Undo => {
            reveal_strlit("undo");
            assert(c.name().len() == 4 && c.name()[0] == 'u' && c.name()[1] == 'n');
        },
        Command::Tasks => {
            reveal_strlit("tasks");
            assert(c.name().len() == 5 && c.name()[0] == 't' && c.name()[1] == 'a');
        },
        Command::Bookmark => {
            reveal_strlit("bookmark");
            assert(c.name().len() == 8 && c.name()[0] == 'b' && c.name()[1] == 'o');
        },
        Command::Folders => {
            reveal_strlit("folders");
            assert(c.name().len() == 7 && c.name()[0] == 'f' && c.name()[1] == 'o');
        },
        Command::Mkdir => {
            reveal_strlit("mkdir");
            assert(c.name().len() == 5 && c.name()[0] == 'm' && c.name()[1] == 'k');
        },
        Command::Import => {
            reveal_strlit("import");
            assert(c.name().len() == 6 && c.name()[0] == 'i' && c.name()[1] == 'm');
        },
    }
}

/// No two commands share a name.
pub proof fn lemma_names_distinct(a: Command, b: Command)
    requires
        a.name() == b.name(),
    ensures
        a == b,
{
    lemma_name_key(a);
    lemma_name_key(b);
}

} // verus!
