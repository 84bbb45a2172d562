//! The typed arguments of each command. Every field but the required
//! content, identifiers and URLs is optional; what a caller leaves out is
//! absent, empty or false.

use crate::command::Command;
use vstd::prelude::*;

verus! {

/// Arguments of `status`.
#[derive(Debug, Clone, PartialEq, Eq)]
pub struct StatusArgs {
    /// Notebook to check (the default one if absent).
    pub notebook: Option<String>,
}

impl StatusArgs {
    /// Nothing is set.
    pub open spec fn is_blank(&self) -> bool {
        self.notebook is None
    }
}

impl Default for StatusArgs {
    /// The arguments of a caller that gave none.
    fn default() -> (args: StatusArgs)
        ensures
            args.is_blank(),
    {
        StatusArgs { notebook: None }
    }
}

/// Arguments of `add`.
#[derive(Debug, Clone, PartialEq, Eq)]
pub struct AddArgs {
    /// Title of the note.
    pub title: Option<String>,
    /// Content of the note.
    pub content: String,
    /// Tags to apply, with or without `#`.
    pub tags: Vec<String>,
    /// Folder to create the note in.
    pub folder: Option<String>,
    /// Notebook to add to (the default one if absent).
    pub notebook: Option<String>,
}

impl AddArgs {
    /// Nothing is set.
    pub open spec fn is_blank(&self) -> bool {
        self.title is None
            && self.content@.len() == 0
            && self.tags@.len() == 0
            && self.folder is None
            && self.notebook is None
    }
}

impl Default for AddArgs {
    /// The arguments of a caller that gave none.
    fn default() -> (args: AddArgs)
        ensures
            args.is_blank(),
    {
        AddArgs { title: None, content: String::new(), tags: Vec::new(), folder: None, notebook: None }
    }
}

/// Arguments of `show`.
#[derive(Debug, Clone, PartialEq, Eq)]
pub struct ShowArgs {
    /// Id, file name or title of the note.
    pub id: String,
    /// Notebook to read from (the default one if absent).
    pub notebook: Option<String>,
}

impl ShowArgs {
    /// Nothing is set.
    pub open spec fn is_blank(&self) -> bool {
        self.id@.len() == 0
            && self.notebook is None
    }
}

impl Default for ShowArgs {
    /// The arguments of a caller that gave none.
    fn default() -> (args: ShowArgs)
        ensures
            args.is_blank(),
    {
        ShowArgs { id: String::new(), notebook: None }
    }
}

/// Arguments of `edit`.
#[derive(Debug, Clone, PartialEq, Eq)]
pub struct EditArgs {
    /// Id, file name or title of the note.
    pub id: String,
    /// New content, which replaces the old.
    pub content: String,
    /// Notebook that holds the note (the default one if absent).
    pub notebook: Option<String>,
}

impl EditArgs {
    /// Nothing is set.
    pub open spec fn is_blank(&self) -> bool {
        self.id@.len() == 0
            && self.content@.len() == 0
            && self.notebook is None
    }
}

impl Default for EditArgs {
    /// The arguments of a caller that gave none.
    fn default() -> (args: EditArgs)
        ensures
            args.is_blank(),
    {
        EditArgs { id: String::new(), content: String::new(), notebook: None }
    }
}

/// Arguments of `delete`.
#[derive(Debug, Clone, PartialEq, Eq)]
pub struct DeleteArgs {
    /// Id, file name or title of the note.
    pub id: String,
    /// Must be true for the note to be deleted.
    pub confirm: bool,
    /// Notebook that holds the note (the default one if absent).
    pub notebook: Option<String>,
}

impl DeleteArgs {
    /// Nothing is set.
    pub open spec fn is_blank(&self) -> bool {
        self.id@.len() == 0
            && !self.confirm
            && self.notebook is None
    }
}

impl Default for DeleteArgs {
    /// The arguments of a caller that gave none.
    fn default() -> (args: DeleteArgs)
        ensures
            args.is_blank(),
    {
        DeleteArgs { id: String::new(), confirm: false, notebook: None }
    }
}

/// Arguments of `move`.
#[derive(Debug, Clone, PartialEq, Eq)]
pub struct MoveArgs {
    /// Id, file name or title of the note.
    pub id: String,
    /// New name or place of the note.
    pub destination: String,
    /// Notebook that holds the note (the default one if absent).
    pub notebook: Option<String>,
}

impl MoveArgs {
    /// Nothing is set.
    pub open spec fn is_blank(&self) -> bool {
        self.id@.len() == 0
            && self.destination@.len() == 0
            && self.notebook is None
    }
}

impl Default for MoveArgs {
    /// The arguments of a caller that gave none.
    fn default() -> (args: MoveArgs)
        ensures
            args.is_blank(),
    {
        MoveArgs { id: String::new(), destination: String::new(), notebook: None }
    }
}

/// Arguments of `list`.
#[derive(Debug, Clone, PartialEq, Eq)]
pub struct ListArgs {
    /// Folder to list (the root if absent).
    pub folder: Option<String>,
    /// Tags to filter by, with or without `#`.
    pub tags: Vec<String>,
    /// Greatest number of items to return.
    pub limit: Option<u32>,
    /// Notebook to list from (the default one if absent).
    pub notebook: Option<String>,
}

impl ListArgs {
    /// Nothing is set.
    pub open spec fn is_blank(&self) -> bool {
        self.folder is None
            && self.tags@.len() == 0
            && self.limit is None
            && self.notebook is None
    }
}

impl Default for ListArgs {
    /// The arguments of a caller that gave none.
    fn default() -> (args: ListArgs)
        ensures
            args.is_blank(),
    {
        ListArgs { folder: None, tags: Vec::new(), limit: None, notebook: None }
    }
}

/// Arguments of `search`.
#[derive(Debug, Clone, PartialEq, Eq)]
pub struct SearchArgs {
    /// What to search for.
    pub query: String,
    /// Tags to filter by, with or without `#`.
    pub tags: Vec<String>,
    /// Folder to search in (the whole notebook if absent).
    pub folder: Option<String>,
    /// Notebook to search in (the default one if absent).
    pub notebook: Option<String>,
}

impl SearchArgs {
    /// Nothing is set.
    pub open spec fn is_blank(&self) -> bool {
        self.query@.len() == 0
            && self.tags@.len() == 0
            && self.folder is None
            && self.notebook is None
    }
}

impl Default for SearchArgs {
    /// The arguments of a caller that gave none.
    fn default() -> (args: SearchArgs)
        ensures
            args.is_blank(),
    {
        SearchArgs { query: String::new(), tags: Vec::new(), folder: None, notebook: None }
    }
}

/// Arguments of `todo`.
#[derive(Debug, Clone, PartialEq, Eq)]
pub struct TodoArgs {
    /// Description of the todo item.
    pub description: String,
    /// Tags to apply, with or without `#`.
    pub tags: Vec<String>,
    /// Folder to create the item in.
    pub folder: Option<String>,
    /// Notebook to add to (the default one if absent).
    pub notebook: Option<String>,
}

impl TodoArgs {
    /// Nothing is set.
    pub open spec fn is_blank(&self) -> bool {
        self.description@.len() == 0
            && self.tags@.len() == 0
            && self.folder is None
            && self.notebook is None
    }
}

impl Default for TodoArgs {
    /// The arguments of a caller that gave none.
    fn default() -> (args: TodoArgs)
        ensures
            args.is_blank(),
    {
        TodoArgs { description: String::new(), tags: Vec::new(), folder: None, notebook: None }
    }
}

/// Arguments of `do` and `undo`.
#[derive(Debug, Clone, PartialEq, Eq)]
pub struct TaskIdArgs {
    /// Id of the todo item.
    pub id: String,
    /// Notebook that holds the item (the default one if absent).
    pub notebook: Option<String>,
}

impl TaskIdArgs {
    /// Nothing is set.
    pub open spec fn is_blank(&self) -> bool {
        self.id@.len() == 0
            && self.notebook is None
    }
}

impl Default for TaskIdArgs {
    /// The arguments of a caller that gave none.
    fn default() -> (args: TaskIdArgs)
        ensures
            args.is_blank(),
    {
        TaskIdArgs { id: String::new(), notebook: None }
    }
}

/// Arguments of `tasks`.
#[derive(Debug, Clone, PartialEq, Eq)]
pub struct TasksArgs {
    /// Folder to list (the whole notebook if absent).
    pub folder: Option<String>,
    /// Notebook to list from (the default one if absent).
    pub notebook: Option<String>,
}

impl TasksArgs {
    /// Nothing is set.
    pub open spec fn is_blank(&self) -> bool {
        self.folder is None
            && self.notebook is None
    }
}

impl Default for TasksArgs {
    /// The arguments of a caller that gave none.
    fn default() -> (args: TasksArgs)
        ensures
            args.is_blank(),
    {
        TasksArgs { folder: None, notebook: None }
    }
}

/// Arguments of `bookmark`.
#[derive(Debug, Clone, PartialEq, Eq)]
pub struct BookmarkArgs {
    /// URL to bookmark.
    pub url: String,
    /// Title of the bookmark.
    pub title: Option<String>,
    /// Tags to apply, with or without `#`.
    pub tags: Vec<String>,
    /// Comment or description.
    pub comment: Option<String>,
    /// Folder to create the bookmark in.
    pub folder: Option<String>,
    /// Notebook to add to (the default one if absent).
    pub notebook: Option<String>,
}

impl BookmarkArgs {
    /// Nothing is set.
    pub open spec fn is_blank(&self) -> bool {
        self.url@.len() == 0
            && self.title is None
            && self.tags@.len() == 0
            && self.comment is None
            && self.folder is None
            && self.notebook is None
    }
}

impl Default for BookmarkArgs {
    /// The arguments of a caller that gave none.
    fn default() -> (args: BookmarkArgs)
        ensures
            args.is_blank(),
    {
        BookmarkArgs { url: String::new(), title: None, tags: Vec::new(), comment: None, folder: None, notebook: None }
    }
}

/// Arguments of `folders`.
#[derive(Debug, Clone, PartialEq, Eq)]
pub struct FoldersArgs {
    /// Folder to list (the root if absent).
    pub parent: Option<String>,
    /// Notebook to list from (the default one if absent).
    pub notebook: Option<String>,
}

impl FoldersArgs {
    /// Nothing is set.
    pub open spec fn is_blank(&self) -> bool {
        self.parent is None
            && self.notebook is None
    }
}

impl Default for FoldersArgs {
    /// The arguments of a caller that gave none.
    fn default() -> (args: FoldersArgs)
        ensures
            args.is_blank(),
    {
        FoldersArgs { parent: None, notebook: None }
    }
}

/// Arguments of `mkdir`.
#[derive(Debug, Clone, PartialEq, Eq)]
pub struct MkdirArgs {
    /// Path of the folder to create.
    pub path: String,
    /// Notebook to create the folder in (the default one if absent).
    pub notebook: Option<String>,
}

impl MkdirArgs {
    /// Nothing is set.
    pub open spec fn is_blank(&self) -> bool {
        self.path@.len() == 0
            && self.notebook is None
    }
}

impl Default for MkdirArgs {
    /// The arguments of a caller that gave none.
    fn default() -> (args: MkdirArgs)
        ensures
            args.is_blank(),
    {
        MkdirArgs { path: String::new(), notebook: None }
    }
}

/// Arguments of `import`.
#[derive(Debug, Clone, PartialEq, Eq)]
pub struct ImportArgs {
    /// File path or URL to import.
    pub source: String,
    /// Folder to import into (the root if absent).
    pub folder: Option<String>,
    /// File name in the notebook (the name of the source if absent).
    pub filename: Option<String>,
    /// Whether HTML is converted to Markdown.
    pub convert: bool,
    /// Notebook to import into (the default one if absent).
    pub notebook: Option<String>,
}

impl ImportArgs {
    /// Nothing is set.
    pub open spec fn is_blank(&self) -> bool {
        self.source@.len() == 0
            && self.folder is None
            && self.filename is None
            && !self.convert
            && self.notebook is None
    }
}

impl Default for ImportArgs {
    /// The arguments of a caller that gave none.
    fn default() -> (args: ImportArgs)
        ensures
            args.is_blank(),
    {
        ImportArgs { source: String::new(), folder: None, filename: None, convert: false, notebook: None }
    }
}

/// One call: a command with its arguments.
#[derive(Debug, Clone, PartialEq, Eq)]
pub enum CommandArgs {
    Status(StatusArgs),
    Notebooks,
    Add(AddArgs),
    Show(ShowArgs),
    Edit(EditArgs),
    Delete(DeleteArgs),
    Move(MoveArgs),
    List(ListArgs),
    Search(SearchArgs),
    Todo(TodoArgs),
    Do(TaskIdArgs),
    Undo(TaskIdArgs),
    Tasks(TasksArgs),
    Bookmark(BookmarkArgs),
    Folders(FoldersArgs),
    Mkdir(MkdirArgs),
    Import(ImportArgs),
}

impl CommandArgs {
    /// The command that is called.
    pub open spec fn command(&self) -> Command {
        match self {
            CommandArgs::Status(_) => Command::Status,
            CommandArgs::Notebooks => Command::Notebooks,
            CommandArgs::Add(_) => Command::Add,
            CommandArgs::Show(_) => Command::Show,
            CommandArgs::Edit(_) => Command::Edit,
            CommandArgs::Delete(_) => Command::Delete,
            CommandArgs::Move(_) => Command::Move,
            CommandArgs::List(_) => Command::List,
            CommandArgs::Search(_) => Command::Search,
            CommandArgs::Todo(_) => Command::Todo,
            CommandArgs::Do(_) => Command::Do,
            CommandArgs::Undo(_) => Command::Undo,
            CommandArgs::Tasks(_) => Command::Tasks,
            CommandArgs::Bookmark(_) => Command::Bookmark,
            CommandArgs::Folders(_) => Command::Folders,
            CommandArgs::Mkdir(_) => Command::Mkdir,
            CommandArgs::Import(_) => Command::Import,
        }
    }

    /// No argument is set.
    pub open spec fn is_blank(&self) -> bool {
        match self {
            CommandArgs::Status(args) => args.is_blank(),
            CommandArgs::Notebooks => true,
            CommandArgs::Add(args) => args.is_blank(),
            CommandArgs::Show(args) => args.is_blank(),
            CommandArgs::Edit(args) => args.is_blank(),
            CommandArgs::Delete(args) => args.is_blank(),
            CommandArgs::Move(args) => args.is_blank(),
            CommandArgs::List(args) => args.is_blank(),
            CommandArgs::Search(args) => args.is_blank(),
            CommandArgs::Todo(args) => args.is_blank(),
            CommandArgs::Do(args) => args.is_blank(),
            CommandArgs::Undo(args) => args.is_blank(),
            CommandArgs::Tasks(args) => args.is_blank(),
            CommandArgs::Bookmark(args) => args.is_blank(),
            CommandArgs::Folders(args) => args.is_blank(),
            CommandArgs::Mkdir(args) => args.is_blank(),
            CommandArgs::Import(args) => args.is_blank(),
        }
    }

    /// The command that is called.
    pub fn command_called(&self) -> (command: Command)
        ensures
            command == self.command(),
    {
        match self {
            CommandArgs::Status(_) => Command::Status,
            CommandArgs::Notebooks => Command::Notebooks,
            CommandArgs::Add(_) => Command::Add,
            CommandArgs::Show(_) => Command::Show,
            CommandArgs::Edit(_) => Command::Edit,
            CommandArgs::Delete(_) => Command::Delete,
            CommandArgs::Move(_) => Command::Move,
            CommandArgs::List(_) => Command::List,
            CommandArgs::Search(_) => Command::Search,
            CommandArgs::Todo(_) => Command::Todo,
            CommandArgs::Do(_) => Command::Do,
            CommandArgs::Undo(_) => Command::Undo,
            CommandArgs::Tasks(_) => Command::Tasks,
            CommandArgs::Bookmark(_) => Command::Bookmark,
            CommandArgs::Folders(_) => Command::Folders,
            CommandArgs::Mkdir(_) => Command::Mkdir,
            CommandArgs::Import(_) => Command::Import,
        }
    }

    /// The call of `command` by a caller that gave no arguments: every
    /// text is empty, every list is empty, every option is absent and every
    /// flag is false.
    pub fn defaults(command: Command) -> (call: CommandArgs)
        ensures
            call.command() == command,
            call.is_blank(),
    {
        match command {
            Command::Status => CommandArgs::Status(StatusArgs::default()),
            Command::Notebooks => CommandArgs::Notebooks,
            Command::Add => CommandArgs::Add(AddArgs::default()),
            Command::Show => CommandArgs::Show(ShowArgs::default()),
            Command::Edit => CommandArgs::Edit(EditArgs::default()),
            Command::Delete => CommandArgs::Delete(DeleteArgs::default()),
            Command::Move => CommandArgs::Move(MoveArgs::default()),
            Command::List => CommandArgs::List(ListArgs::default()),
            Command::Search => CommandArgs::Search(SearchArgs::default()),
            Command::Todo => CommandArgs::Todo(TodoArgs::default()),
            Command::Do => CommandArgs::Do(TaskIdArgs::default()),
            Command::Undo => CommandArgs::Undo(TaskIdArgs::default()),
            Command::Tasks => CommandArgs::Tasks(TasksArgs::default()),
            Command::Bookmark => CommandArgs::Bookmark(BookmarkArgs::default()),
            Command::Folders => CommandArgs::Folders(FoldersArgs::default()),
            Command::Mkdir => CommandArgs::Mkdir(MkdirArgs::default()),
            Command::Import => CommandArgs::Import(ImportArgs::default()),
        }
    }
}

} // verus!
