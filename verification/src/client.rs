//! The operations on a notebook, each turned into the exact argument vector
//! that the `nb` tool expects.
//!
//! Nothing here runs the tool. Every operation yields an [`Invocation`]: the
//! notebook whose existence has to be ensured first and the arguments to run
//! then; [`crate::session`] says how such an invocation is carried out.

use crate::error::{result_view, NbError, NbErrorView};
use crate::resolver::{default_notebook, resolution, resolved_notebook};
use crate::text::{
    decimal, decimal_string, ends_with_char, join2, join3, opt_str, opt_text, starts_with_char,
    texts, trimmed,
};
use vstd::prelude::*;
use vstd::string::*;

verus! {

/// One planned run of the tool.
#[derive(Debug, Clone, PartialEq, Eq)]
pub struct Invocation {
    /// The notebook that has to exist before the command runs; `None` for a
    /// command that addresses no notebook.
    pub notebook: Option<String>,
    /// The arguments of the command, in order.
    pub args: Vec<String>,
}

/// The model of an [`Invocation`].
pub struct InvocationView {
    pub notebook: Option<Seq<char>>,
    pub args: Seq<Seq<char>>,
}

impl View for Invocation {
    type V = InvocationView;

    open spec fn view(&self) -> InvocationView {
        InvocationView { notebook: opt_text(self.notebook), args: texts(self.args@) }
    }
}

/// The plan of an operation on the resolved notebook `name`: the arguments
/// that `args` builds for it, or a configuration error where no name is
/// resolved.
pub open spec fn planned(name: Option<Seq<char>>, args: spec_fn(Seq<char>) -> Seq<Seq<char>>)
    -> Result<InvocationView, NbErrorView> {
    match name {
        Some(notebook) => Ok(InvocationView { notebook: Some(notebook), args: args(notebook) }),
        None => Err(NbErrorView::Configuration),
    }
}

/// A tag with the marker `#` in front, which is added unless it is there.
pub open spec fn normalized_tag(tag: Seq<char>) -> Seq<char> {
    if tag.len() > 0 && tag[0] == '#' {
        tag
    } else {
        seq!['#'] + tag
    }
}

/// Normalizing a tag never doubles the marker: a normalized tag is its own
/// normal form.
pub proof fn lemma_normalized_tag_idempotent(tag: Seq<char>)
    ensures
        normalized_tag(normalized_tag(tag)) == normalized_tag(tag),
        normalized_tag(tag).len() > 0,
        normalized_tag(tag)[0] == '#',
{
}

/// A tag that carries the marker is not altered.
pub proof fn lemma_marked_tag_unchanged(tag: Seq<char>)
    requires
        tag.len() > 0,
        tag[0] == '#',
    ensures
        normalized_tag(tag) == tag,
{
}

/// One occurrence of `flag` with the normalized tag, for each tag in order.
pub open spec fn tag_args(flag: Seq<char>, tags: Seq<Seq<char>>) -> Seq<Seq<char>>
    decreases tags.len(),
{
    if tags.len() == 0 {
        seq![]
    } else {
        tag_args(flag, tags.drop_last()) + seq![flag, normalized_tag(tags.last())]
    }
}

/// Tags come out pairwise: the flag at each even place, the normalized tag
/// after it.
pub proof fn lemma_tag_args_layout(flag: Seq<char>, tags: Seq<Seq<char>>)
    ensures
        tag_args(flag, tags).len() == 2 * tags.len(),
        forall|i: int|
            0 <= i < tags.len() ==> #[trigger] tag_args(flag, tags)[2 * i] == flag && tag_args(
                flag,
                tags,
            )[2 * i + 1] == normalized_tag(tags[i]),
    decreases tags.len(),
{
    if tags.len() > 0 {
        lemma_tag_args_layout(flag, tags.drop_last());
    }
}

/// A flag with its value, where the value is present.
pub open spec fn option_args(flag: Seq<char>, value: Option<Seq<char>>) -> Seq<Seq<char>> {
    match value {
        Some(v) => seq![flag, v],
        None => seq![],
    }
}

/// The token that addresses a notebook, or a folder in it.
pub open spec fn scope(notebook: Seq<char>, folder: Option<Seq<char>>) -> Seq<char> {
    match folder {
        Some(f) => notebook + ":"@ + f + "/"@,
        None => notebook + ":"@,
    }
}

/// The token that addresses one note of a notebook.
pub open spec fn selector(notebook: Seq<char>, id: Seq<char>) -> Seq<char> {
    notebook + ":"@ + id
}

/// A folder path that ends in `/`.
pub open spec fn as_directory(folder: Seq<char>) -> Seq<char> {
    if folder.len() > 0 && folder.last() == '/' {
        folder
    } else {
        folder + "/"@
    }
}

/// The arguments that show the status of a notebook.
pub open spec fn status_args(notebook: Seq<char>) -> Seq<Seq<char>> {
    seq![notebook + ":"@, "status"@]
}

/// The arguments that list the notebooks, without colors.
pub open spec fn notebooks_args() -> Seq<Seq<char>> {
    seq!["notebooks"@, "--no-color"@]
}

/// The arguments that print the path of a notebook.
pub open spec fn notebook_path_args(notebook: Seq<char>) -> Seq<Seq<char>> {
    seq!["notebooks"@, "show"@, notebook, "--path"@]
}

/// The arguments that create a note: title, content, tags and folder, in
/// this order, behind the command that names the notebook.
pub open spec fn add_args(
    notebook: Seq<char>,
    title: Option<Seq<char>>,
    content: Seq<char>,
    tags: Seq<Seq<char>>,
    folder: Option<Seq<char>>,
) -> Seq<Seq<char>> {
    seq![notebook + ":add"@] + option_args("--title"@, title) + seq!["--content"@, content]
        + tag_args("--tags"@, tags) + option_args("--folder"@, folder)
}

/// The arguments that show a note, without colors.
pub open spec fn show_args(notebook: Seq<char>, id: Seq<char>) -> Seq<Seq<char>> {
    seq!["show"@, selector(notebook, id), "--no-color"@]
}

/// The arguments that list notes: the scope, no colors, then the limit and
/// the tags.
pub open spec fn list_args(
    notebook: Seq<char>,
    folder: Option<Seq<char>>,
    tags: Seq<Seq<char>>,
    limit: Option<u32>,
) -> Seq<Seq<char>> {
    seq!["list"@, scope(notebook, folder), "--no-color"@] + (match limit {
        Some(n) => seq!["-n"@, decimal(n as nat)],
        None => seq![],
    }) + tag_args("--tags"@, tags)
}

/// The arguments that search notes: the scope, the query, the tags, and no
/// colors at the end.
pub open spec fn search_args(
    notebook: Seq<char>,
    query: Seq<char>,
    tags: Seq<Seq<char>>,
    folder: Option<Seq<char>>,
) -> Seq<Seq<char>> {
    seq!["search"@, scope(notebook, folder), query] + tag_args("--tag"@, tags) + seq![
        "--no-color"@,
    ]
}

/// The arguments that replace the content of a note.
pub open spec fn edit_args(notebook: Seq<char>, id: Seq<char>, content: Seq<char>) -> Seq<
    Seq<char>,
> {
    seq!["edit"@, selector(notebook, id), "--content"@, content]
}

/// The arguments that delete a note without asking back.
pub open spec fn delete_args(notebook: Seq<char>, id: Seq<char>) -> Seq<Seq<char>> {
    seq!["delete"@, selector(notebook, id), "--force"@]
}

/// The arguments that move or rename a note without asking back.
pub open spec fn move_args(notebook: Seq<char>, id: Seq<char>, destination: Seq<char>) -> Seq<
    Seq<char>,
> {
    seq!["move"@, selector(notebook, id), destination, "--force"@]
}

/// The arguments that create a todo item: the folder as a directory path,
/// if there is one, then the description and the tags.
pub open spec fn todo_args(
    notebook: Seq<char>,
    description: Seq<char>,
    tags: Seq<Seq<char>>,
    folder: Option<Seq<char>>,
) -> Seq<Seq<char>> {
    seq![notebook + ":todo"@, "add"@] + (match folder {
        Some(f) => seq![as_directory(f)],
        None => seq![],
    }) + seq![description] + tag_args("--tags"@, tags)
}

/// The arguments that mark a todo item as done.
pub open spec fn do_args(notebook: Seq<char>, id: Seq<char>) -> Seq<Seq<char>> {
    seq!["do"@, selector(notebook, id)]
}

/// The arguments that mark a todo item as not done.
pub open spec fn undo_args(notebook: Seq<char>, id: Seq<char>) -> Seq<Seq<char>> {
    seq!["undo"@, selector(notebook, id)]
}

/// The arguments that list todo items, without colors.
pub open spec fn tasks_args(notebook: Seq<char>, folder: Option<Seq<char>>) -> Seq<Seq<char>> {
    seq!["tasks"@, scope(notebook, folder), "--no-color"@]
}

/// The arguments that save a bookmark: the URL, then title, comment and
/// tags, behind the command that names the notebook and the folder.
pub open spec fn bookmark_args(
    notebook: Seq<char>,
    url: Seq<char>,
    title: Option<Seq<char>>,
    tags: Seq<Seq<char>>,
    comment: Option<Seq<char>>,
    folder: Option<Seq<char>>,
) -> Seq<Seq<char>> {
    seq![scope(notebook, folder) + "bookmark"@, url] + option_args("--title"@, title)
        + option_args("--comment"@, comment) + tag_args("--tags"@, tags)
}

/// The arguments that list the folders of a scope, without colors.
pub open spec fn folders_args(notebook: Seq<char>, parent: Option<Seq<char>>) -> Seq<Seq<char>> {
    seq!["list"@, scope(notebook, parent), "--type"@, "folder"@, "--no-color"@]
}

/// The arguments that create a folder; the path ends in `/` to mark it as
/// a directory.
pub open spec fn mkdir_args(notebook: Seq<char>, path: Seq<char>) -> Seq<Seq<char>> {
    seq!["add"@, "folder"@, notebook + ":"@ + path + "/"@]
}

/// Where an import goes: `folder/filename`, `folder/`, the bare `filename`,
/// or nowhere in particular.
pub open spec fn import_destination(folder: Option<Seq<char>>, filename: Option<Seq<char>>)
    -> Option<Seq<char>> {
    match (folder, filename) {
        (Some(f), Some(n)) => Some(f + "/"@ + n),
        (Some(f), None) => Some(f + "/"@),
        (None, Some(n)) => Some(n),
        (None, None) => None,
    }
}

/// The arguments that import a source: the conversion flag if asked for,
/// then the destination if there is one.
pub open spec fn import_args(
    notebook: Seq<char>,
    source: Seq<char>,
    folder: Option<Seq<char>>,
    filename: Option<Seq<char>>,
    convert: bool,
) -> Seq<Seq<char>> {
    seq![notebook + ":import"@, source] + (if convert {
        seq!["--convert"@]
    } else {
        seq![]
    }) + (match import_destination(folder, filename) {
        Some(destination) => seq![destination],
        None => seq![],
    })
}

/// Puts the marker `#` in front of a tag unless it is there.
pub fn normalize_tag(tag: &str) -> (out: String)
    ensures
        out@ == normalized_tag(tag@),
{
    if starts_with_char(tag, '#') {
        tag.to_owned()
    } else {
        proof {
            reveal_strlit("#");
            assert("#"@ =~= seq!['#']);
        }
        join2("#", tag)
    }
}

fn push_owned(args: &mut Vec<String>, text: String)
    ensures
        texts(final(args)@) == texts(old(args)@).push(text@),
{
    args.push(text);
    assert(texts(args@) =~= texts(old(args)@).push(text@));
}

fn push_str(args: &mut Vec<String>, text: &str)
    ensures
        texts(final(args)@) == texts(old(args)@).push(text@),
{
    push_owned(args, text.to_owned());
}

fn push_option(args: &mut Vec<String>, flag: &str, value: Option<&str>)
    ensures
        texts(final(args)@) == texts(old(args)@) + option_args(flag@, opt_str(value)),
{
    if let Some(v) = value {
        push_str(args, flag);
        push_str(args, v);
        assert(texts(args@) =~= texts(old(args)@) + seq![flag@, v@]);
    } else {
        assert(texts(args@) =~= texts(old(args)@) + Seq::<Seq<char>>::empty());
    }
}

fn push_tags(args: &mut Vec<String>, flag: &str, tags: &[String])
    ensures
        texts(final(args)@) == texts(old(args)@) + tag_args(flag@, texts(tags@)),
{
    let ghost start = texts(args@);
    let mut i: usize = 0;
    assert(texts(tags@).take(0) =~= Seq::<Seq<char>>::empty());
    assert(texts(args@) =~= start + tag_args(flag@, texts(tags@).take(0)));
    while i < tags.len()
        invariant
            i <= tags.len(),
            texts(args@) == start + tag_args(flag@, texts(tags@).take(i as int)),
        decreases tags.len() - i,
    {
        let ghost before = texts(tags@).take(i as int);
        push_str(args, flag);
        push_owned(args, normalize_tag(tags[i].as_str()));
        i += 1;
        proof {
            let now = texts(tags@).take(i as int);
            assert(now.drop_last() =~= before);
            assert(now.last() == tags@[i - 1]@);
            assert(texts(args@) =~= start + tag_args(flag@, now));
        }
    }
    assert(texts(tags@).take(tags.len() as int) =~= texts(tags@));
}

fn make_scope(notebook: &str, folder: Option<&str>) -> (out: String)
    ensures
        out@ == scope(notebook@, opt_str(folder)),
{
    match folder {
        Some(f) => {
            let mut out = join3(notebook, ":", f);
            out.append("/");
            out
        },
        None => join2(notebook, ":"),
    }
}

fn make_selector(notebook: &str, id: &str) -> (out: String)
    ensures
        out@ == selector(notebook@, id@),
{
    join3(notebook, ":", id)
}

/// Client of the `nb` tool: holds the default notebook and whether missing
/// notebooks are created.
#[derive(Debug, Clone)]
pub struct NbClient {
    /// Notebook to use where a call names none.
    default_notebook: Option<String>,
    /// Whether a missing notebook is created.
    create_notebook: bool,
}

impl NbClient {
    /// The default notebook of this client.
    pub closed spec fn default_name(&self) -> Option<Seq<char>> {
        opt_text(self.default_notebook)
    }

    /// Whether this client creates missing notebooks.
    pub closed spec fn creates_notebooks(&self) -> bool {
        self.create_notebook
    }

    /// The notebook that a call with the argument `explicit` addresses.
    pub open spec fn resolved(&self, explicit: Option<Seq<char>>) -> Option<Seq<char>> {
        resolved_notebook(explicit, self.default_name())
    }

    /// Creates a client. The default notebook is the one named on the
    /// command line (`cli_notebook`), else the one named in the environment
    /// (`env_notebook`), else the one derived from the Git repository
    /// (`git_notebook`).
    pub fn new(
        cli_notebook: Option<&str>,
        env_notebook: Option<&str>,
        git_notebook: Option<&str>,
        create_notebook: bool,
    ) -> (client: NbClient)
        ensures
            client.default_name() == default_notebook(
                opt_str(cli_notebook),
                opt_str(env_notebook),
                opt_str(git_notebook),
            ),
            client.creates_notebooks() == create_notebook,
    {
        let chosen = match cli_notebook {
            Some(name) => Some(name),
            None => match env_notebook {
                Some(name) => Some(name),
                None => git_notebook,
            },
        };
        let default_notebook = match chosen {
            Some(name) => Some(name.to_owned()),
            None => None,
        };
        NbClient { default_notebook, create_notebook }
    }

    /// The default notebook, if there is one.
    pub fn default_notebook(&self) -> (name: Option<&str>)
        ensures
            opt_str(name) == self.default_name(),
    {
        match &self.default_notebook {
            Some(name) => Some(name.as_str()),
            None => None,
        }
    }

    /// Whether a missing notebook is created.
    pub fn create_notebook(&self) -> (create: bool)
        ensures
            create == self.creates_notebooks(),
    {
        self.create_notebook
    }

    /// Resolves the notebook of one call: the argument of the call if there
    /// is one, else the default of the client; a configuration error where
    /// there is neither.
    pub fn resolve_notebook_name(&self, notebook: Option<&str>) -> (name: Result<String, NbError>)
        ensures
            result_view(name) == resolution(opt_str(notebook), self.default_name()),
    {
        if let Some(name) = notebook {
            return Ok(name.to_owned());
        }
        if let Some(name) = &self.default_notebook {
            return Ok(name.clone());
        }
        Err(NbError::Configuration)
    }

    /// Creates a note.
    pub fn add(
        &self,
        title: Option<&str>,
        content: &str,
        tags: &[String],
        folder: Option<&str>,
        notebook: Option<&str>,
    ) -> (plan: Result<Invocation, NbError>)
        ensures
            result_view(plan) == planned(
                self.resolved(opt_str(notebook)),
                |nb: Seq<char>| add_args(nb, opt_str(title), content@, texts(tags@), opt_str(folder)),
            ),
    {
        let notebook = match self.resolve_notebook_name(notebook) {
            Ok(name) => name,
            Err(e) => { return Err(e); },
        };
        let mut args: Vec<String> = Vec::new();
        push_owned(&mut args, join2(notebook.as_str(), ":add"));
        push_option(&mut args, "--title", title);
        push_str(&mut args, "--content");
        push_str(&mut args, content);
        push_tags(&mut args, "--tags", tags);
        push_option(&mut args, "--folder", folder);
        assert(texts(args@) =~= add_args(
            notebook@,
            opt_str(title),
            content@,
            texts(tags@),
            opt_str(folder),
        ));
        Ok(Invocation { notebook: Some(notebook), args })
    }

    /// Shows the status of the notebook.
    pub fn status(&self, notebook: Option<&str>) -> (plan: Result<Invocation, NbError>)
        ensures
            result_view(plan) == planned(
                self.resolved(opt_str(notebook)),
                |nb: Seq<char>| status_args(nb),
            ),
    {
        let notebook = match self.resolve_notebook_name(notebook) {
            Ok(name) => name,
            Err(e) => { return Err(e); },
        };
        let mut args: Vec<String> = Vec::new();
        push_owned(&mut args, join2(notebook.as_str(), ":"));
        push_str(&mut args, "status");
        assert(texts(args@) =~= status_args(notebook@));
        Ok(Invocation { notebook: Some(notebook), args })
    }

    /// Lists the notebooks. This is the one operation that addresses no
    /// notebook, so none is resolved and none has to exist.
    pub fn notebooks(&self) -> (plan: Result<Invocation, NbError>)
        ensures
            result_view(plan) == Ok::<InvocationView, NbErrorView>(
                InvocationView { notebook: None, args: notebooks_args() },
            ),
    {
        let mut args: Vec<String> = Vec::new();
        push_str(&mut args, "notebooks");
        push_str(&mut args, "--no-color");
        assert(texts(args@) =~= notebooks_args());
        Ok(Invocation { notebook: None, args })
    }

    /// Asks for the path of the notebook. What the tool prints is read by
    /// [`notebook_path_from`].
    pub fn notebook_path(&self, notebook: Option<&str>) -> (plan: Result<Invocation, NbError>)
        ensures
            result_view(plan) == planned(
                self.resolved(opt_str(notebook)),
                |nb: Seq<char>| notebook_path_args(nb),
            ),
    {
        let notebook = match self.resolve_notebook_name(notebook) {
            Ok(name) => name,
            Err(e) => { return Err(e); },
        };
        let mut args: Vec<String> = Vec::new();
        push_str(&mut args, "notebooks");
        push_str(&mut args, "show");
        push_str(&mut args, notebook.as_str());
        push_str(&mut args, "--path");
        assert(texts(args@) =~= notebook_path_args(notebook@));
        Ok(Invocation { notebook: Some(notebook), args })
    }

    /// Shows the content of a note.
    pub fn show(&self, id: &str, notebook: Option<&str>) -> (plan: Result<Invocation, NbError>)
        ensures
            result_view(plan) == planned(
                self.resolved(opt_str(notebook)),
                |nb: Seq<char>| show_args(nb, id@),
            ),
    {
        let notebook = match self.resolve_notebook_name(notebook) {
            Ok(name) => name,
            Err(e) => { return Err(e); },
        };
        let mut args: Vec<String> = Vec::new();
        push_str(&mut args, "show");
        push_owned(&mut args, make_selector(notebook.as_str(), id));
        push_str(&mut args, "--no-color");
        assert(texts(args@) =~= show_args(notebook@, id@));
        Ok(Invocation { notebook: Some(notebook), args })
    }

    /// Lists the notes of a notebook or of a folder in it.
    pub fn list(
        &self,
        folder: Option<&str>,
        tags: &[String],
        limit: Option<u32>,
        notebook: Option<&str>,
    ) -> (plan: Result<Invocation, NbError>)
        ensures
            result_view(plan) == planned(
                self.resolved(opt_str(notebook)),
                |nb: Seq<char>| list_args(nb, opt_str(folder), texts(tags@), limit),
            ),
    {
        let notebook = match self.resolve_notebook_name(notebook) {
            Ok(name) => name,
            Err(e) => { return Err(e); },
        };
        let mut args: Vec<String> = Vec::new();
        push_str(&mut args, "list");
        push_owned(&mut args, make_scope(notebook.as_str(), folder));
        push_str(&mut args, "--no-color");
        if let Some(n) = limit {
            push_str(&mut args, "-n");
            push_owned(&mut args, decimal_string(n));
        }
        push_tags(&mut args, "--tags", tags);
        assert(texts(args@) =~= list_args(notebook@, opt_str(folder), texts(tags@), limit));
        Ok(Invocation { notebook: Some(notebook), args })
    }

    /// Searches the notes.
    pub fn search(
        &self,
        query: &str,
        tags: &[String],
        folder: Option<&str>,
        notebook: Option<&str>,
    ) -> (plan: Result<Invocation, NbError>)
        ensures
            result_view(plan) == planned(
                self.resolved(opt_str(notebook)),
                |nb: Seq<char>| search_args(nb, query@, texts(tags@), opt_str(folder)),
            ),
    {
        let notebook = match self.resolve_notebook_name(notebook) {
            Ok(name) => name,
            Err(e) => { return Err(e); },
        };
        let mut args: Vec<String> = Vec::new();
        push_str(&mut args, "search");
        push_owned(&mut args, make_scope(notebook.as_str(), folder));
        push_str(&mut args, query);
        push_tags(&mut args, "--tag", tags);
        push_str(&mut args, "--no-color");
        assert(texts(args@) =~= search_args(notebook@, query@, texts(tags@), opt_str(folder)));
        Ok(Invocation { notebook: Some(notebook), args })
    }

    /// Replaces the content of a note.
    pub fn edit(&self, id: &str, content: &str, notebook: Option<&str>) -> (plan: Result<
        Invocation,
        NbError,
    >)
        ensures
            result_view(plan) == planned(
                self.resolved(opt_str(notebook)),
                |nb: Seq<char>| edit_args(nb, id@, content@),
            ),
    {
        let notebook = match self.resolve_notebook_name(notebook) {
            Ok(name) => name,
            Err(e) => { return Err(e); },
        };
        let mut args: Vec<String> = Vec::new();
        push_str(&mut args, "edit");
        push_owned(&mut args, make_selector(notebook.as_str(), id));
        push_str(&mut args, "--content");
        push_str(&mut args, content);
        assert(texts(args@) =~= edit_args(notebook@, id@, content@));
        Ok(Invocation { notebook: Some(notebook), args })
    }

    /// Deletes a note, without asking back.
    pub fn delete(&self, id: &str, notebook: Option<&str>) -> (plan: Result<Invocation, NbError>)
        ensures
            result_view(plan) == planned(
                self.resolved(opt_str(notebook)),
                |nb: Seq<char>| delete_args(nb, id@),
            ),
    {
        let notebook = match self.resolve_notebook_name(notebook) {
            Ok(name) => name,
            Err(e) => { return Err(e); },
        };
        let mut args: Vec<String> = Vec::new();
        push_str(&mut args, "delete");
        push_owned(&mut args, make_selector(notebook.as_str(), id));
        push_str(&mut args, "--force");
        assert(texts(args@) =~= delete_args(notebook@, id@));
        Ok(Invocation { notebook: Some(notebook), args })
    }

    /// Moves or renames a note, without asking back.
    pub fn move_note(&self, id: &str, destination: &str, notebook: Option<&str>) -> (plan: Result<
        Invocation,
        NbError,
    >)
        ensures
            result_view(plan) == planned(
                self.resolved(opt_str(notebook)),
                |nb: Seq<char>| move_args(nb, id@, destination@),
            ),
    {
        let notebook = match self.resolve_notebook_name(notebook) {
            Ok(name) => name,
            Err(e) => { return Err(e); },
        };
        let mut args: Vec<String> = Vec::new();
        push_str(&mut args, "move");
        push_owned(&mut args, make_selector(notebook.as_str(), id));
        push_str(&mut args, destination);
        push_str(&mut args, "--force");
        assert(texts(args@) =~= move_args(notebook@, id@, destination@));
        Ok(Invocation { notebook: Some(notebook), args })
    }

    /// Creates a todo item. The folder comes as a path before the
    /// description and ends in `/`.
    pub fn todo(
        &self,
        description: &str,
        tags: &[String],
        folder: Option<&str>,
        notebook: Option<&str>,
    ) -> (plan: Result<Invocation, NbError>)
        ensures
            result_view(plan) == planned(
                self.resolved(opt_str(notebook)),
                |nb: Seq<char>| todo_args(nb, description@, texts(tags@), opt_str(folder)),
            ),
    {
        let notebook = match self.resolve_notebook_name(notebook) {
            Ok(name) => name,
            Err(e) => { return Err(e); },
        };
        let mut args: Vec<String> = Vec::new();
        push_owned(&mut args, join2(notebook.as_str(), ":todo"));
        push_str(&mut args, "add");
        if let Some(f) = folder {
            if ends_with_char(f, '/') {
                push_str(&mut args, f);
            } else {
                push_owned(&mut args, join2(f, "/"));
            }
        }
        push_str(&mut args, description);
        push_tags(&mut args, "--tags", tags);
        assert(texts(args@) =~= todo_args(notebook@, description@, texts(tags@), opt_str(folder)));
        Ok(Invocation { notebook: Some(notebook), args })
    }

    /// Marks a todo item as done.
    pub fn do_task(&self, id: &str, notebook: Option<&str>) -> (plan: Result<Invocation, NbError>)
        ensures
            result_view(plan) == planned(
                self.resolved(opt_str(notebook)),
                |nb: Seq<char>| do_args(nb, id@),
            ),
    {
        let notebook = match self.resolve_notebook_name(notebook) {
            Ok(name) => name,
            Err(e) => { return Err(e); },
        };
        let mut args: Vec<String> = Vec::new();
        push_str(&mut args, "do");
        push_owned(&mut args, make_selector(notebook.as_str(), id));
        assert(texts(args@) =~= do_args(notebook@, id@));
        Ok(Invocation { notebook: Some(notebook), args })
    }

    /// Marks a todo item as not done.
    pub fn undo_task(&self, id: &str, notebook: Option<&str>) -> (plan: Result<Invocation, NbError>)
        ensures
            result_view(plan) == planned(
                self.resolved(opt_str(notebook)),
                |nb: Seq<char>| undo_args(nb, id@),
            ),
    {
        let notebook = match self.resolve_notebook_name(notebook) {
            Ok(name) => name,
            Err(e) => { return Err(e); },
        };
        let mut args: Vec<String> = Vec::new();
        push_str(&mut args, "undo");
        push_owned(&mut args, make_selector(notebook.as_str(), id));
        assert(texts(args@) =~= undo_args(notebook@, id@));
        Ok(Invocation { notebook: Some(notebook), args })
    }

    /// Lists the todo items of a notebook or of a folder in it.
    pub fn tasks(&self, folder: Option<&str>, notebook: Option<&str>) -> (plan: Result<
        Invocation,
        NbError,
    >)
        ensures
            result_view(plan) == planned(
                self.resolved(opt_str(notebook)),
                |nb: Seq<char>| tasks_args(nb, opt_str(folder)),
            ),
    {
        let notebook = match self.resolve_notebook_name(notebook) {
            Ok(name) => name,
            Err(e) => { return Err(e); },
        };
        let mut args: Vec<String> = Vec::new();
        push_str(&mut args, "tasks");
        push_owned(&mut args, make_scope(notebook.as_str(), folder));
        push_str(&mut args, "--no-color");
        assert(texts(args@) =~= tasks_args(notebook@, opt_str(folder)));
        Ok(Invocation { notebook: Some(notebook), args })
    }

    /// Saves a URL as a bookmark.
    pub fn bookmark(
        &self,
        url: &str,
        title: Option<&str>,
        tags: &[String],
        comment: Option<&str>,
        folder: Option<&str>,
        notebook: Option<&str>,
    ) -> (plan: Result<Invocation, NbError>)
        ensures
            result_view(plan) == planned(
                self.resolved(opt_str(notebook)),
                |nb: Seq<char>|
                    bookmark_args(
                        nb,
                        url@,
                        opt_str(title),
                        texts(tags@),
                        opt_str(comment),
                        opt_str(folder),
                    ),
            ),
    {
        let notebook = match self.resolve_notebook_name(notebook) {
            Ok(name) => name,
            Err(e) => { return Err(e); },
        };
        let mut args: Vec<String> = Vec::new();
        let mut command = make_scope(notebook.as_str(), folder);
        command.append("bookmark");
        push_owned(&mut args, command);
        push_str(&mut args, url);
        push_option(&mut args, "--title", title);
        push_option(&mut args, "--comment", comment);
        push_tags(&mut args, "--tags", tags);
        assert(texts(args@) =~= bookmark_args(
            notebook@,
            url@,
            opt_str(title),
            texts(tags@),
            opt_str(comment),
            opt_str(folder),
        ));
        Ok(Invocation { notebook: Some(notebook), args })
    }

    /// Lists the folders of a notebook or of a folder in it.
    pub fn folders(&self, parent: Option<&str>, notebook: Option<&str>) -> (plan: Result<
        Invocation,
        NbError,
    >)
        ensures
            result_view(plan) == planned(
                self.resolved(opt_str(notebook)),
                |nb: Seq<char>| folders_args(nb, opt_str(parent)),
            ),
    {
        let notebook = match self.resolve_notebook_name(notebook) {
            Ok(name) => name,
            Err(e) => { return Err(e); },
        };
        let mut args: Vec<String> = Vec::new();
        push_str(&mut args, "list");
        push_owned(&mut args, make_scope(notebook.as_str(), parent));
        push_str(&mut args, "--type");
        push_str(&mut args, "folder");
        push_str(&mut args, "--no-color");
        assert(texts(args@) =~= folders_args(notebook@, opt_str(parent)));
        Ok(Invocation { notebook: Some(notebook), args })
    }

    /// Creates a folder.
    pub fn mkdir(&self, path: &str, notebook: Option<&str>) -> (plan: Result<Invocation, NbError>)
        ensures
            result_view(plan) == planned(
                self.resolved(opt_str(notebook)),
                |nb: Seq<char>| mkdir_args(nb, path@),
            ),
    {
        let notebook = match self.resolve_notebook_name(notebook) {
            Ok(name) => name,
            Err(e) => { return Err(e); },
        };
        let mut args: Vec<String> = Vec::new();
        push_str(&mut args, "add");
        push_str(&mut args, "folder");
        let mut target = join3(notebook.as_str(), ":", path);
        target.append("/");
        push_owned(&mut args, target);
        assert(texts(args@) =~= mkdir_args(notebook@, path@));
        Ok(Invocation { notebook: Some(notebook), args })
    }

    /// Imports a file or a URL into the notebook.
    pub fn import(
        &self,
        source: &str,
        folder: Option<&str>,
        filename: Option<&str>,
        convert: bool,
        notebook: Option<&str>,
    ) -> (plan: Result<Invocation, NbError>)
        ensures
            result_view(plan) == planned(
                self.resolved(opt_str(notebook)),
                |nb: Seq<char>|
                    import_args(nb, source@, opt_str(folder), opt_str(filename), convert),
            ),
    {
        let notebook = match self.resolve_notebook_name(notebook) {
            Ok(name) => name,
            Err(e) => { return Err(e); },
        };
        let mut args: Vec<String> = Vec::new();
        push_owned(&mut args, join2(notebook.as_str(), ":import"));
        push_str(&mut args, source);
        if convert {
            push_str(&mut args, "--convert");
        }
        match (folder, filename) {
            (Some(f), Some(n)) => push_owned(&mut args, join3(f, "/", n)),
            (Some(f), None) => push_owned(&mut args, join2(f, "/")),
            (None, Some(n)) => push_str(&mut args, n),
            (None, None) => {},
        }
        assert(texts(args@) =~= import_args(
            notebook@,
            source@,
            opt_str(folder),
            opt_str(filename),
            convert,
        ));
        Ok(Invocation { notebook: Some(notebook), args })
    }
}

/// The message for a path lookup that printed nothing.
pub const EMPTY_PATH_MESSAGE: &'static str = "nb notebooks path output was empty";

/// The path that the tool printed for a notebook: its output trimmed, or a
/// failure where nothing is left.
pub open spec fn notebook_path_of(output: Seq<char>) -> Result<Seq<char>, NbErrorView> {
    if trimmed(output).len() == 0 {
        Err(NbErrorView::CommandFailed(EMPTY_PATH_MESSAGE@))
    } else {
        Ok(trimmed(output))
    }
}

/// Reads the path of a notebook from what the tool printed for
/// [`NbClient::notebook_path`].
pub fn notebook_path_from(output: &str) -> (path: Result<String, NbError>)
    ensures
        result_view(path) == notebook_path_of(output@),
{
    let path = output.trim();
    if path.is_empty() {
        return Err(NbError::CommandFailed(EMPTY_PATH_MESSAGE.to_owned()));
    }
    Ok(path.to_owned())
}

} // verus!
