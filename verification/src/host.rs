//! The vocabulary between the flows and their host: what a flow asks the
//! host to do, and what the host reports back. The flows decide; the host
//! only performs.

use vstd::prelude::*;

verus! {

/// What becomes of a child process's standard output and error.
#[derive(Clone, Copy, Debug, PartialEq, Eq, Structural)]
pub enum Stream {
    /// Collected and handed back with the exit status.
    Captured,
    /// Thrown away.
    Discarded,
    /// Left connected to the host's own streams.
    Inherited,
}

/// A process to run: program, arguments, environment overlay and the
/// treatment of its output.
#[derive(Debug, PartialEq, Eq)]
pub struct Command {
    pub program: String,
    pub args: Vec<String>,
    pub env: Vec<(String, String)>,
    pub stream: Stream,
}

/// The mathematical content of a [`Command`].
pub struct CommandModel {
    pub program: Seq<char>,
    pub args: Seq<Seq<char>>,
    pub env: Seq<(Seq<char>, Seq<char>)>,
    pub stream: Stream,
}

impl View for Command {
    type V = CommandModel;

    open spec fn view(&self) -> CommandModel {
        CommandModel {
            program: self.program@,
            args: self.args.deep_view(),
            env: self.env.deep_view(),
            stream: self.stream,
        }
    }
}

/// A yes-or-no decision that a flow leaves to its caller.
#[derive(Debug, PartialEq, Eq)]
pub enum Question {
    /// The installer failed with this exit code: go on regardless?
    ContinueAfterFailure { code: i32 },
    /// The files were copied: remove them at the path they were found at?
    RemoveSource { path: String },
}

/// The mathematical content of a [`Question`].
pub enum QuestionModel {
    ContinueAfterFailure { code: i32 },
    RemoveSource { path: Seq<char> },
}

impl View for Question {
    type V = QuestionModel;

    open spec fn view(&self) -> QuestionModel {
        match self {
            Question::ContinueAfterFailure { code } => QuestionModel::ContinueAfterFailure {
                code: *code,
            },
            Question::RemoveSource { path } => QuestionModel::RemoveSource { path: path@ },
        }
    }
}

/// What a flow asks of its host.
#[derive(Debug, PartialEq, Eq)]
pub enum Request {
    /// Run a process and wait for it.
    Run(Command),
    /// Look at one path.
    Inspect(String),
    /// Look at several paths, in order.
    InspectAll(Vec<String>),
    /// Create a directory and its missing ancestors.
    CreateDirs(String),
    /// Create the missing ancestors of a path.
    CreateParentDirs(String),
    /// Make a file executable.
    MarkExecutable(String),
    /// Download a resource over HTTP inside the host process.
    HttpGet { url: String, dest: String },
    /// Retrieve a resource to a path unless it is already there.
    Fetch { url: String, dest: String },
    /// List the entries of a directory.
    ListDir(String),
    /// Copy one file.
    CopyFile { from: String, to: String },
    /// Copy a directory tree.
    CopyTree { from: String, to: String },
    /// Remove a directory tree.
    RemoveTree(String),
    /// Read a file as text.
    ReadText(String),
    /// Wait for a number of seconds.
    Pause(u64),
    /// Put a yes-or-no question to the caller.
    Confirm(Question),
    /// Ask the caller for a destination directory.
    AskPath { default: String },
    /// Ask the caller to pick one of the options by its number.
    AskChoice { options: Vec<String> },
}

/// The mathematical content of a [`Request`].
pub enum RequestModel {
    Run(CommandModel),
    Inspect(Seq<char>),
    InspectAll(Seq<Seq<char>>),
    CreateDirs(Seq<char>),
    CreateParentDirs(Seq<char>),
    MarkExecutable(Seq<char>),
    HttpGet { url: Seq<char>, dest: Seq<char> },
    Fetch { url: Seq<char>, dest: Seq<char> },
    ListDir(Seq<char>),
    CopyFile { from: Seq<char>, to: Seq<char> },
    CopyTree { from: Seq<char>, to: Seq<char> },
    RemoveTree(Seq<char>),
    ReadText(Seq<char>),
    Pause(u64),
    Confirm(QuestionModel),
    AskPath { default: Seq<char> },
    AskChoice { options: Seq<Seq<char>> },
}

impl View for Request {
    type V = RequestModel;

    open spec fn view(&self) -> RequestModel {
        match self {
            Request::Run(command) => RequestModel::Run(command@),
            Request::Inspect(path) => RequestModel::Inspect(path@),
            Request::InspectAll(paths) => RequestModel::InspectAll(paths.deep_view()),
            Request::CreateDirs(path) => RequestModel::CreateDirs(path@),
            Request::CreateParentDirs(path) => RequestModel::CreateParentDirs(path@),
            Request::MarkExecutable(path) => RequestModel::MarkExecutable(path@),
            Request::HttpGet { url, dest } => RequestModel::HttpGet { url: url@, dest: dest@ },
            Request::Fetch { url, dest } => RequestModel::Fetch { url: url@, dest: dest@ },
            Request::ListDir(path) => RequestModel::ListDir(path@),
            Request::CopyFile { from, to } => RequestModel::CopyFile { from: from@, to: to@ },
            Request::CopyTree { from, to } => RequestModel::CopyTree { from: from@, to: to@ },
            Request::RemoveTree(path) => RequestModel::RemoveTree(path@),
            Request::ReadText(path) => RequestModel::ReadText(path@),
            Request::Pause(seconds) => RequestModel::Pause(*seconds),
            Request::Confirm(question) => RequestModel::Confirm(question@),
            Request::AskPath { default } => RequestModel::AskPath { default: default@ },
            Request::AskChoice { options } => RequestModel::AskChoice {
                options: options.deep_view(),
            },
        }
    }
}

/// What the host saw at a path.
#[derive(Clone, Copy, Debug, PartialEq, Eq, Structural)]
pub struct Inspection {
    /// An entry of that name is there, be it a link whose target is
    /// missing.
    pub exists: bool,
    /// The entry is a directory, or a link to one.
    pub is_dir: bool,
    /// The entry is a regular file, or a link to one.
    pub is_file: bool,
}

/// The kind of a directory entry. A link counts as what its target is.
#[derive(Clone, Copy, Debug, PartialEq, Eq, Structural)]
pub enum EntryKind {
    Directory,
    File,
    /// The entry or its type could not be read.
    Unreadable,
}

/// One entry of a directory listing.
#[derive(Debug, PartialEq, Eq)]
pub struct Entry {
    pub name: String,
    pub kind: EntryKind,
}

/// The mathematical content of an [`Entry`].
pub struct EntryModel {
    pub name: Seq<char>,
    pub kind: EntryKind,
}

impl View for Entry {
    type V = EntryModel;

    open spec fn view(&self) -> EntryModel {
        EntryModel { name: self.name@, kind: self.kind }
    }
}

impl DeepView for Entry {
    type V = EntryModel;

    open spec fn deep_view(&self) -> EntryModel {
        self@
    }
}

/// What the host reports back.
#[derive(Debug, PartialEq, Eq)]
pub enum Reply {
    /// The process ran and ended; `code` is absent when a signal ended it.
    Exited { code: Option<i32>, output: Vec<u8> },
    /// The request could not be carried out.
    Failed { detail: String },
    /// The request was carried out.
    Done,
    /// What was seen at the path.
    Inspected(Inspection),
    /// What was seen at each path, in the order asked.
    InspectedAll(Vec<Inspection>),
    /// The entries of the directory.
    Listed(Vec<Entry>),
    /// The text read, or typed by the caller.
    Text(String),
    /// The caller's decision.
    Answer(bool),
}

/// The mathematical content of a [`Reply`].
pub enum ReplyModel {
    Exited { code: Option<i32>, output: Seq<u8> },
    Failed { detail: Seq<char> },
    Done,
    Inspected(Inspection),
    InspectedAll(Seq<Inspection>),
    Listed(Seq<EntryModel>),
    Text(Seq<char>),
    Answer(bool),
}

impl View for Reply {
    type V = ReplyModel;

    open spec fn view(&self) -> ReplyModel {
        match self {
            Reply::Exited { code, output } => ReplyModel::Exited { code: *code, output: output@ },
            Reply::Failed { detail } => ReplyModel::Failed { detail: detail@ },
            Reply::Done => ReplyModel::Done,
            Reply::Inspected(seen) => ReplyModel::Inspected(*seen),
            Reply::InspectedAll(seen) => ReplyModel::InspectedAll(seen@),
            Reply::Listed(entries) => ReplyModel::Listed(entries.deep_view()),
            Reply::Text(text) => ReplyModel::Text(text@),
            Reply::Answer(yes) => ReplyModel::Answer(*yes),
        }
    }
}

/// Where a flow stands after a step: waiting for the host to answer a
/// request, or finished with an outcome.
#[derive(Debug, PartialEq, Eq)]
pub enum Progress<S, O> {
    Next(S, Request),
    Finished(O),
}

/// The mathematical content of a [`Progress`].
pub enum ProgressModel<S, O> {
    Next(S, RequestModel),
    Finished(O),
}

impl<S: View, O: View> View for Progress<S, O> {
    type V = ProgressModel<S::V, O::V>;

    open spec fn view(&self) -> ProgressModel<S::V, O::V> {
        match self {
            Progress::Next(state, request) => ProgressModel::Next(state@, request@),
            Progress::Finished(outcome) => ProgressModel::Finished(outcome@),
        }
    }
}

/// Whether a reply reports a process that ran and exited with status zero.
pub open spec fn succeeded(reply: ReplyModel) -> bool {
    reply matches ReplyModel::Exited { code, .. } && code == Some(0i32)
}

/// The lookup of a program by its name on the host's search path. The
/// program is there when the lookup exits with status zero.
pub open spec fn locate_command(name: Seq<char>) -> CommandModel {
    CommandModel {
        program: "which"@,
        args: seq![name],
        env: Seq::empty(),
        stream: Stream::Inherited,
    }
}

/// The exit code that a finished process counts as: its own, or 1 when a
/// signal ended it.
pub open spec fn effective_code(code: Option<i32>) -> i32 {
    match code {
        Some(c) => c,
        None => 1,
    }
}

/// A copy of `items`.
pub fn copy_strings(items: &Vec<String>) -> (out: Vec<String>)
    ensures
        out.deep_view() == items.deep_view(),
{
    let mut out: Vec<String> = Vec::new();
    let mut i: usize = 0;
    while i < items.len()
        invariant
            i <= items.len(),
            out.len() == i,
            forall|j: int| 0 <= j < i ==> out@[j]@ == items@[j]@,
        decreases items.len() - i,
    {
        out.push(items[i].clone());
        i += 1;
    }
    assert(out.deep_view() =~= items.deep_view());
    out
}

/// Tests whether a reply reports a process that ran and exited with status
/// zero.
pub fn has_succeeded(reply: &Reply) -> (yes: bool)
    ensures
        yes == succeeded(reply@),
{
    match reply {
        Reply::Exited { code, output } => match code {
            Some(c) => *c == 0,
            None => false,
        },
        _ => false,
    }
}

/// The lookup of the program `name`.
pub fn locate(name: &str) -> (command: Command)
    ensures
        command@ == locate_command(name@),
{
    let mut args: Vec<String> = Vec::new();
    args.push(String::from_str(name));
    assert(args.deep_view() =~= seq![name@]);
    Command::plain("which", args, Stream::Inherited)
}

impl Command {
    /// A command with no environment overlay.
    pub fn plain(program: &str, args: Vec<String>, stream: Stream) -> (command: Command)
        ensures
            command@ == (CommandModel {
                program: program@,
                args: args.deep_view(),
                env: Seq::empty(),
                stream,
            }),
    {
        let env: Vec<(String, String)> = Vec::new();
        assert(env.deep_view() =~= Seq::empty());
        Command { program: String::from_str(program), args, env, stream }
    }
}

} // verus!
