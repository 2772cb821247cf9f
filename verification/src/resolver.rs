//! Finding the compatibility-layer binary: first by the host's command
//! lookup, then at the conventional install locations. A candidate is
//! accepted when it is there and reports its version.

use crate::host::{
    Command, CommandModel, Progress, ProgressModel, Reply, ReplyModel, Request, RequestModel,
    Stream,
};
use crate::text::{decode, decoded, trim, trimmed};
use vstd::prelude::*;

verus! {

/// A compatibility-layer binary that was found.
#[derive(Debug, PartialEq, Eq)]
pub struct ToolHandle {
    pub path: String,
    /// What the binary printed as its version; absent when that was no
    /// text.
    pub version: Option<String>,
}

/// The mathematical content of a [`ToolHandle`].
pub struct ToolHandleModel {
    pub path: Seq<char>,
    pub version: Option<Seq<char>>,
}

impl View for ToolHandle {
    type V = ToolHandleModel;

    open spec fn view(&self) -> ToolHandleModel {
        ToolHandleModel { path: self.path@, version: self.version.deep_view() }
    }
}

/// How the search ended.
#[derive(Debug, PartialEq, Eq)]
pub enum Resolution {
    Found(ToolHandle),
    NotFound,
}

/// The mathematical content of a [`Resolution`].
pub enum ResolutionModel {
    Found(ToolHandleModel),
    NotFound,
}

impl View for Resolution {
    type V = ResolutionModel;

    open spec fn view(&self) -> ResolutionModel {
        match self {
            Resolution::Found(handle) => ResolutionModel::Found(handle@),
            Resolution::NotFound => ResolutionModel::NotFound,
        }
    }
}

/// What the search is waiting for.
#[derive(Debug, PartialEq, Eq)]
pub enum ResolveStage {
    /// The command lookup to end.
    Lookup,
    /// The inspection of the path that the lookup printed.
    LookupPresence { path: String },
    /// The version report of the path that the lookup printed.
    LookupVersion { path: String },
    /// The inspection of a conventional location.
    FixedPresence { index: usize },
    /// The version report of a conventional location.
    FixedVersion { index: usize },
}

/// The mathematical content of a [`ResolveStage`].
pub enum ResolveStageModel {
    Lookup,
    LookupPresence { path: Seq<char> },
    LookupVersion { path: Seq<char> },
    FixedPresence { index: usize },
    FixedVersion { index: usize },
}

impl View for ResolveStage {
    type V = ResolveStageModel;

    open spec fn view(&self) -> ResolveStageModel {
        match self {
            ResolveStage::Lookup => ResolveStageModel::Lookup,
            ResolveStage::LookupPresence { path } => ResolveStageModel::LookupPresence {
                path: path@,
            },
            ResolveStage::LookupVersion { path } => ResolveStageModel::LookupVersion {
                path: path@,
            },
            ResolveStage::FixedPresence { index } => ResolveStageModel::FixedPresence {
                index: *index,
            },
            ResolveStage::FixedVersion { index } => ResolveStageModel::FixedVersion {
                index: *index,
            },
        }
    }
}

/// A search under way.
#[derive(Debug, PartialEq, Eq)]
pub struct Resolver {
    pub stage: ResolveStage,
}

/// The mathematical content of a [`Resolver`].
pub struct ResolverModel {
    pub stage: ResolveStageModel,
}

impl View for Resolver {
    type V = ResolverModel;

    open spec fn view(&self) -> ResolverModel {
        ResolverModel { stage: self.stage@ }
    }
}

/// The conventional install locations, in the order they are tried.
pub open spec fn fixed_locations() -> Seq<Seq<char>> {
    seq!["/usr/bin/wine"@, "/usr/local/bin/wine"@]
}

/// The command lookup of the binary's name.
pub open spec fn lookup_command() -> CommandModel {
    CommandModel {
        program: "which"@,
        args: seq!["wine"@],
        env: Seq::empty(),
        stream: Stream::Captured,
    }
}

/// The command that makes the binary at `path` report its version.
pub open spec fn version_command(path: Seq<char>) -> CommandModel {
    CommandModel {
        program: path,
        args: seq!["--version"@],
        env: Seq::empty(),
        stream: Stream::Captured,
    }
}

/// The path that the lookup printed: its output without surrounding
/// whitespace, and nothing when the output is no text.
pub open spec fn printed_path(output: Seq<u8>) -> Seq<char> {
    match decoded(output) {
        Some(text) => trimmed(text),
        None => Seq::empty(),
    }
}

/// The version that a binary printed: its output without surrounding
/// whitespace, absent when the output is no text.
pub open spec fn printed_version(output: Seq<u8>) -> Option<Seq<char>> {
    match decoded(output) {
        Some(text) => Some(trimmed(text)),
        None => None,
    }
}

/// The search goes on at the conventional location `index`, and ends
/// without a find when there is none.
pub open spec fn try_fixed(index: int) -> ProgressModel<ResolverModel, ResolutionModel> {
    if 0 <= index < fixed_locations().len() {
        ProgressModel::Next(
            ResolverModel { stage: ResolveStageModel::FixedPresence { index: index as usize } },
            RequestModel::Inspect(fixed_locations()[index]),
        )
    } else {
        ProgressModel::Finished(ResolutionModel::NotFound)
    }
}

/// The find of the binary at `path`, with the version it printed.
pub open spec fn found(path: Seq<char>, output: Seq<u8>) -> ProgressModel<
    ResolverModel,
    ResolutionModel,
> {
    ProgressModel::Finished(
        ResolutionModel::Found(ToolHandleModel { path, version: printed_version(output) }),
    )
}

/// The first state of a search and its first request.
pub open spec fn resolve_start() -> (ResolverModel, RequestModel) {
    (ResolverModel { stage: ResolveStageModel::Lookup }, RequestModel::Run(lookup_command()))
}

/// One step of the search.
pub open spec fn resolve_step(s: ResolverModel, reply: ReplyModel) -> ProgressModel<
    ResolverModel,
    ResolutionModel,
> {
    match s.stage {
        ResolveStageModel::Lookup => match reply {
            ReplyModel::Exited { code, output } => if code == Some(0i32) && printed_path(
                output,
            ).len() > 0 {
                ProgressModel::Next(
                    ResolverModel {
                        stage: ResolveStageModel::LookupPresence { path: printed_path(output) },
                    },
                    RequestModel::Inspect(printed_path(output)),
                )
            } else {
                try_fixed(0)
            },
            _ => try_fixed(0),
        },
        ResolveStageModel::LookupPresence { path } => match reply {
            ReplyModel::Inspected(seen) => if seen.exists {
                ProgressModel::Next(
                    ResolverModel { stage: ResolveStageModel::LookupVersion { path } },
                    RequestModel::Run(version_command(path)),
                )
            } else {
                try_fixed(0)
            },
            _ => try_fixed(0),
        },
        ResolveStageModel::LookupVersion { path } => match reply {
            ReplyModel::Exited { code, output } => if code == Some(0i32) {
                found(path, output)
            } else {
                try_fixed(0)
            },
            _ => try_fixed(0),
        },
        ResolveStageModel::FixedPresence { index } => match reply {
            ReplyModel::Inspected(seen) => if seen.exists && seen.is_file && index
                < fixed_locations().len() {
                ProgressModel::Next(
                    ResolverModel { stage: ResolveStageModel::FixedVersion { index } },
                    RequestModel::Run(version_command(fixed_locations()[index as int])),
                )
            } else {
                try_fixed(index + 1)
            },
            _ => try_fixed(index + 1),
        },
        ResolveStageModel::FixedVersion { index } => match reply {
            ReplyModel::Exited { code, output } => if code == Some(0i32) && index
                < fixed_locations().len() {
                found(fixed_locations()[index as int], output)
            } else {
                try_fixed(index + 1)
            },
            _ => try_fixed(index + 1),
        },
    }
}

/// The number of replies that the search can still take at most.
pub open spec fn resolve_rank(s: ResolverModel) -> int {
    let fixed: int = 2 * (fixed_locations().len() as int);
    match s.stage {
        ResolveStageModel::Lookup => fixed + 3,
        ResolveStageModel::LookupPresence { .. } => fixed + 2,
        ResolveStageModel::LookupVersion { .. } => fixed + 1,
        ResolveStageModel::FixedPresence { index } => if index < fixed_locations().len() {
            fixed - 2 * index
        } else {
            1
        },
        ResolveStageModel::FixedVersion { index } => if index < fixed_locations().len() {
            fixed - 2 * index - 1
        } else {
            1
        },
    }
}

/// The search ends: each step that does not finish it lowers its rank,
/// which is never below one.
pub proof fn lemma_resolve_terminates(s: ResolverModel, reply: ReplyModel)
    ensures
        resolve_rank(s) >= 1,
        resolve_step(s, reply) matches ProgressModel::Next(t, _) ==> resolve_rank(t)
            < resolve_rank(s),
{
}

/// A binary is only found on its own word: the search ends with a find
/// only on the reply of a version report that exited with status zero, and
/// the find is the path that was asked for its version.
pub proof fn lemma_found_reported_version(s: ResolverModel, reply: ReplyModel)
    requires
        resolve_step(s, reply) is Finished,
        resolve_step(s, reply)->Finished_0 is Found,
    ensures
        reply matches ReplyModel::Exited { code, output } && code == Some(0i32) && ({
            let handle = resolve_step(s, reply)->Finished_0->Found_0;
            &&& handle.version == printed_version(output)
            &&& match s.stage {
                ResolveStageModel::LookupVersion { path } => handle.path == path,
                ResolveStageModel::FixedVersion { index } => index < fixed_locations().len()
                    && handle.path == fixed_locations()[index as int],
                _ => false,
            }
        }),
{
}

/// The conventional location `index`, if there is one.
pub fn fixed_location(index: usize) -> (path: Option<&'static str>)
    ensures
        match path {
            Some(p) => index < fixed_locations().len() && p@ == fixed_locations()[index as int],
            None => index >= fixed_locations().len(),
        },
{
    if index == 0 {
        Some("/usr/bin/wine")
    } else if index == 1 {
        Some("/usr/local/bin/wine")
    } else {
        None
    }
}

/// The command that makes the binary at `path` report its version.
pub fn version_query(path: &str) -> (command: Command)
    ensures
        command@ == version_command(path@),
{
    let mut args: Vec<String> = Vec::new();
    args.push(String::from_str("--version"));
    assert(args.deep_view() =~= seq!["--version"@]);
    Command::plain(path, args, Stream::Captured)
}

fn try_location(index: usize) -> (next: Progress<Resolver, Resolution>)
    ensures
        next@ == try_fixed(index as int),
{
    match fixed_location(index) {
        Some(path) => Progress::Next(
            Resolver { stage: ResolveStage::FixedPresence { index } },
            Request::Inspect(String::from_str(path)),
        ),
        None => Progress::Finished(Resolution::NotFound),
    }
}

fn try_after(index: usize) -> (next: Progress<Resolver, Resolution>)
    ensures
        next@ == try_fixed(index + 1),
{
    if index < 2 {
        try_location(index + 1)
    } else {
        Progress::Finished(Resolution::NotFound)
    }
}

fn report(path: String, output: &Vec<u8>) -> (end: Progress<Resolver, Resolution>)
    ensures
        end@ == found(path@, output@),
{
    let version = match decode(output) {
        Some(text) => Some(trim(text)),
        None => None,
    };
    Progress::Finished(Resolution::Found(ToolHandle { path, version }))
}

impl Resolver {
    /// Begins a search: the first state and the first request.
    pub fn start() -> (begun: (Resolver, Request))
        ensures
            (begun.0@, begun.1@) == resolve_start(),
    {
        let mut args: Vec<String> = Vec::new();
        args.push(String::from_str("wine"));
        assert(args.deep_view() =~= seq!["wine"@]);
        (
            Resolver { stage: ResolveStage::Lookup },
            Request::Run(Command::plain("which", args, Stream::Captured)),
        )
    }

    /// Takes the host's reply to the last request and answers with the next
    /// request, or with the end of the search.
    pub fn step(self, reply: Reply) -> (next: Progress<Resolver, Resolution>)
        ensures
            next@ == resolve_step(self@, reply@),
    {
        match self.stage {
            ResolveStage::Lookup => match reply {
                Reply::Exited { code, output } => {
                    let path = match decode(&output) {
                        Some(text) => trim(text),
                        None => String::new(),
                    };
                    if code == Some(0) && path.as_str().unicode_len() > 0 {
                        let request = Request::Inspect(path.clone());
                        Progress::Next(
                            Resolver { stage: ResolveStage::LookupPresence { path } },
                            request,
                        )
                    } else {
                        try_location(0)
                    }
                },
                _ => try_location(0),
            },
            ResolveStage::LookupPresence { path } => match reply {
                Reply::Inspected(seen) => {
                    if seen.exists {
                        let request = Request::Run(version_query(path.as_str()));
                        Progress::Next(
                            Resolver { stage: ResolveStage::LookupVersion { path } },
                            request,
                        )
                    } else {
                        try_location(0)
                    }
                },
                _ => try_location(0),
            },
            ResolveStage::LookupVersion { path } => match reply {
                Reply::Exited { code, output } => {
                    if code == Some(0) {
                        report(path, &output)
                    } else {
                        try_location(0)
                    }
                },
                _ => try_location(0),
            },
            ResolveStage::FixedPresence { index } => match reply {
                Reply::Inspected(seen) => {
                    match fixed_location(index) {
                        Some(path) => {
                            if seen.exists && seen.is_file {
                                Progress::Next(
                                    Resolver { stage: ResolveStage::FixedVersion { index } },
                                    Request::Run(version_query(path)),
                                )
                            } else {
                                try_after(index)
                            }
                        },
                        None => try_after(index),
                    }
                },
                _ => try_after(index),
            },
            ResolveStage::FixedVersion { index } => match reply {
                Reply::Exited { code, output } => {
                    match fixed_location(index) {
                        Some(path) => {
                            if code == Some(0) {
                                report(String::from_str(path), &output)
                            } else {
                                try_after(index)
                            }
                        },
                        None => try_after(index),
                    }
                },
                _ => try_after(index),
            },
        }
    }
}

} // verus!
