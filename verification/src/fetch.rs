//! Retrieving a remote resource to a local path, once: nothing is done when
//! the destination is already there. Else the first strategy that is
//! available is tried, and its failure is final: an external download
//! tool, a second one, or a transfer inside the host process.

use crate::host::{
    has_succeeded, locate, locate_command, succeeded, Command, CommandModel, Progress,
    ProgressModel, Reply, ReplyModel, Request, RequestModel, Stream,
};
use vstd::prelude::*;

verus! {

/// A resource to retrieve and the path to put it at.
#[derive(Debug, PartialEq, Eq)]
pub struct FetchTarget {
    pub url: String,
    pub dest: String,
}

/// The mathematical content of a [`FetchTarget`].
pub struct FetchTargetModel {
    pub url: Seq<char>,
    pub dest: Seq<char>,
}

impl View for FetchTarget {
    type V = FetchTargetModel;

    open spec fn view(&self) -> FetchTargetModel {
        FetchTargetModel { url: self.url@, dest: self.dest@ }
    }
}

/// A way to transfer the resource.
#[derive(Clone, Copy, Debug, PartialEq, Eq, Structural)]
pub enum Strategy {
    /// The external tool `curl`.
    Curl,
    /// The external tool `wget`.
    Wget,
    /// A transfer inside the host process.
    BuiltIn,
}

/// How a retrieval succeeded.
#[derive(Clone, Copy, Debug, PartialEq, Eq, Structural)]
pub enum Fetched {
    /// The destination was there already; nothing was transferred.
    AlreadyPresent,
    /// The resource was transferred.
    Downloaded(Strategy),
}

/// Why a retrieval failed.
#[derive(Debug, PartialEq, Eq)]
pub enum FetchError {
    /// The destination's directory could not be created.
    Directory { detail: String },
    /// The external tool could not be started.
    Launch { tool: Strategy, detail: String },
    /// The external tool did not exit with status zero.
    Exit { tool: Strategy, code: Option<i32> },
    /// The transfer inside the host process failed.
    Transfer { detail: String },
    /// The host's reply does not answer the request.
    Unexpected,
}

/// The mathematical content of a [`FetchError`].
pub enum FetchErrorModel {
    Directory { detail: Seq<char> },
    Launch { tool: Strategy, detail: Seq<char> },
    Exit { tool: Strategy, code: Option<i32> },
    Transfer { detail: Seq<char> },
    Unexpected,
}

impl View for FetchError {
    type V = FetchErrorModel;

    open spec fn view(&self) -> FetchErrorModel {
        match self {
            FetchError::Directory { detail } => FetchErrorModel::Directory { detail: detail@ },
            FetchError::Launch { tool, detail } => FetchErrorModel::Launch {
                tool: *tool,
                detail: detail@,
            },
            FetchError::Exit { tool, code } => FetchErrorModel::Exit { tool: *tool, code: *code },
            FetchError::Transfer { detail } => FetchErrorModel::Transfer { detail: detail@ },
            FetchError::Unexpected => FetchErrorModel::Unexpected,
        }
    }
}

/// How a retrieval ended.
#[derive(Debug, PartialEq, Eq)]
pub enum FetchEnd {
    Done(Fetched),
    Error(FetchError),
}

/// The mathematical content of a [`FetchEnd`].
pub enum FetchEndModel {
    Done(Fetched),
    Error(FetchErrorModel),
}

impl View for FetchEnd {
    type V = FetchEndModel;

    open spec fn view(&self) -> FetchEndModel {
        match self {
            FetchEnd::Done(fetched) => FetchEndModel::Done(*fetched),
            FetchEnd::Error(error) => FetchEndModel::Error(error@),
        }
    }
}

/// What the retrieval is waiting for.
#[derive(Clone, Copy, Debug, PartialEq, Eq, Structural)]
pub enum FetchStage {
    /// The inspection of the destination.
    CheckDestination,
    /// The destination's directory to be created.
    PrepareParent,
    /// The lookup of the first tool.
    LocateCurl,
    /// The first tool to end.
    RunCurl,
    /// The lookup of the second tool.
    LocateWget,
    /// The second tool to end.
    RunWget,
    /// The transfer inside the host process to end.
    Transfer,
}

/// A retrieval under way.
#[derive(Debug, PartialEq, Eq)]
pub struct Fetch {
    pub target: FetchTarget,
    pub stage: FetchStage,
}

/// The mathematical content of a [`Fetch`].
pub struct FetchModel {
    pub target: FetchTargetModel,
    pub stage: FetchStage,
}

impl View for Fetch {
    type V = FetchModel;

    open spec fn view(&self) -> FetchModel {
        FetchModel { target: self.target@, stage: self.stage }
    }
}

/// The first tool's transfer: follow redirects, write to the destination.
pub open spec fn curl_command(target: FetchTargetModel) -> CommandModel {
    CommandModel {
        program: "curl"@,
        args: seq!["-L"@, "-o"@, target.dest, target.url],
        env: Seq::empty(),
        stream: Stream::Inherited,
    }
}

/// The second tool's transfer: write to the destination.
pub open spec fn wget_command(target: FetchTargetModel) -> CommandModel {
    CommandModel {
        program: "wget"@,
        args: seq!["-O"@, target.dest, target.url],
        env: Seq::empty(),
        stream: Stream::Inherited,
    }
}

impl FetchModel {
    /// The same retrieval, waiting at `stage` for the answer to `request`.
    pub open spec fn wait(self, stage: FetchStage, request: RequestModel) -> ProgressModel<
        FetchModel,
        FetchEndModel,
    > {
        ProgressModel::Next(FetchModel { stage, ..self }, request)
    }
}

/// The end of a retrieval on an error.
pub open spec fn fetch_error(error: FetchErrorModel) -> ProgressModel<FetchModel, FetchEndModel> {
    ProgressModel::Finished(FetchEndModel::Error(error))
}

/// The end of a retrieval on success.
pub open spec fn fetch_done(fetched: Fetched) -> ProgressModel<FetchModel, FetchEndModel> {
    ProgressModel::Finished(FetchEndModel::Done(fetched))
}

/// The end of an external tool's run: success on exit status zero, and an
/// error on every other reply.
pub open spec fn tool_end(tool: Strategy, reply: ReplyModel) -> ProgressModel<
    FetchModel,
    FetchEndModel,
> {
    match reply {
        ReplyModel::Exited { code, output } => if code == Some(0i32) {
            fetch_done(Fetched::Downloaded(tool))
        } else {
            fetch_error(FetchErrorModel::Exit { tool, code })
        },
        ReplyModel::Failed { detail } => fetch_error(FetchErrorModel::Launch { tool, detail }),
        _ => fetch_error(FetchErrorModel::Unexpected),
    }
}

/// The first state of a retrieval and its first request.
pub open spec fn fetch_start(target: FetchTargetModel) -> (FetchModel, RequestModel) {
    (
        FetchModel { target, stage: FetchStage::CheckDestination },
        RequestModel::Inspect(target.dest),
    )
}

/// One step of a retrieval.
pub open spec fn fetch_step(s: FetchModel, reply: ReplyModel) -> ProgressModel<
    FetchModel,
    FetchEndModel,
> {
    match s.stage {
        FetchStage::CheckDestination => match reply {
            ReplyModel::Inspected(seen) => if seen.exists {
                fetch_done(Fetched::AlreadyPresent)
            } else {
                s.wait(FetchStage::PrepareParent, RequestModel::CreateParentDirs(s.target.dest))
            },
            _ => fetch_error(FetchErrorModel::Unexpected),
        },
        FetchStage::PrepareParent => match reply {
            ReplyModel::Done => s.wait(
                FetchStage::LocateCurl,
                RequestModel::Run(locate_command("curl"@)),
            ),
            ReplyModel::Failed { detail } => fetch_error(FetchErrorModel::Directory { detail }),
            _ => fetch_error(FetchErrorModel::Unexpected),
        },
        FetchStage::LocateCurl => if succeeded(reply) {
            s.wait(FetchStage::RunCurl, RequestModel::Run(curl_command(s.target)))
        } else {
            s.wait(FetchStage::LocateWget, RequestModel::Run(locate_command("wget"@)))
        },
        FetchStage::RunCurl => tool_end(Strategy::Curl, reply),
        FetchStage::LocateWget => if succeeded(reply) {
            s.wait(FetchStage::RunWget, RequestModel::Run(wget_command(s.target)))
        } else {
            s.wait(
                FetchStage::Transfer,
                RequestModel::HttpGet { url: s.target.url, dest: s.target.dest },
            )
        },
        FetchStage::RunWget => tool_end(Strategy::Wget, reply),
        FetchStage::Transfer => match reply {
            ReplyModel::Done => fetch_done(Fetched::Downloaded(Strategy::BuiltIn)),
            ReplyModel::Failed { detail } => fetch_error(FetchErrorModel::Transfer { detail }),
            _ => fetch_error(FetchErrorModel::Unexpected),
        },
    }
}

/// The number of replies that a retrieval can still take at most.
pub open spec fn fetch_rank(stage: FetchStage) -> int {
    match stage {
        FetchStage::CheckDestination => 6,
        FetchStage::PrepareParent => 5,
        FetchStage::LocateCurl => 4,
        FetchStage::RunCurl => 1,
        FetchStage::LocateWget => 3,
        FetchStage::RunWget => 1,
        FetchStage::Transfer => 1,
    }
}

/// A retrieval whose destination is there does nothing: it asks for the
/// inspection of the destination, and on the reply that something exists
/// there it ends with success, having asked for nothing else. So a second
/// retrieval of a target transfers nothing.
pub proof fn lemma_present_destination_is_noop(target: FetchTargetModel, seen: crate::host::Inspection)
    requires
        seen.exists,
    ensures
        fetch_start(target).1 == RequestModel::Inspect(target.dest),
        fetch_step(fetch_start(target).0, ReplyModel::Inspected(seen)) == fetch_done(
            Fetched::AlreadyPresent,
        ),
{
}

/// A strategy that has started is final: whatever the host replies to a
/// transfer, the retrieval ends, with success exactly when the tool exited
/// with status zero or the transfer in the host process was carried out.
/// No later strategy is tried after a failure.
pub proof fn lemma_started_strategy_is_final(s: FetchModel, reply: ReplyModel)
    requires
        s.stage == FetchStage::RunCurl || s.stage == FetchStage::RunWget || s.stage
            == FetchStage::Transfer,
    ensures
        fetch_step(s, reply) is Finished,
        fetch_step(s, reply)->Finished_0 is Done <==> if s.stage == FetchStage::Transfer {
            reply is Done
        } else {
            succeeded(reply)
        },
{
}

/// A retrieval ends: each step that does not finish it lowers the rank of
/// its stage, which is never below one. The target stays the same.
pub proof fn lemma_fetch_terminates(s: FetchModel, reply: ReplyModel)
    ensures
        fetch_rank(s.stage) >= 1,
        fetch_step(s, reply) matches ProgressModel::Next(t, _) ==> fetch_rank(t.stage)
            < fetch_rank(s.stage) && t.target == s.target,
{
}

/// A later strategy is only tried when the earlier tools are not there:
/// the second tool is looked up only after the lookup of the first did not
/// find it, and the host process transfers only after neither lookup found
/// its tool.
pub proof fn lemma_strategy_order(s: FetchModel, reply: ReplyModel)
    ensures
        fetch_step(s, reply) matches ProgressModel::Next(t, request) ==> {
            &&& t.stage == FetchStage::RunCurl ==> s.stage == FetchStage::LocateCurl && succeeded(
                reply,
            ) && request == RequestModel::Run(curl_command(s.target))
            &&& t.stage == FetchStage::LocateWget ==> s.stage == FetchStage::LocateCurl
                && !succeeded(reply)
            &&& t.stage == FetchStage::RunWget ==> s.stage == FetchStage::LocateWget && succeeded(
                reply,
            ) && request == RequestModel::Run(wget_command(s.target))
            &&& t.stage == FetchStage::Transfer ==> s.stage == FetchStage::LocateWget && !succeeded(
                reply,
            ) && request == (RequestModel::HttpGet { url: s.target.url, dest: s.target.dest })
        },
{
}

impl FetchTarget {
    /// The transfer by the first tool.
    pub fn curl(&self) -> (command: Command)
        ensures
            command@ == curl_command(self@),
    {
        let mut args: Vec<String> = Vec::new();
        args.push(String::from_str("-L"));
        args.push(String::from_str("-o"));
        args.push(self.dest.clone());
        args.push(self.url.clone());
        assert(args.deep_view() =~= curl_command(self@).args);
        Command::plain("curl", args, Stream::Inherited)
    }

    /// The transfer by the second tool.
    pub fn wget(&self) -> (command: Command)
        ensures
            command@ == wget_command(self@),
    {
        let mut args: Vec<String> = Vec::new();
        args.push(String::from_str("-O"));
        args.push(self.dest.clone());
        args.push(self.url.clone());
        assert(args.deep_view() =~= wget_command(self@).args);
        Command::plain("wget", args, Stream::Inherited)
    }
}

fn end_tool(tool: Strategy, reply: Reply) -> (end: Progress<Fetch, FetchEnd>)
    ensures
        end@ == tool_end(tool, reply@),
{
    match reply {
        Reply::Exited { code, output } => {
            let ok = match code {
                Some(c) => c == 0,
                None => false,
            };
            if ok {
                Progress::Finished(FetchEnd::Done(Fetched::Downloaded(tool)))
            } else {
                Progress::Finished(FetchEnd::Error(FetchError::Exit { tool, code }))
            }
        },
        Reply::Failed { detail } => Progress::Finished(
            FetchEnd::Error(FetchError::Launch { tool, detail }),
        ),
        _ => Progress::Finished(FetchEnd::Error(FetchError::Unexpected)),
    }
}

impl Fetch {
    /// Begins a retrieval: the first state and the first request.
    pub fn start(target: FetchTarget) -> (begun: (Fetch, Request))
        ensures
            (begun.0@, begun.1@) == fetch_start(target@),
    {
        let request = Request::Inspect(target.dest.clone());
        (Fetch { target, stage: FetchStage::CheckDestination }, request)
    }

    fn wait(self, stage: FetchStage, request: Request) -> (next: Progress<Fetch, FetchEnd>)
        ensures
            next@ == self@.wait(stage, request@),
    {
        Progress::Next(Fetch { target: self.target, stage }, request)
    }

    /// Takes the host's reply to the last request and answers with the next
    /// request, or with the end of the retrieval.
    pub fn step(self, reply: Reply) -> (next: Progress<Fetch, FetchEnd>)
        ensures
            next@ == fetch_step(self@, reply@),
    {
        match self.stage {
            FetchStage::CheckDestination => match reply {
                Reply::Inspected(seen) => {
                    if seen.exists {
                        Progress::Finished(FetchEnd::Done(Fetched::AlreadyPresent))
                    } else {
                        let request = Request::CreateParentDirs(self.target.dest.clone());
                        self.wait(FetchStage::PrepareParent, request)
                    }
                },
                _ => Progress::Finished(FetchEnd::Error(FetchError::Unexpected)),
            },
            FetchStage::PrepareParent => match reply {
                Reply::Done => self.wait(FetchStage::LocateCurl, Request::Run(locate("curl"))),
                Reply::Failed { detail } => Progress::Finished(
                    FetchEnd::Error(FetchError::Directory { detail }),
                ),
                _ => Progress::Finished(FetchEnd::Error(FetchError::Unexpected)),
            },
            FetchStage::LocateCurl => {
                if has_succeeded(&reply) {
                    let request = Request::Run(self.target.curl());
                    self.wait(FetchStage::RunCurl, request)
                } else {
                    self.wait(FetchStage::LocateWget, Request::Run(locate("wget")))
                }
            },
            FetchStage::RunCurl => end_tool(Strategy::Curl, reply),
            FetchStage::LocateWget => {
                if has_succeeded(&reply) {
                    let request = Request::Run(self.target.wget());
                    self.wait(FetchStage::RunWget, request)
                } else {
                    let request = Request::HttpGet {
                        url: self.target.url.clone(),
                        dest: self.target.dest.clone(),
                    };
                    self.wait(FetchStage::Transfer, request)
                }
            },
            FetchStage::RunWget => end_tool(Strategy::Wget, reply),
            FetchStage::Transfer => match reply {
                Reply::Done => Progress::Finished(
                    FetchEnd::Done(Fetched::Downloaded(Strategy::BuiltIn)),
                ),
                Reply::Failed { detail } => Progress::Finished(
                    FetchEnd::Error(FetchError::Transfer { detail }),
                ),
                _ => Progress::Finished(FetchEnd::Error(FetchError::Unexpected)),
            },
        }
    }
}

} // verus!
