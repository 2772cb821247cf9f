//! The adjustment of a game's sandbox after its first start: the caller
//! picks the game from the inventory tool's listing, its sandbox is
//! resolved among the library roots, the host's file system is linked into
//! it and its window decorations are turned off.

use crate::adjust::{
    decoration_command, host_root_link, host_root_link_path, link_plan, remove_window_decorations,
    setup_linux_root_symlink,
};
use crate::host::{
    copy_strings, has_succeeded, locate, locate_command, succeeded, Command, CommandModel,
    Progress, ProgressModel, Reply, ReplyModel, Request, RequestModel, Stream,
};
use crate::library::{
    description_file, description_path, find_steam_libraries, described_roots,
    LocateError,
};
use crate::pattern::first_capture;
use crate::sandbox::{
    accepted_id, check_protontricks, extract_appid, find_prefix_path, id_pattern, inventory_tool,
    list_nonsteam_games, listing, prefix_candidate_paths, prefix_candidates, prefix_path,
    ListError,
};
use crate::text::{parse_selection, selection};
use vstd::prelude::*;

verus! {

/// Why the adjustment stopped.
#[derive(Debug, PartialEq, Eq)]
pub enum PostSetupError {
    /// The inventory tool is not installed.
    InventoryMissing,
    /// The inventory tool could not be started.
    InventoryLaunch { detail: String },
    /// The inventory tool's listing could not be used.
    Inventory(ListError),
    /// The listing holds no externally registered entry.
    NoGames,
    /// The caller's answer names none of the entries.
    InvalidSelection,
    /// The picked entry does not end in an application id.
    NoAppId,
    /// The home directory is not known.
    NoHome,
    /// The library description could not be read.
    DescriptionUnreadable { detail: String },
    /// The library description holds nothing.
    DescriptionEmpty,
    /// No library root holds a sandbox for the application.
    PrefixNotFound { app_id: String },
    /// The link command could not be started.
    LinkLaunch { detail: String },
    /// The link command did not exit with status zero.
    LinkFailed,
    /// The registry edit could not be started.
    RegistryLaunch { detail: String },
    /// The registry edit did not exit with status zero.
    RegistryFailed,
    /// The host's reply does not answer the request.
    Unexpected,
}

/// The mathematical content of a [`PostSetupError`].
pub enum PostSetupErrorModel {
    InventoryMissing,
    InventoryLaunch { detail: Seq<char> },
    Inventory(ListError),
    NoGames,
    InvalidSelection,
    NoAppId,
    NoHome,
    DescriptionUnreadable { detail: Seq<char> },
    DescriptionEmpty,
    PrefixNotFound { app_id: Seq<char> },
    LinkLaunch { detail: Seq<char> },
    LinkFailed,
    RegistryLaunch { detail: Seq<char> },
    RegistryFailed,
    Unexpected,
}

impl View for PostSetupError {
    type V = PostSetupErrorModel;

    open spec fn view(&self) -> PostSetupErrorModel {
        match self {
            PostSetupError::InventoryMissing => PostSetupErrorModel::InventoryMissing,
            PostSetupError::InventoryLaunch { detail } => PostSetupErrorModel::InventoryLaunch {
                detail: detail@,
            },
            PostSetupError::Inventory(error) => PostSetupErrorModel::Inventory(*error),
            PostSetupError::NoGames => PostSetupErrorModel::NoGames,
            PostSetupError::InvalidSelection => PostSetupErrorModel::InvalidSelection,
            PostSetupError::NoAppId => PostSetupErrorModel::NoAppId,
            PostSetupError::NoHome => PostSetupErrorModel::NoHome,
            PostSetupError::DescriptionUnreadable {
                detail,
            } => PostSetupErrorModel::DescriptionUnreadable { detail: detail@ },
            PostSetupError::DescriptionEmpty => PostSetupErrorModel::DescriptionEmpty,
            PostSetupError::PrefixNotFound { app_id } => PostSetupErrorModel::PrefixNotFound {
                app_id: app_id@,
            },
            PostSetupError::LinkLaunch { detail } => PostSetupErrorModel::LinkLaunch {
                detail: detail@,
            },
            PostSetupError::LinkFailed => PostSetupErrorModel::LinkFailed,
            PostSetupError::RegistryLaunch { detail } => PostSetupErrorModel::RegistryLaunch {
                detail: detail@,
            },
            PostSetupError::RegistryFailed => PostSetupErrorModel::RegistryFailed,
            PostSetupError::Unexpected => PostSetupErrorModel::Unexpected,
        }
    }
}

/// The account of an adjustment that went through.
#[derive(Debug, PartialEq, Eq)]
pub struct Adjusted {
    /// The sandbox that was adjusted.
    pub prefix: String,
    /// Whether the link was made now; it was there already otherwise.
    pub linked: bool,
}

/// The mathematical content of an [`Adjusted`].
pub struct AdjustedModel {
    pub prefix: Seq<char>,
    pub linked: bool,
}

impl View for Adjusted {
    type V = AdjustedModel;

    open spec fn view(&self) -> AdjustedModel {
        AdjustedModel { prefix: self.prefix@, linked: self.linked }
    }
}

/// How the adjustment ended.
#[derive(Debug, PartialEq, Eq)]
pub enum PostSetupEnd {
    Done(Adjusted),
    Error(PostSetupError),
}

/// The mathematical content of a [`PostSetupEnd`].
pub enum PostSetupEndModel {
    Done(AdjustedModel),
    Error(PostSetupErrorModel),
}

impl View for PostSetupEnd {
    type V = PostSetupEndModel;

    open spec fn view(&self) -> PostSetupEndModel {
        match self {
            PostSetupEnd::Done(adjusted) => PostSetupEndModel::Done(adjusted@),
            PostSetupEnd::Error(error) => PostSetupEndModel::Error(error@),
        }
    }
}

/// What the adjustment is waiting for.
#[derive(Debug, PartialEq, Eq)]
pub enum PostSetupStage {
    /// The lookup of the inventory tool.
    LocateInventory,
    /// The inventory tool's listing.
    List,
    /// The caller's pick among the entries.
    Select { games: Vec<String> },
    /// The text of the library description.
    ReadDescription { app_id: String, root: String },
    /// The inspection of the sandbox candidates.
    LocatePrefix { app_id: String, roots: Vec<String> },
    /// The inspection of the link's place.
    CheckLink { prefix: String },
    /// The link command to end.
    CreateLink { prefix: String },
    /// The lookup of the 64-bit binary.
    LocateWine64 { prefix: String, linked: bool },
    /// The registry edit to end.
    EditRegistry { prefix: String, linked: bool },
}

/// The mathematical content of a [`PostSetupStage`].
pub enum PostSetupStageModel {
    LocateInventory,
    List,
    Select { games: Seq<Seq<char>> },
    ReadDescription { app_id: Seq<char>, root: Seq<char> },
    LocatePrefix { app_id: Seq<char>, roots: Seq<Seq<char>> },
    CheckLink { prefix: Seq<char> },
    CreateLink { prefix: Seq<char> },
    LocateWine64 { prefix: Seq<char>, linked: bool },
    EditRegistry { prefix: Seq<char>, linked: bool },
}

impl View for PostSetupStage {
    type V = PostSetupStageModel;

    open spec fn view(&self) -> PostSetupStageModel {
        match self {
            PostSetupStage::LocateInventory => PostSetupStageModel::LocateInventory,
            PostSetupStage::List => PostSetupStageModel::List,
            PostSetupStage::Select { games } => PostSetupStageModel::Select {
                games: games.deep_view(),
            },
            PostSetupStage::ReadDescription { app_id, root } => {
                PostSetupStageModel::ReadDescription { app_id: app_id@, root: root@ }
            },
            PostSetupStage::LocatePrefix { app_id, roots } => PostSetupStageModel::LocatePrefix {
                app_id: app_id@,
                roots: roots.deep_view(),
            },
            PostSetupStage::CheckLink { prefix } => PostSetupStageModel::CheckLink {
                prefix: prefix@,
            },
            PostSetupStage::CreateLink { prefix } => PostSetupStageModel::CreateLink {
                prefix: prefix@,
            },
            PostSetupStage::LocateWine64 { prefix, linked } => PostSetupStageModel::LocateWine64 {
                prefix: prefix@,
                linked: *linked,
            },
            PostSetupStage::EditRegistry { prefix, linked } => PostSetupStageModel::EditRegistry {
                prefix: prefix@,
                linked: *linked,
            },
        }
    }
}

/// An adjustment under way.
#[derive(Debug, PartialEq, Eq)]
pub struct PostSetup {
    /// The primary library root; absent when the home directory is not
    /// known.
    pub root: Option<String>,
    pub stage: PostSetupStage,
}

/// The mathematical content of a [`PostSetup`].
pub struct PostSetupModel {
    pub root: Option<Seq<char>>,
    pub stage: PostSetupStageModel,
}

impl View for PostSetup {
    type V = PostSetupModel;

    open spec fn view(&self) -> PostSetupModel {
        PostSetupModel { root: self.root.deep_view(), stage: self.stage@ }
    }
}

/// The run of the inventory tool that prints its listing.
pub open spec fn listing_command() -> CommandModel {
    CommandModel {
        program: inventory_tool(),
        args: seq!["-l"@],
        env: Seq::empty(),
        stream: Stream::Captured,
    }
}

impl PostSetupModel {
    /// The same adjustment, waiting at `stage` for the answer to `request`.
    pub open spec fn wait(self, stage: PostSetupStageModel, request: RequestModel) -> ProgressModel<
        PostSetupModel,
        PostSetupEndModel,
    > {
        ProgressModel::Next(PostSetupModel { stage, ..self }, request)
    }

    /// The adjustment goes on to the registry edit of `prefix`, first
    /// looking for the 64-bit binary.
    pub open spec fn edit(self, prefix: Seq<char>, linked: bool) -> ProgressModel<
        PostSetupModel,
        PostSetupEndModel,
    > {
        self.wait(
            PostSetupStageModel::LocateWine64 { prefix, linked },
            RequestModel::Run(locate_command("wine64"@)),
        )
    }
}

/// The end of an adjustment on an error.
pub open spec fn post_error(error: PostSetupErrorModel) -> ProgressModel<
    PostSetupModel,
    PostSetupEndModel,
> {
    ProgressModel::Finished(PostSetupEndModel::Error(error))
}

/// The first state of an adjustment and its first request.
pub open spec fn post_start(root: Option<Seq<char>>) -> (PostSetupModel, RequestModel) {
    (
        PostSetupModel { root, stage: PostSetupStageModel::LocateInventory },
        RequestModel::Run(locate_command(inventory_tool())),
    )
}

/// The steps up to the caller's pick: the inventory tool is looked up and
/// run, and its entries are put before the caller.
pub open spec fn post_list(s: PostSetupModel, reply: ReplyModel) -> ProgressModel<
    PostSetupModel,
    PostSetupEndModel,
> {
    match s.stage {
        PostSetupStageModel::LocateInventory => if succeeded(reply) {
            s.wait(PostSetupStageModel::List, RequestModel::Run(listing_command()))
        } else {
            post_error(PostSetupErrorModel::InventoryMissing)
        },
        PostSetupStageModel::List => match reply {
            ReplyModel::Exited { code, output } => match listing(code, output) {
                Err(error) => post_error(PostSetupErrorModel::Inventory(error)),
                Ok(games) => if games.len() == 0 {
                    post_error(PostSetupErrorModel::NoGames)
                } else {
                    s.wait(
                        PostSetupStageModel::Select { games },
                        RequestModel::AskChoice { options: games },
                    )
                },
            },
            ReplyModel::Failed { detail } => post_error(
                PostSetupErrorModel::InventoryLaunch { detail },
            ),
            _ => post_error(PostSetupErrorModel::Unexpected),
        },
        _ => post_error(PostSetupErrorModel::Unexpected),
    }
}

/// The steps that resolve the sandbox: the picked entry gives the
/// application id, the library description gives the roots, and the first
/// root with a sandbox for the id gives the sandbox.
pub open spec fn post_resolve(s: PostSetupModel, reply: ReplyModel) -> ProgressModel<
    PostSetupModel,
    PostSetupEndModel,
> {
    match s.stage {
        PostSetupStageModel::Select { games } => match reply {
            ReplyModel::Text(answer) => match selection(answer, games.len()) {
                None => post_error(PostSetupErrorModel::InvalidSelection),
                Some(index) => match accepted_id(
                    games[index as int],
                    first_capture(id_pattern(), 1, games[index as int]),
                ) {
                    None => post_error(PostSetupErrorModel::NoAppId),
                    Some(app_id) => match s.root {
                        None => post_error(PostSetupErrorModel::NoHome),
                        Some(root) => s.wait(
                            PostSetupStageModel::ReadDescription { app_id, root },
                            RequestModel::ReadText(description_path(root)),
                        ),
                    },
                },
            },
            _ => post_error(PostSetupErrorModel::Unexpected),
        },
        PostSetupStageModel::ReadDescription { app_id, root } => match reply {
            ReplyModel::Text(text) => match described_roots(root, Some(text)) {
                Ok(roots) => s.wait(
                    PostSetupStageModel::LocatePrefix { app_id, roots },
                    RequestModel::InspectAll(prefix_candidates(app_id, roots)),
                ),
                Err(error) => post_error(
                    match error {
                        LocateError::Empty => PostSetupErrorModel::DescriptionEmpty,
                        LocateError::Unreadable => PostSetupErrorModel::DescriptionUnreadable {
                            detail: Seq::empty(),
                        },
                    },
                ),
            },
            ReplyModel::Failed { detail } => post_error(
                PostSetupErrorModel::DescriptionUnreadable { detail },
            ),
            _ => post_error(PostSetupErrorModel::Unexpected),
        },
        PostSetupStageModel::LocatePrefix { app_id, roots } => match reply {
            ReplyModel::InspectedAll(seen) => match prefix_path(app_id, roots, seen) {
                Some(prefix) => s.wait(
                    PostSetupStageModel::CheckLink { prefix },
                    RequestModel::Inspect(host_root_link(prefix)),
                ),
                None => post_error(PostSetupErrorModel::PrefixNotFound { app_id }),
            },
            _ => post_error(PostSetupErrorModel::Unexpected),
        },
        _ => post_error(PostSetupErrorModel::Unexpected),
    }
}

/// The steps that adjust the sandbox: the link, unless something is at its
/// place already, and the registry edit.
pub open spec fn post_adjust(s: PostSetupModel, reply: ReplyModel) -> ProgressModel<
    PostSetupModel,
    PostSetupEndModel,
> {
    match s.stage {
        PostSetupStageModel::CheckLink { prefix } => match reply {
            ReplyModel::Inspected(seen) => match link_plan(prefix, seen.exists) {
                Some(command) => s.wait(
                    PostSetupStageModel::CreateLink { prefix },
                    RequestModel::Run(command),
                ),
                None => s.edit(prefix, false),
            },
            _ => post_error(PostSetupErrorModel::Unexpected),
        },
        PostSetupStageModel::CreateLink { prefix } => match reply {
            ReplyModel::Exited { code, output } => if code == Some(0i32) {
                s.edit(prefix, true)
            } else {
                post_error(PostSetupErrorModel::LinkFailed)
            },
            ReplyModel::Failed { detail } => post_error(PostSetupErrorModel::LinkLaunch { detail }),
            _ => post_error(PostSetupErrorModel::Unexpected),
        },
        PostSetupStageModel::LocateWine64 { prefix, linked } => s.wait(
            PostSetupStageModel::EditRegistry { prefix, linked },
            RequestModel::Run(decoration_command(prefix, succeeded(reply))),
        ),
        PostSetupStageModel::EditRegistry { prefix, linked } => match reply {
            ReplyModel::Exited { code, output } => if code == Some(0i32) {
                ProgressModel::Finished(PostSetupEndModel::Done(AdjustedModel { prefix, linked }))
            } else {
                post_error(PostSetupErrorModel::RegistryFailed)
            },
            ReplyModel::Failed { detail } => post_error(
                PostSetupErrorModel::RegistryLaunch { detail },
            ),
            _ => post_error(PostSetupErrorModel::Unexpected),
        },
        _ => post_error(PostSetupErrorModel::Unexpected),
    }
}

/// One step of an adjustment.
pub open spec fn post_step(s: PostSetupModel, reply: ReplyModel) -> ProgressModel<
    PostSetupModel,
    PostSetupEndModel,
> {
    match s.stage {
        PostSetupStageModel::LocateInventory | PostSetupStageModel::List => post_list(s, reply),
        PostSetupStageModel::Select { .. }
        | PostSetupStageModel::ReadDescription { .. }
        | PostSetupStageModel::LocatePrefix { .. } => post_resolve(s, reply),
        PostSetupStageModel::CheckLink { .. }
        | PostSetupStageModel::CreateLink { .. }
        | PostSetupStageModel::LocateWine64 { .. }
        | PostSetupStageModel::EditRegistry { .. } => post_adjust(s, reply),
    }
}

/// The number of replies that an adjustment can still take at most.
pub open spec fn post_rank(stage: PostSetupStageModel) -> int {
    match stage {
        PostSetupStageModel::LocateInventory => 9,
        PostSetupStageModel::List => 8,
        PostSetupStageModel::Select { .. } => 7,
        PostSetupStageModel::ReadDescription { .. } => 6,
        PostSetupStageModel::LocatePrefix { .. } => 5,
        PostSetupStageModel::CheckLink { .. } => 4,
        PostSetupStageModel::CreateLink { .. } => 3,
        PostSetupStageModel::LocateWine64 { .. } => 2,
        PostSetupStageModel::EditRegistry { .. } => 1,
    }
}

/// An adjustment ends: each step that does not finish it lowers the rank
/// of its stage, which is never below one.
pub proof fn lemma_post_terminates(s: PostSetupModel, reply: ReplyModel)
    ensures
        post_rank(s.stage) >= 1,
        post_step(s, reply) matches ProgressModel::Next(t, _) ==> post_rank(t.stage) < post_rank(
            s.stage,
        ),
{
}

/// Linking twice links once: when something is at the link's place, no
/// link command is asked for, the adjustment goes straight on to the
/// registry edit, and it will report that it made no link.
pub proof fn lemma_present_link_is_kept(s: PostSetupModel, seen: crate::host::Inspection)
    requires
        s.stage is CheckLink,
        seen.exists,
    ensures
        post_step(s, ReplyModel::Inspected(seen)) == s.edit(s.stage->CheckLink_prefix, false),
{
}

fn wait(root: Option<String>, stage: PostSetupStage, request: Request) -> (next: Progress<
    PostSetup,
    PostSetupEnd,
>)
    ensures
        next@ == ProgressModel::<PostSetupModel, PostSetupEndModel>::Next(
            PostSetupModel { root: root.deep_view(), stage: stage@ },
            request@,
        ),
{
    Progress::Next(PostSetup { root, stage }, request)
}

fn fail(error: PostSetupError) -> (end: Progress<PostSetup, PostSetupEnd>)
    ensures
        end@ == post_error(error@),
{
    Progress::Finished(PostSetupEnd::Error(error))
}

fn edit(root: Option<String>, prefix: String, linked: bool) -> (next: Progress<
    PostSetup,
    PostSetupEnd,
>)
    ensures
        next@ == ProgressModel::<PostSetupModel, PostSetupEndModel>::Next(
            PostSetupModel {
                root: root.deep_view(),
                stage: PostSetupStageModel::LocateWine64 { prefix: prefix@, linked },
            },
            RequestModel::Run(locate_command("wine64"@)),
        ),
{
    wait(root, PostSetupStage::LocateWine64 { prefix, linked }, Request::Run(locate("wine64")))
}

/// The run of the inventory tool that prints its listing.
pub fn listing_query() -> (command: Command)
    ensures
        command@ == listing_command(),
{
    let mut args: Vec<String> = Vec::new();
    args.push(String::from_str("-l"));
    assert(args.deep_view() =~= seq!["-l"@]);
    Command::plain("protontricks", args, Stream::Captured)
}

impl PostSetup {
    /// Begins an adjustment below the primary library root `root`: the
    /// first state and the first request.
    pub fn start(root: Option<String>) -> (begun: (PostSetup, Request))
        ensures
            (begun.0@, begun.1@) == post_start(root.deep_view()),
    {
        (
            PostSetup { root, stage: PostSetupStage::LocateInventory },
            Request::Run(locate("protontricks")),
        )
    }

    fn list(self, reply: Reply) -> (next: Progress<PostSetup, PostSetupEnd>)
        ensures
            next@ == post_list(self@, reply@),
    {
        let PostSetup { root, stage } = self;
        match stage {
            PostSetupStage::LocateInventory => {
                if check_protontricks(&reply) {
                    wait(root, PostSetupStage::List, Request::Run(listing_query()))
                } else {
                    fail(PostSetupError::InventoryMissing)
                }
            },
            PostSetupStage::List => match reply {
                Reply::Exited { code, output } => match list_nonsteam_games(code, &output) {
                    Err(error) => fail(PostSetupError::Inventory(error)),
                    Ok(games) => {
                        if games.len() == 0 {
                            assert(games.deep_view().len() == 0);
                            fail(PostSetupError::NoGames)
                        } else {
                            assert(games.deep_view().len() == games.len());
                            let options = copy_strings(&games);
                            wait(
                                root,
                                PostSetupStage::Select { games },
                                Request::AskChoice { options },
                            )
                        }
                    },
                },
                Reply::Failed { detail } => fail(PostSetupError::InventoryLaunch { detail }),
                _ => fail(PostSetupError::Unexpected),
            },
            _ => fail(PostSetupError::Unexpected),
        }
    }

    fn resolve(self, reply: Reply) -> (next: Progress<PostSetup, PostSetupEnd>)
        ensures
            next@ == post_resolve(self@, reply@),
    {
        let PostSetup { root, stage } = self;
        match stage {
            PostSetupStage::Select { games } => match reply {
                Reply::Text(answer) => {
                    assert(games.deep_view().len() == games.len());
                    let index = match parse_selection(answer.as_str(), games.len()) {
                        Some(index) => index,
                        None => {
                            return fail(PostSetupError::InvalidSelection);
                        },
                    };
                    assert(games.deep_view()[index as int] == games@[index as int]@);
                    let app_id = match extract_appid(games[index].as_str()) {
                        Some(app_id) => app_id,
                        None => {
                            return fail(PostSetupError::NoAppId);
                        },
                    };
                    match root {
                        None => fail(PostSetupError::NoHome),
                        Some(base) => {
                            let request = Request::ReadText(description_file(base.as_str()));
                            let kept = base.clone();
                            wait(
                                Some(base),
                                PostSetupStage::ReadDescription { app_id, root: kept },
                                request,
                            )
                        },
                    }
                },
                _ => fail(PostSetupError::Unexpected),
            },
            PostSetupStage::ReadDescription { app_id, root: base } => match reply {
                Reply::Text(text) => match find_steam_libraries(
                    base.as_str(),
                    Some(text.as_str()),
                ) {
                    Ok(roots) => {
                        let request = Request::InspectAll(
                            prefix_candidate_paths(app_id.as_str(), &roots),
                        );
                        wait(root, PostSetupStage::LocatePrefix { app_id, roots }, request)
                    },
                    Err(error) => match error {
                        LocateError::Empty => fail(PostSetupError::DescriptionEmpty),
                        LocateError::Unreadable => fail(
                            PostSetupError::DescriptionUnreadable { detail: String::new() },
                        ),
                    },
                },
                Reply::Failed { detail } => fail(PostSetupError::DescriptionUnreadable { detail }),
                _ => fail(PostSetupError::Unexpected),
            },
            PostSetupStage::LocatePrefix { app_id, roots } => match reply {
                Reply::InspectedAll(seen) => match find_prefix_path(
                    app_id.as_str(),
                    &roots,
                    &seen,
                ) {
                    Some(prefix) => {
                        let request = Request::Inspect(host_root_link_path(prefix.as_str()));
                        wait(root, PostSetupStage::CheckLink { prefix }, request)
                    },
                    None => fail(PostSetupError::PrefixNotFound { app_id }),
                },
                _ => fail(PostSetupError::Unexpected),
            },
            _ => fail(PostSetupError::Unexpected),
        }
    }

    fn adjust(self, reply: Reply) -> (next: Progress<PostSetup, PostSetupEnd>)
        ensures
            next@ == post_adjust(self@, reply@),
    {
        let PostSetup { root, stage } = self;
        match stage {
            PostSetupStage::CheckLink { prefix } => match reply {
                Reply::Inspected(seen) => match setup_linux_root_symlink(prefix.as_str(), &seen) {
                    Some(command) => wait(
                        root,
                        PostSetupStage::CreateLink { prefix },
                        Request::Run(command),
                    ),
                    None => edit(root, prefix, false),
                },
                _ => fail(PostSetupError::Unexpected),
            },
            PostSetupStage::CreateLink { prefix } => match reply {
                Reply::Exited { code, output } => {
                    if code == Some(0) {
                        edit(root, prefix, true)
                    } else {
                        fail(PostSetupError::LinkFailed)
                    }
                },
                Reply::Failed { detail } => fail(PostSetupError::LinkLaunch { detail }),
                _ => fail(PostSetupError::Unexpected),
            },
            PostSetupStage::LocateWine64 { prefix, linked } => {
                let request = Request::Run(
                    remove_window_decorations(prefix.as_str(), has_succeeded(&reply)),
                );
                wait(root, PostSetupStage::EditRegistry { prefix, linked }, request)
            },
            PostSetupStage::EditRegistry { prefix, linked } => match reply {
                Reply::Exited { code, output } => {
                    if code == Some(0) {
                        Progress::Finished(PostSetupEnd::Done(Adjusted { prefix, linked }))
                    } else {
                        fail(PostSetupError::RegistryFailed)
                    }
                },
                Reply::Failed { detail } => fail(PostSetupError::RegistryLaunch { detail }),
                _ => fail(PostSetupError::Unexpected),
            },
            _ => fail(PostSetupError::Unexpected),
        }
    }

    /// Takes the host's reply to the last request and answers with the next
    /// request, or with the end of the adjustment.
    pub fn step(self, reply: Reply) -> (next: Progress<PostSetup, PostSetupEnd>)
        ensures
            next@ == post_step(self@, reply@),
    {
        match self.stage {
            PostSetupStage::LocateInventory | PostSetupStage::List => self.list(reply),
            PostSetupStage::Select { .. }
            | PostSetupStage::ReadDescription { .. }
            | PostSetupStage::LocatePrefix { .. } => self.resolve(reply),
            PostSetupStage::CheckLink { .. }
            | PostSetupStage::CreateLink { .. }
            | PostSetupStage::LocateWine64 { .. }
            | PostSetupStage::EditRegistry { .. } => self.adjust(reply),
        }
    }
}

} // verus!
