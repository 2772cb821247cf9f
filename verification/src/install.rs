//! The installation driver: runs an installer under the compatibility layer,
//! falls back from a silent to an interactive attempt, cleans up, discovers
//! where the files landed and relocates them to the chosen destination.
//!
//! The driver is a step function. Each step takes the host's reply to the
//! previous request and answers with the next request or with the end of
//! the installation.

use crate::host::{
    copy_strings, effective_code, Progress, ProgressModel, Question, QuestionModel, Reply,
    ReplyModel, Request, RequestModel,
};
use crate::plan::{
    cleanup, cleanup_command, interactive_command, silent_command, InstallPlan, InstallPlanModel,
};
use crate::probe::{find_first_directory, first_directory};
use crate::text::{trim, trimmed};
use vstd::prelude::*;

verus! {

/// The seconds to wait after cleanup before looking at the file system.
pub open spec fn settle_seconds() -> u64 {
    1
}

/// The destination the caller chose: the answer without surrounding
/// whitespace, or the default when nothing is left of it.
pub open spec fn chosen_destination(answer: Seq<char>, default: Seq<char>) -> Seq<char> {
    if trimmed(answer).len() == 0 {
        default
    } else {
        trimmed(answer)
    }
}

/// How an installation that ran to its end went.
#[derive(Clone, Copy, Debug, PartialEq, Eq, Structural)]
pub enum InstallOutcome {
    /// An attempt exited with status zero.
    Succeeded,
    /// Both attempts failed and the caller chose to go on.
    FailedContinued,
    /// Both attempts failed and the caller chose to stop.
    Aborted,
}

/// What became of the discovered files.
#[derive(Debug, PartialEq, Eq)]
pub enum Relocation {
    /// They already were at the destination.
    InPlace,
    /// Copying them failed; the destination may hold a part of them.
    CopyFailed { detail: String },
    /// They were copied and the caller kept them where they were found.
    Kept,
    /// They were copied and then removed where they were found.
    Removed,
    /// They were copied, but removing them where they were found failed.
    RemovalFailed { detail: String },
}

/// The mathematical content of a [`Relocation`].
pub enum RelocationModel {
    InPlace,
    CopyFailed { detail: Seq<char> },
    Kept,
    Removed,
    RemovalFailed { detail: Seq<char> },
}

impl View for Relocation {
    type V = RelocationModel;

    open spec fn view(&self) -> RelocationModel {
        match self {
            Relocation::InPlace => RelocationModel::InPlace,
            Relocation::CopyFailed { detail } => RelocationModel::CopyFailed { detail: detail@ },
            Relocation::Kept => RelocationModel::Kept,
            Relocation::Removed => RelocationModel::Removed,
            Relocation::RemovalFailed { detail } => RelocationModel::RemovalFailed {
                detail: detail@,
            },
        }
    }
}

/// What the search for the installed files gave.
#[derive(Debug, PartialEq, Eq)]
pub enum Discovery {
    /// The installation was aborted before the search.
    Skipped,
    /// None of the candidates is a directory.
    Missing,
    /// The first candidate that is a directory, and what became of it.
    Found { location: String, relocation: Relocation },
}

/// The mathematical content of a [`Discovery`].
pub enum DiscoveryModel {
    Skipped,
    Missing,
    Found { location: Seq<char>, relocation: RelocationModel },
}

impl View for Discovery {
    type V = DiscoveryModel;

    open spec fn view(&self) -> DiscoveryModel {
        match self {
            Discovery::Skipped => DiscoveryModel::Skipped,
            Discovery::Missing => DiscoveryModel::Missing,
            Discovery::Found { location, relocation } => DiscoveryModel::Found {
                location: location@,
                relocation: relocation@,
            },
        }
    }
}

/// The account of an installation that ran to its end.
#[derive(Debug, PartialEq, Eq)]
pub struct InstallReport {
    pub outcome: InstallOutcome,
    /// The exit code of the last attempt.
    pub code: i32,
    pub destination: String,
    pub discovery: Discovery,
}

/// The mathematical content of an [`InstallReport`].
pub struct InstallReportModel {
    pub outcome: InstallOutcome,
    pub code: i32,
    pub destination: Seq<char>,
    pub discovery: DiscoveryModel,
}

impl View for InstallReport {
    type V = InstallReportModel;

    open spec fn view(&self) -> InstallReportModel {
        InstallReportModel {
            outcome: self.outcome,
            code: self.code,
            destination: self.destination@,
            discovery: self.discovery@,
        }
    }
}

/// Why an installation stopped before the installer had run to its end.
#[derive(Debug, PartialEq, Eq)]
pub enum InstallError {
    /// The staging directory could not be created.
    Staging { detail: String },
    /// The installer could not be retrieved.
    Fetch { detail: String },
    /// The destination directory could not be created.
    Destination { detail: String },
    /// The compatibility layer could not be started.
    Launch { detail: String },
    /// The files that were found could not be copied to the destination,
    /// under a plan that insists on it.
    Copy { detail: String },
    /// The files that were found could not be removed after their copy,
    /// under a plan that insists on it.
    Removal { detail: String },
    /// The host's reply does not answer the request.
    Unexpected,
}

/// The mathematical content of an [`InstallError`].
pub enum InstallErrorModel {
    Staging { detail: Seq<char> },
    Fetch { detail: Seq<char> },
    Destination { detail: Seq<char> },
    Launch { detail: Seq<char> },
    Copy { detail: Seq<char> },
    Removal { detail: Seq<char> },
    Unexpected,
}

impl View for InstallError {
    type V = InstallErrorModel;

    open spec fn view(&self) -> InstallErrorModel {
        match self {
            InstallError::Staging { detail } => InstallErrorModel::Staging { detail: detail@ },
            InstallError::Fetch { detail } => InstallErrorModel::Fetch { detail: detail@ },
            InstallError::Destination { detail } => InstallErrorModel::Destination {
                detail: detail@,
            },
            InstallError::Launch { detail } => InstallErrorModel::Launch { detail: detail@ },
            InstallError::Copy { detail } => InstallErrorModel::Copy { detail: detail@ },
            InstallError::Removal { detail } => InstallErrorModel::Removal { detail: detail@ },
            InstallError::Unexpected => InstallErrorModel::Unexpected,
        }
    }
}

/// How an installation ended.
#[derive(Debug, PartialEq, Eq)]
pub enum InstallEnd {
    Report(InstallReport),
    Error(InstallError),
}

/// The mathematical content of an [`InstallEnd`].
pub enum InstallEndModel {
    Report(InstallReportModel),
    Error(InstallErrorModel),
}

impl View for InstallEnd {
    type V = InstallEndModel;

    open spec fn view(&self) -> InstallEndModel {
        match self {
            InstallEnd::Report(report) => InstallEndModel::Report(report@),
            InstallEnd::Error(error) => InstallEndModel::Error(error@),
        }
    }
}

/// What the driver is waiting for.
#[derive(Debug, PartialEq, Eq)]
pub enum InstallStage {
    /// The staging directory to be created.
    Staging,
    /// The installer to be retrieved.
    Download,
    /// The installer to be made executable.
    Permissions,
    /// The caller to name the destination.
    Destination,
    /// The destination directory to be created.
    PrepareDestination,
    /// The silent attempt to end.
    Silent,
    /// The interactive attempt to end.
    Interactive,
    /// The caller to decide whether to go on after both attempts failed.
    Decision,
    /// The background server to be ended.
    Cleanup,
    /// The settle delay to pass.
    Settle,
    /// The candidates to be inspected.
    Discovery,
    /// The files at `source` to be copied to the destination.
    Relocation { source: String },
    /// The caller to decide whether the files at `source` are removed.
    RemovalOffer { source: String },
    /// The files at `source` to be removed.
    Removal { source: String },
}

/// The mathematical content of an [`InstallStage`].
pub enum InstallStageModel {
    Staging,
    Download,
    Permissions,
    Destination,
    PrepareDestination,
    Silent,
    Interactive,
    Decision,
    Cleanup,
    Settle,
    Discovery,
    Relocation { source: Seq<char> },
    RemovalOffer { source: Seq<char> },
    Removal { source: Seq<char> },
}

impl View for InstallStage {
    type V = InstallStageModel;

    open spec fn view(&self) -> InstallStageModel {
        match self {
            InstallStage::Staging => InstallStageModel::Staging,
            InstallStage::Download => InstallStageModel::Download,
            InstallStage::Permissions => InstallStageModel::Permissions,
            InstallStage::Destination => InstallStageModel::Destination,
            InstallStage::PrepareDestination => InstallStageModel::PrepareDestination,
            InstallStage::Silent => InstallStageModel::Silent,
            InstallStage::Interactive => InstallStageModel::Interactive,
            InstallStage::Decision => InstallStageModel::Decision,
            InstallStage::Cleanup => InstallStageModel::Cleanup,
            InstallStage::Settle => InstallStageModel::Settle,
            InstallStage::Discovery => InstallStageModel::Discovery,
            InstallStage::Relocation { source } => InstallStageModel::Relocation {
                source: source@,
            },
            InstallStage::RemovalOffer { source } => InstallStageModel::RemovalOffer {
                source: source@,
            },
            InstallStage::Removal { source } => InstallStageModel::Removal { source: source@ },
        }
    }
}

/// An installation under way.
#[derive(Debug, PartialEq, Eq)]
pub struct Install {
    pub plan: InstallPlan,
    pub stage: InstallStage,
    /// The chosen destination; the default until the caller has answered.
    pub destination: String,
    /// The exit code of the last attempt that ended; zero before that.
    pub code: i32,
}

/// The mathematical content of an [`Install`].
pub struct InstallModel {
    pub plan: InstallPlanModel,
    pub stage: InstallStageModel,
    pub destination: Seq<char>,
    pub code: i32,
}

impl View for Install {
    type V = InstallModel;

    open spec fn view(&self) -> InstallModel {
        InstallModel {
            plan: self.plan@,
            stage: self.stage@,
            destination: self.destination@,
            code: self.code,
        }
    }
}

impl InstallModel {
    /// The same installation, waiting at `stage`.
    pub open spec fn at(self, stage: InstallStageModel) -> InstallModel {
        InstallModel { stage, ..self }
    }

    /// The outcome of an installation that went on past its attempts.
    pub open spec fn outcome(self) -> InstallOutcome {
        if self.code == 0 {
            InstallOutcome::Succeeded
        } else {
            InstallOutcome::FailedContinued
        }
    }

    /// The report that ends the installation after the search.
    pub open spec fn report(self, discovery: DiscoveryModel) -> ProgressModel<
        InstallModel,
        InstallEndModel,
    > {
        ProgressModel::Finished(
            InstallEndModel::Report(
                InstallReportModel {
                    outcome: self.outcome(),
                    code: self.code,
                    destination: self.destination,
                    discovery,
                },
            ),
        )
    }

    /// The end of the installation after both attempts failed and the
    /// caller chose to stop.
    pub open spec fn aborted(self) -> ProgressModel<InstallModel, InstallEndModel> {
        ProgressModel::Finished(
            InstallEndModel::Report(
                InstallReportModel {
                    outcome: InstallOutcome::Aborted,
                    code: self.code,
                    destination: self.destination,
                    discovery: DiscoveryModel::Skipped,
                },
            ),
        )
    }

    /// Cleanup, which follows the attempts unless the caller aborted.
    pub open spec fn clean_up(self) -> ProgressModel<InstallModel, InstallEndModel> {
        ProgressModel::Next(
            self.at(InstallStageModel::Cleanup),
            RequestModel::Run(cleanup_command()),
        )
    }
}

/// The end of an installation on an error.
pub open spec fn install_error(error: InstallErrorModel) -> ProgressModel<
    InstallModel,
    InstallEndModel,
> {
    ProgressModel::Finished(InstallEndModel::Error(error))
}

/// The first state of an installation and its first request.
pub open spec fn install_start(plan: InstallPlanModel) -> (InstallModel, RequestModel) {
    (
        InstallModel {
            plan,
            stage: InstallStageModel::Staging,
            destination: plan.default_destination,
            code: 0,
        },
        RequestModel::CreateDirs(plan.staging_dir),
    )
}

/// The steps that prepare the attempts: staging directory, installer,
/// permissions, destination.
pub open spec fn install_prepare(s: InstallModel, reply: ReplyModel) -> ProgressModel<
    InstallModel,
    InstallEndModel,
> {
    match s.stage {
        InstallStageModel::Staging => match reply {
            ReplyModel::Done => ProgressModel::Next(
                s.at(InstallStageModel::Download),
                RequestModel::Fetch { url: s.plan.installer_url, dest: s.plan.installer_path },
            ),
            ReplyModel::Failed { detail } => install_error(InstallErrorModel::Staging { detail }),
            _ => install_error(InstallErrorModel::Unexpected),
        },
        InstallStageModel::Download => match reply {
            ReplyModel::Done => ProgressModel::Next(
                s.at(InstallStageModel::Permissions),
                RequestModel::MarkExecutable(s.plan.installer_path),
            ),
            ReplyModel::Failed { detail } => install_error(InstallErrorModel::Fetch { detail }),
            _ => install_error(InstallErrorModel::Unexpected),
        },
        InstallStageModel::Permissions => ProgressModel::Next(
            s.at(InstallStageModel::Destination),
            RequestModel::AskPath { default: s.plan.default_destination },
        ),
        InstallStageModel::Destination => match reply {
            ReplyModel::Text(answer) => {
                let destination = chosen_destination(answer, s.plan.default_destination);
                ProgressModel::Next(
                    InstallModel {
                        stage: InstallStageModel::PrepareDestination,
                        destination,
                        ..s
                    },
                    RequestModel::CreateDirs(destination),
                )
            },
            _ => install_error(InstallErrorModel::Unexpected),
        },
        InstallStageModel::PrepareDestination => match reply {
            ReplyModel::Done => ProgressModel::Next(
                s.at(InstallStageModel::Silent),
                RequestModel::Run(silent_command(s.plan)),
            ),
            ReplyModel::Failed { detail } => install_error(
                InstallErrorModel::Destination { detail },
            ),
            _ => install_error(InstallErrorModel::Unexpected),
        },
        _ => install_error(InstallErrorModel::Unexpected),
    }
}

/// The steps of the attempts: silent, then interactive, then the caller's
/// decision, then cleanup and the settle delay.
pub open spec fn install_attempt(s: InstallModel, reply: ReplyModel) -> ProgressModel<
    InstallModel,
    InstallEndModel,
> {
    match s.stage {
        InstallStageModel::Silent => match reply {
            ReplyModel::Exited { code, output } => {
                let t = InstallModel { code: effective_code(code), ..s };
                if t.code == 0 {
                    t.clean_up()
                } else {
                    ProgressModel::Next(
                        t.at(InstallStageModel::Interactive),
                        RequestModel::Run(interactive_command(s.plan)),
                    )
                }
            },
            ReplyModel::Failed { detail } => install_error(InstallErrorModel::Launch { detail }),
            _ => install_error(InstallErrorModel::Unexpected),
        },
        InstallStageModel::Interactive => match reply {
            ReplyModel::Exited { code, output } => {
                let t = InstallModel { code: effective_code(code), ..s };
                if t.code == 0 {
                    t.clean_up()
                } else {
                    ProgressModel::Next(
                        t.at(InstallStageModel::Decision),
                        RequestModel::Confirm(
                            QuestionModel::ContinueAfterFailure { code: t.code },
                        ),
                    )
                }
            },
            ReplyModel::Failed { detail } => install_error(InstallErrorModel::Launch { detail }),
            _ => install_error(InstallErrorModel::Unexpected),
        },
        InstallStageModel::Decision => match reply {
            ReplyModel::Answer(go_on) => if go_on {
                s.clean_up()
            } else {
                s.aborted()
            },
            _ => install_error(InstallErrorModel::Unexpected),
        },
        InstallStageModel::Cleanup => ProgressModel::Next(
            s.at(InstallStageModel::Settle),
            RequestModel::Pause(settle_seconds()),
        ),
        InstallStageModel::Settle => ProgressModel::Next(
            s.at(InstallStageModel::Discovery),
            RequestModel::InspectAll(s.plan.candidates),
        ),
        _ => install_error(InstallErrorModel::Unexpected),
    }
}

/// The steps after the attempts: discovery, relocation, and removal of the
/// files where they were found.
pub open spec fn install_relocate(s: InstallModel, reply: ReplyModel) -> ProgressModel<
    InstallModel,
    InstallEndModel,
> {
    match s.stage {
        InstallStageModel::Discovery => match reply {
            ReplyModel::InspectedAll(seen) => match first_directory(
                seen,
                s.plan.candidates.len() as int,
            ) {
                None => s.report(DiscoveryModel::Missing),
                Some(i) => {
                    let location = s.plan.candidates[i];
                    if location == s.destination {
                        s.report(
                            DiscoveryModel::Found {
                                location,
                                relocation: RelocationModel::InPlace,
                            },
                        )
                    } else {
                        ProgressModel::Next(
                            s.at(InstallStageModel::Relocation { source: location }),
                            RequestModel::CopyTree { from: location, to: s.destination },
                        )
                    }
                },
            },
            _ => install_error(InstallErrorModel::Unexpected),
        },
        InstallStageModel::Relocation { source } => match reply {
            ReplyModel::Done => ProgressModel::Next(
                s.at(InstallStageModel::RemovalOffer { source }),
                RequestModel::Confirm(QuestionModel::RemoveSource { path: source }),
            ),
            ReplyModel::Failed { detail } => if s.plan.strict {
                install_error(InstallErrorModel::Copy { detail })
            } else {
                s.report(
                    DiscoveryModel::Found {
                        location: source,
                        relocation: RelocationModel::CopyFailed { detail },
                    },
                )
            },
            _ => install_error(InstallErrorModel::Unexpected),
        },
        InstallStageModel::RemovalOffer { source } => match reply {
            ReplyModel::Answer(remove) => if remove {
                ProgressModel::Next(
                    s.at(InstallStageModel::Removal { source }),
                    RequestModel::RemoveTree(source),
                )
            } else {
                s.report(
                    DiscoveryModel::Found { location: source, relocation: RelocationModel::Kept },
                )
            },
            _ => install_error(InstallErrorModel::Unexpected),
        },
        InstallStageModel::Removal { source } => match reply {
            ReplyModel::Done => s.report(
                DiscoveryModel::Found { location: source, relocation: RelocationModel::Removed },
            ),
            ReplyModel::Failed { detail } => if s.plan.strict {
                install_error(InstallErrorModel::Removal { detail })
            } else {
                s.report(
                    DiscoveryModel::Found {
                        location: source,
                        relocation: RelocationModel::RemovalFailed { detail },
                    },
                )
            },
            _ => install_error(InstallErrorModel::Unexpected),
        },
        _ => install_error(InstallErrorModel::Unexpected),
    }
}

/// One step of an installation: from the state and the host's reply to the
/// next state and request, or to the end.
pub open spec fn install_step(s: InstallModel, reply: ReplyModel) -> ProgressModel<
    InstallModel,
    InstallEndModel,
> {
    match s.stage {
        InstallStageModel::Staging
        | InstallStageModel::Download
        | InstallStageModel::Permissions
        | InstallStageModel::Destination
        | InstallStageModel::PrepareDestination => install_prepare(s, reply),
        InstallStageModel::Silent
        | InstallStageModel::Interactive
        | InstallStageModel::Decision
        | InstallStageModel::Cleanup
        | InstallStageModel::Settle => install_attempt(s, reply),
        InstallStageModel::Discovery
        | InstallStageModel::Relocation { .. }
        | InstallStageModel::RemovalOffer { .. }
        | InstallStageModel::Removal { .. } => install_relocate(s, reply),
    }
}

/// The number of replies that an installation can still take at most.
pub open spec fn install_rank(stage: InstallStageModel) -> int {
    match stage {
        InstallStageModel::Staging => 14,
        InstallStageModel::Download => 13,
        InstallStageModel::Permissions => 12,
        InstallStageModel::Destination => 11,
        InstallStageModel::PrepareDestination => 10,
        InstallStageModel::Silent => 9,
        InstallStageModel::Interactive => 8,
        InstallStageModel::Decision => 7,
        InstallStageModel::Cleanup => 6,
        InstallStageModel::Settle => 5,
        InstallStageModel::Discovery => 4,
        InstallStageModel::Relocation { .. } => 3,
        InstallStageModel::RemovalOffer { .. } => 2,
        InstallStageModel::Removal { .. } => 1,
    }
}

/// An installation ends: each step that does not finish it lowers the rank
/// of its stage, which is never below one. The plan stays the same.
pub proof fn lemma_install_terminates(s: InstallModel, reply: ReplyModel)
    ensures
        install_rank(s.stage) >= 1,
        install_step(s, reply) matches ProgressModel::Next(t, _) ==> install_rank(t.stage)
            < install_rank(s.stage) && t.plan == s.plan,
{
}

/// The silent attempt failing and the interactive one succeeding is a
/// success: after an exit code other than zero the installer is run again
/// alone, and on exit code zero of that run the installation cleans up,
/// waits, and searches the candidates, as one that succeeded.
pub proof fn lemma_interactive_fallback_succeeds(
    s: InstallModel,
    silent: ReplyModel,
    interactive: ReplyModel,
    cleaned: ReplyModel,
    settled: ReplyModel,
)
    requires
        s.stage is Silent,
        silent matches ReplyModel::Exited { code, .. } && effective_code(code) != 0,
        interactive matches ReplyModel::Exited { code, .. } && code == Some(0i32),
    ensures
        install_step(s, silent) matches ProgressModel::Next(t, again) && {
            &&& again == RequestModel::Run(interactive_command(s.plan))
            &&& install_step(t, interactive) matches ProgressModel::Next(u, clean) && {
                &&& clean == RequestModel::Run(cleanup_command())
                &&& u.outcome() == InstallOutcome::Succeeded
                &&& install_step(u, cleaned) matches ProgressModel::Next(v, pause) && {
                    &&& pause == RequestModel::Pause(settle_seconds())
                    &&& install_step(v, settled) matches ProgressModel::Next(w, search) && {
                        &&& search == RequestModel::InspectAll(s.plan.candidates)
                        &&& w.stage is Discovery
                        &&& w.outcome() == InstallOutcome::Succeeded
                        &&& w.destination == s.destination
                    }
                }
            }
        },
{
}

/// What a report says hangs together: the search was skipped exactly when
/// the installation was aborted, which only the caller's decision does; a
/// success has exit code zero, and a failure that was continued has not.
pub proof fn lemma_report_accounts(s: InstallModel, reply: ReplyModel)
    requires
        install_step(s, reply) is Finished,
        install_step(s, reply)->Finished_0 is Report,
    ensures
        ({
            let report = install_step(s, reply)->Finished_0->Report_0;
            &&& report.outcome == InstallOutcome::Aborted <==> report.discovery is Skipped
            &&& report.outcome == InstallOutcome::Aborted ==> s.stage is Decision && reply
                == ReplyModel::Answer(false)
            &&& report.outcome == InstallOutcome::Succeeded ==> report.code == 0
            &&& report.outcome == InstallOutcome::FailedContinued ==> report.code != 0
            &&& report.destination == s.destination
            &&& report.code == s.code
        }),
{
}

/// Cleanup comes before the search: the candidates are inspected only
/// after the settle delay, the delay follows only the cleanup, and the
/// cleanup follows only an attempt that exited with status zero or the
/// caller's decision to go on.
pub proof fn lemma_cleanup_precedes_discovery(s: InstallModel, reply: ReplyModel)
    ensures
        install_step(s, reply) matches ProgressModel::Next(t, request) ==> {
            &&& t.stage is Discovery ==> s.stage is Settle && request == RequestModel::InspectAll(
                s.plan.candidates,
            )
            &&& t.stage is Settle ==> s.stage is Cleanup && request == RequestModel::Pause(
                settle_seconds(),
            )
            &&& t.stage is Cleanup ==> request == RequestModel::Run(cleanup_command()) && {
                ||| (s.stage is Silent || s.stage is Interactive) && t.code == 0
                ||| s.stage is Decision && reply == ReplyModel::Answer(true)
            }
        },
{
}

/// The destination that the caller's answer names.
pub fn choose_destination(answer: &str, default: &str) -> (destination: String)
    ensures
        destination@ == chosen_destination(answer@, default@),
{
    let given = trim(answer);
    if given.as_str().unicode_len() == 0 {
        String::from_str(default)
    } else {
        given
    }
}

impl Install {
    /// Begins an installation: the first state and the first request.
    pub fn start(plan: InstallPlan) -> (begun: (Install, Request))
        ensures
            (begun.0@, begun.1@) == install_start(plan@),
    {
        let request = Request::CreateDirs(plan.staging_dir.clone());
        let destination = plan.default_destination.clone();
        (Install { plan, stage: InstallStage::Staging, destination, code: 0 }, request)
    }

    fn report(self, discovery: Discovery) -> (end: Progress<Install, InstallEnd>)
        ensures
            end@ == self@.report(discovery@),
    {
        let outcome = if self.code == 0 {
            InstallOutcome::Succeeded
        } else {
            InstallOutcome::FailedContinued
        };
        Progress::Finished(
            InstallEnd::Report(
                InstallReport {
                    outcome,
                    code: self.code,
                    destination: self.destination,
                    discovery,
                },
            ),
        )
    }

    fn clean_up(self) -> (next: Progress<Install, InstallEnd>)
        ensures
            next@ == self@.clean_up(),
    {
        Progress::Next(
            Install {
                plan: self.plan,
                stage: InstallStage::Cleanup,
                destination: self.destination,
                code: self.code,
            },
            Request::Run(cleanup()),
        )
    }

    fn prepare(self, reply: Reply) -> (next: Progress<Install, InstallEnd>)
        ensures
            next@ == install_prepare(self@, reply@),
    {
        let Install { plan, stage, destination, code } = self;
        match stage {
            InstallStage::Staging => match reply {
                Reply::Done => {
                    let request = Request::Fetch {
                        url: plan.installer_url.clone(),
                        dest: plan.installer_path.clone(),
                    };
                    Progress::Next(
                        Install { plan, stage: InstallStage::Download, destination, code },
                        request,
                    )
                },
                Reply::Failed { detail } => Progress::Finished(
                    InstallEnd::Error(InstallError::Staging { detail }),
                ),
                _ => Progress::Finished(InstallEnd::Error(InstallError::Unexpected)),
            },
            InstallStage::Download => match reply {
                Reply::Done => {
                    let request = Request::MarkExecutable(plan.installer_path.clone());
                    Progress::Next(
                        Install { plan, stage: InstallStage::Permissions, destination, code },
                        request,
                    )
                },
                Reply::Failed { detail } => Progress::Finished(
                    InstallEnd::Error(InstallError::Fetch { detail }),
                ),
                _ => Progress::Finished(InstallEnd::Error(InstallError::Unexpected)),
            },
            InstallStage::Permissions => {
                let request = Request::AskPath { default: plan.default_destination.clone() };
                Progress::Next(
                    Install { plan, stage: InstallStage::Destination, destination, code },
                    request,
                )
            },
            InstallStage::Destination => match reply {
                Reply::Text(answer) => {
                    let chosen = choose_destination(
                        answer.as_str(),
                        plan.default_destination.as_str(),
                    );
                    let request = Request::CreateDirs(chosen.clone());
                    Progress::Next(
                        Install {
                            plan,
                            stage: InstallStage::PrepareDestination,
                            destination: chosen,
                            code,
                        },
                        request,
                    )
                },
                _ => Progress::Finished(InstallEnd::Error(InstallError::Unexpected)),
            },
            InstallStage::PrepareDestination => match reply {
                Reply::Done => {
                    let request = Request::Run(plan.silent_command());
                    Progress::Next(
                        Install { plan, stage: InstallStage::Silent, destination, code },
                        request,
                    )
                },
                Reply::Failed { detail } => Progress::Finished(
                    InstallEnd::Error(InstallError::Destination { detail }),
                ),
                _ => Progress::Finished(InstallEnd::Error(InstallError::Unexpected)),
            },
            _ => Progress::Finished(InstallEnd::Error(InstallError::Unexpected)),
        }
    }

    fn attempt(self, reply: Reply) -> (next: Progress<Install, InstallEnd>)
        ensures
            next@ == install_attempt(self@, reply@),
    {
        let Install { plan, stage, destination, code } = self;
        match stage {
            InstallStage::Silent => match reply {
                Reply::Exited { code: exit, output } => {
                    let code: i32 = match exit {
                        Some(c) => c,
                        None => 1,
                    };
                    if code == 0 {
                        (Install { plan, stage: InstallStage::Silent, destination, code })
                            .clean_up()
                    } else {
                        let request = Request::Run(plan.interactive_command());
                        Progress::Next(
                            Install { plan, stage: InstallStage::Interactive, destination, code },
                            request,
                        )
                    }
                },
                Reply::Failed { detail } => Progress::Finished(
                    InstallEnd::Error(InstallError::Launch { detail }),
                ),
                _ => Progress::Finished(InstallEnd::Error(InstallError::Unexpected)),
            },
            InstallStage::Interactive => match reply {
                Reply::Exited { code: exit, output } => {
                    let code: i32 = match exit {
                        Some(c) => c,
                        None => 1,
                    };
                    if code == 0 {
                        (Install { plan, stage: InstallStage::Interactive, destination, code })
                            .clean_up()
                    } else {
                        Progress::Next(
                            Install { plan, stage: InstallStage::Decision, destination, code },
                            Request::Confirm(Question::ContinueAfterFailure { code }),
                        )
                    }
                },
                Reply::Failed { detail } => Progress::Finished(
                    InstallEnd::Error(InstallError::Launch { detail }),
                ),
                _ => Progress::Finished(InstallEnd::Error(InstallError::Unexpected)),
            },
            InstallStage::Decision => match reply {
                Reply::Answer(go_on) => {
                    if go_on {
                        (Install { plan, stage: InstallStage::Decision, destination, code })
                            .clean_up()
                    } else {
                        Progress::Finished(
                            InstallEnd::Report(
                                InstallReport {
                                    outcome: InstallOutcome::Aborted,
                                    code,
                                    destination,
                                    discovery: Discovery::Skipped,
                                },
                            ),
                        )
                    }
                },
                _ => Progress::Finished(InstallEnd::Error(InstallError::Unexpected)),
            },
            InstallStage::Cleanup => Progress::Next(
                Install { plan, stage: InstallStage::Settle, destination, code },
                Request::Pause(1),
            ),
            InstallStage::Settle => {
                let request = Request::InspectAll(copy_strings(&plan.candidates));
                Progress::Next(
                    Install { plan, stage: InstallStage::Discovery, destination, code },
                    request,
                )
            },
            _ => Progress::Finished(InstallEnd::Error(InstallError::Unexpected)),
        }
    }

    fn relocate(self, reply: Reply) -> (next: Progress<Install, InstallEnd>)
        ensures
            next@ == install_relocate(self@, reply@),
    {
        let Install { plan, stage, destination, code } = self;
        match stage {
            InstallStage::Discovery => match reply {
                Reply::InspectedAll(seen) => {
                    match find_first_directory(&seen, plan.candidates.len()) {
                        None => (Install {
                            plan,
                            stage: InstallStage::Discovery,
                            destination,
                            code,
                        }).report(Discovery::Missing),
                        Some(i) => {
                            proof {
                                crate::probe::lemma_first_directory(
                                    seen@,
                                    plan.candidates.len() as int,
                                );
                            }
                            let location = plan.candidates[i].clone();
                            assert(location@ == plan@.candidates[i as int]);
                            if location == destination {
                                (Install {
                                    plan,
                                    stage: InstallStage::Discovery,
                                    destination,
                                    code,
                                }).report(
                                    Discovery::Found { location, relocation: Relocation::InPlace },
                                )
                            } else {
                                let request = Request::CopyTree {
                                    from: location.clone(),
                                    to: destination.clone(),
                                };
                                Progress::Next(
                                    Install {
                                        plan,
                                        stage: InstallStage::Relocation { source: location },
                                        destination,
                                        code,
                                    },
                                    request,
                                )
                            }
                        },
                    }
                },
                _ => Progress::Finished(InstallEnd::Error(InstallError::Unexpected)),
            },
            InstallStage::Relocation { source } => match reply {
                Reply::Done => {
                    let request = Request::Confirm(
                        Question::RemoveSource { path: source.clone() },
                    );
                    Progress::Next(
                        Install {
                            plan,
                            stage: InstallStage::RemovalOffer { source },
                            destination,
                            code,
                        },
                        request,
                    )
                },
                Reply::Failed { detail } => {
                    if plan.strict {
                        return Progress::Finished(
                            InstallEnd::Error(InstallError::Copy { detail }),
                        );
                    }
                    let location = source.clone();
                    (Install {
                        plan,
                        stage: InstallStage::Relocation { source },
                        destination,
                        code,
                    }).report(
                        Discovery::Found {
                            location,
                            relocation: Relocation::CopyFailed { detail },
                        },
                    )
                },
                _ => Progress::Finished(InstallEnd::Error(InstallError::Unexpected)),
            },
            InstallStage::RemovalOffer { source } => match reply {
                Reply::Answer(remove) => {
                    if remove {
                        let request = Request::RemoveTree(source.clone());
                        Progress::Next(
                            Install {
                                plan,
                                stage: InstallStage::Removal { source },
                                destination,
                                code,
                            },
                            request,
                        )
                    } else {
                        let location = source.clone();
                        (Install {
                            plan,
                            stage: InstallStage::RemovalOffer { source },
                            destination,
                            code,
                        }).report(Discovery::Found { location, relocation: Relocation::Kept })
                    }
                },
                _ => Progress::Finished(InstallEnd::Error(InstallError::Unexpected)),
            },
            InstallStage::Removal { source } => match reply {
                Reply::Done => {
                    let location = source.clone();
                    (Install {
                        plan,
                        stage: InstallStage::Removal { source },
                        destination,
                        code,
                    }).report(Discovery::Found { location, relocation: Relocation::Removed })
                },
                Reply::Failed { detail } => {
                    if plan.strict {
                        return Progress::Finished(
                            InstallEnd::Error(InstallError::Removal { detail }),
                        );
                    }
                    let location = source.clone();
                    (Install {
                        plan,
                        stage: InstallStage::Removal { source },
                        destination,
                        code,
                    }).report(
                        Discovery::Found {
                            location,
                            relocation: Relocation::RemovalFailed { detail },
                        },
                    )
                },
                _ => Progress::Finished(InstallEnd::Error(InstallError::Unexpected)),
            },
            _ => Progress::Finished(InstallEnd::Error(InstallError::Unexpected)),
        }
    }

    /// Takes the host's reply to the last request and answers with the next
    /// request, or with the end of the installation.
    pub fn step(self, reply: Reply) -> (next: Progress<Install, InstallEnd>)
        ensures
            next@ == install_step(self@, reply@),
    {
        match self.stage {
            InstallStage::Staging
            | InstallStage::Download
            | InstallStage::Permissions
            | InstallStage::Destination
            | InstallStage::PrepareDestination => self.prepare(reply),
            InstallStage::Silent
            | InstallStage::Interactive
            | InstallStage::Decision
            | InstallStage::Cleanup
            | InstallStage::Settle => self.attempt(reply),
            InstallStage::Discovery
            | InstallStage::Relocation { .. }
            | InstallStage::RemovalOffer { .. }
            | InstallStage::Removal { .. } => self.relocate(reply),
        }
    }
}

} // verus!
