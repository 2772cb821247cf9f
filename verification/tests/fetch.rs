use launcher_installer::fetch::{
    Fetch, FetchEnd, FetchError, FetchStage, FetchTarget, Fetched, Strategy,
};
use launcher_installer::host::{
    has_succeeded, locate, Command, Inspection, Progress, Reply, Request, Stream,
};
use std::collections::BTreeSet;

const URL: &str = "https://example.org/setup.exe";
const DEST: &str = "/home/alice/.battlenet/Battle.net-Setup.exe";

fn target() -> FetchTarget {
    FetchTarget { url: URL.to_string(), dest: DEST.to_string() }
}

fn exited(code: i32) -> Reply {
    Reply::Exited { code: Some(code), output: Vec::new() }
}

fn seen(exists: bool) -> Reply {
    Reply::Inspected(Inspection { exists, is_dir: false, is_file: exists })
}

fn failed(detail: &str) -> Reply {
    Reply::Failed { detail: detail.to_string() }
}

fn strings(list: &[&str]) -> Vec<String> {
    list.iter().map(|s| s.to_string()).collect()
}

fn command(program: &str, args: &[&str]) -> Command {
    Command {
        program: program.to_string(),
        args: strings(args),
        env: Vec::new(),
        stream: Stream::Inherited,
    }
}

/// A host that keeps files in memory and has some of the tools.
struct Host {
    files: BTreeSet<String>,
    tools: BTreeSet<String>,
    transfers: usize,
    asked: Vec<Request>,
}

impl Host {
    fn new(tools: &[&str]) -> Host {
        Host {
            files: BTreeSet::new(),
            tools: tools.iter().map(|s| s.to_string()).collect(),
            transfers: 0,
            asked: Vec::new(),
        }
    }

    fn perform(&mut self, request: &Request) -> Reply {
        self.asked.push(clone_request(request));
        match request {
            Request::Inspect(path) => seen(self.files.contains(path)),
            Request::CreateParentDirs(_) => Reply::Done,
            Request::Run(c) if c.program == "which" => {
                exited(if self.tools.contains(&c.args[0]) { 0 } else { 1 })
            }
            Request::Run(c) if c.program == "curl" => {
                self.transfers += 1;
                self.files.insert(c.args[2].clone());
                exited(0)
            }
            Request::Run(c) if c.program == "wget" => {
                self.transfers += 1;
                self.files.insert(c.args[1].clone());
                exited(0)
            }
            Request::HttpGet { dest, .. } => {
                self.transfers += 1;
                self.files.insert(dest.clone());
                Reply::Done
            }
            _ => failed("not understood"),
        }
    }

    fn fetch(&mut self, target: FetchTarget) -> FetchEnd {
        let (mut state, mut request) = Fetch::start(target);
        loop {
            let reply = self.perform(&request);
            match state.step(reply) {
                Progress::Next(next, asked) => {
                    state = next;
                    request = asked;
                }
                Progress::Finished(end) => return end,
            }
        }
    }
}

fn clone_request(request: &Request) -> Request {
    match request {
        Request::Inspect(p) => Request::Inspect(p.clone()),
        Request::CreateParentDirs(p) => Request::CreateParentDirs(p.clone()),
        Request::HttpGet { url, dest } => Request::HttpGet { url: url.clone(), dest: dest.clone() },
        Request::Run(c) => Request::Run(Command {
            program: c.program.clone(),
            args: c.args.clone(),
            env: c.env.clone(),
            stream: c.stream,
        }),
        _ => Request::Pause(0),
    }
}

fn at(stage: FetchStage) -> Fetch {
    Fetch { target: target(), stage }
}

#[test]
fn fetch_begins_by_inspecting_the_destination() {
    let (state, request) = Fetch::start(target());
    assert_eq!(state, at(FetchStage::CheckDestination));
    assert_eq!(request, Request::Inspect(DEST.to_string()));
}

#[test]
fn fetch_of_a_present_destination_does_nothing() {
    let (state, _) = Fetch::start(target());
    assert_eq!(state.step(seen(true)), Progress::Finished(FetchEnd::Done(Fetched::AlreadyPresent)));
}

#[test]
fn fetch_twice_transfers_once() {
    let mut host = Host::new(&["curl"]);
    assert_eq!(host.fetch(target()), FetchEnd::Done(Fetched::Downloaded(Strategy::Curl)));
    assert_eq!(host.transfers, 1);
    let asked_before = host.asked.len();
    assert_eq!(host.fetch(target()), FetchEnd::Done(Fetched::AlreadyPresent));
    assert_eq!(host.transfers, 1);
    assert_eq!(host.asked.len(), asked_before + 1);
    assert_eq!(host.asked[asked_before], Request::Inspect(DEST.to_string()));
}

#[test]
fn fetch_falls_back_to_the_host_process_without_tools() {
    let mut host = Host::new(&[]);
    assert_eq!(host.fetch(target()), FetchEnd::Done(Fetched::Downloaded(Strategy::BuiltIn)));
    assert!(host.files.contains(DEST));
    assert_eq!(
        host.asked,
        vec![
            Request::Inspect(DEST.to_string()),
            Request::CreateParentDirs(DEST.to_string()),
            Request::Run(command("which", &["curl"])),
            Request::Run(command("which", &["wget"])),
            Request::HttpGet { url: URL.to_string(), dest: DEST.to_string() },
        ]
    );
}

#[test]
fn fetch_uses_the_first_tool_when_it_is_there() {
    let mut host = Host::new(&["curl", "wget"]);
    assert_eq!(host.fetch(target()), FetchEnd::Done(Fetched::Downloaded(Strategy::Curl)));
    assert_eq!(
        host.asked,
        vec![
            Request::Inspect(DEST.to_string()),
            Request::CreateParentDirs(DEST.to_string()),
            Request::Run(command("which", &["curl"])),
            Request::Run(command("curl", &["-L", "-o", DEST, URL])),
        ]
    );
}

#[test]
fn fetch_uses_the_second_tool_when_the_first_is_missing() {
    let mut host = Host::new(&["wget"]);
    assert_eq!(host.fetch(target()), FetchEnd::Done(Fetched::Downloaded(Strategy::Wget)));
    assert_eq!(
        host.asked[3..],
        [Request::Run(command("which", &["wget"])), Request::Run(command("wget", &["-O", DEST, URL]))]
    );
}

#[test]
fn fetch_does_not_try_another_strategy_after_a_failure() {
    assert_eq!(
        at(FetchStage::RunCurl).step(exited(22)),
        Progress::Finished(FetchEnd::Error(FetchError::Exit {
            tool: Strategy::Curl,
            code: Some(22)
        }))
    );
    assert_eq!(
        at(FetchStage::RunWget).step(exited(4)),
        Progress::Finished(FetchEnd::Error(FetchError::Exit {
            tool: Strategy::Wget,
            code: Some(4)
        }))
    );
    assert_eq!(
        at(FetchStage::RunCurl).step(Reply::Exited { code: None, output: Vec::new() }),
        Progress::Finished(FetchEnd::Error(FetchError::Exit { tool: Strategy::Curl, code: None }))
    );
}

#[test]
fn fetch_reports_a_tool_that_does_not_start() {
    assert_eq!(
        at(FetchStage::RunCurl).step(failed("permission denied")),
        Progress::Finished(FetchEnd::Error(FetchError::Launch {
            tool: Strategy::Curl,
            detail: "permission denied".to_string()
        }))
    );
    assert_eq!(
        at(FetchStage::RunWget).step(failed("gone")),
        Progress::Finished(FetchEnd::Error(FetchError::Launch {
            tool: Strategy::Wget,
            detail: "gone".to_string()
        }))
    );
}

#[test]
fn fetch_reports_a_directory_that_cannot_be_made() {
    assert_eq!(
        at(FetchStage::PrepareParent).step(failed("read-only file system")),
        Progress::Finished(FetchEnd::Error(FetchError::Directory {
            detail: "read-only file system".to_string()
        }))
    );
}

#[test]
fn fetch_reports_a_failed_transfer_in_the_host_process() {
    assert_eq!(
        at(FetchStage::Transfer).step(failed("connection reset")),
        Progress::Finished(FetchEnd::Error(FetchError::Transfer {
            detail: "connection reset".to_string()
        }))
    );
    assert_eq!(
        at(FetchStage::Transfer).step(Reply::Done),
        Progress::Finished(FetchEnd::Done(Fetched::Downloaded(Strategy::BuiltIn)))
    );
}

#[test]
fn fetch_rejects_a_reply_that_does_not_fit() {
    let unexpected = Progress::Finished(FetchEnd::Error(FetchError::Unexpected));
    assert_eq!(at(FetchStage::CheckDestination).step(Reply::Done), unexpected);
    assert_eq!(at(FetchStage::PrepareParent).step(seen(true)), unexpected);
    assert_eq!(at(FetchStage::RunCurl).step(Reply::Done), unexpected);
    assert_eq!(at(FetchStage::RunWget).step(Reply::Answer(true)), unexpected);
    assert_eq!(at(FetchStage::Transfer).step(exited(0)), unexpected);
}

#[test]
fn fetch_counts_a_lookup_that_cannot_run_as_a_missing_tool() {
    assert_eq!(
        at(FetchStage::LocateCurl).step(failed("no which")),
        Progress::Next(at(FetchStage::LocateWget), Request::Run(command("which", &["wget"])))
    );
    assert_eq!(
        at(FetchStage::LocateWget).step(Reply::Exited { code: None, output: Vec::new() }),
        Progress::Next(
            at(FetchStage::Transfer),
            Request::HttpGet { url: URL.to_string(), dest: DEST.to_string() }
        )
    );
}

#[test]
fn locate_asks_which() {
    assert_eq!(locate("curl"), command("which", &["curl"]));
    assert!(has_succeeded(&exited(0)));
    assert!(!has_succeeded(&exited(1)));
    assert!(!has_succeeded(&Reply::Done));
}

#[test]
fn fetch_target_builds_the_tool_commands() {
    assert_eq!(target().curl(), command("curl", &["-L", "-o", DEST, URL]));
    assert_eq!(target().wget(), command("wget", &["-O", DEST, URL]));
}
