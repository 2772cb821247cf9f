use launcher_installer::host::{
    Command, Inspection, Progress, Question, Reply, Request, Stream,
};
use launcher_installer::install::{
    choose_destination, Discovery, Install, InstallEnd, InstallError, InstallOutcome,
    InstallReport, InstallStage, Relocation,
};
use launcher_installer::plan::{cleanup, interactive_env, silent_env, InstallPlan};
use launcher_installer::paths::AppPaths;

const WINE: &str = "/usr/bin/wine";
const HOME: &str = "/home/alice";
const INSTALLER: &str = "/home/alice/.battlenet/Battle.net-Setup.exe";
const DEFAULT: &str = "/home/alice/Games/Battle.net";
const FOUND: &str = "/home/alice/.wine/drive_c/Program Files (x86)/Battle.net";

fn plan() -> InstallPlan {
    InstallPlan::battlenet(WINE, &AppPaths::new(HOME))
}

fn strings(list: &[&str]) -> Vec<String> {
    list.iter().map(|s| s.to_string()).collect()
}

fn pairs(list: &[(&str, &str)]) -> Vec<(String, String)> {
    list.iter().map(|(k, v)| (k.to_string(), v.to_string())).collect()
}

fn exited(code: i32) -> Reply {
    Reply::Exited { code: Some(code), output: Vec::new() }
}

fn failed(detail: &str) -> Reply {
    Reply::Failed { detail: detail.to_string() }
}

fn dir() -> Inspection {
    Inspection { exists: true, is_dir: true, is_file: false }
}

fn absent() -> Inspection {
    Inspection { exists: false, is_dir: false, is_file: false }
}

fn at(stage: InstallStage, destination: &str, code: i32) -> Install {
    Install { plan: plan(), stage, destination: destination.to_string(), code }
}

fn report(outcome: InstallOutcome, code: i32, destination: &str, discovery: Discovery) -> InstallEnd {
    InstallEnd::Report(InstallReport {
        outcome,
        code,
        destination: destination.to_string(),
        discovery,
    })
}

fn found(relocation: Relocation) -> Discovery {
    Discovery::Found { location: FOUND.to_string(), relocation }
}

fn silent_run() -> Request {
    Request::Run(Command {
        program: WINE.to_string(),
        args: strings(&[
            INSTALLER,
            "--lang=enUS",
            "--installpath=\"C:\\Program Files (x86)\\Battle.net\"",
        ]),
        env: pairs(&[
            ("WINEPREFIX", "/home/alice/.wine"),
            ("WINEDEBUG", "-all"),
            ("MANGOHUD", "0"),
            ("DISABLE_MANGOHUD", "1"),
            ("WINEDLLOVERRIDES", "mscoree,mshtml="),
            ("DISPLAY", ":99"),
            ("DISABLE_LAYER_AMD_SWITCHABLE_GRAPHICS_1", "1"),
        ]),
        stream: Stream::Discarded,
    })
}

fn interactive_run() -> Request {
    Request::Run(Command {
        program: WINE.to_string(),
        args: strings(&[INSTALLER]),
        env: pairs(&[
            ("WINEPREFIX", "/home/alice/.wine"),
            ("WINEDEBUG", "-all"),
            ("MANGOHUD", "0"),
            ("DISABLE_MANGOHUD", "1"),
            ("DISABLE_LAYER_AMD_SWITCHABLE_GRAPHICS_1", "1"),
        ]),
        stream: Stream::Discarded,
    })
}

fn cleanup_run() -> Request {
    Request::Run(Command {
        program: "wineserver".to_string(),
        args: strings(&["-k"]),
        env: Vec::new(),
        stream: Stream::Discarded,
    })
}

fn candidates() -> Vec<String> {
    strings(&[
        "/home/alice/.wine/drive_c/Program Files/Battle.net",
        FOUND,
        "/home/alice/.wine/drive_c/Games/Battle.net",
        "/home/alice/.wine/drive_c/Blizzard/Battle.net",
    ])
}

fn run(plan: InstallPlan, replies: Vec<Reply>) -> (Vec<Request>, InstallEnd) {
    let (mut state, mut request) = Install::start(plan);
    let mut asked = Vec::new();
    let mut replies = replies.into_iter();
    loop {
        asked.push(request);
        let reply = replies.next().expect("the installation asked for more than was scripted");
        match state.step(reply) {
            Progress::Next(next, then) => {
                state = next;
                request = then;
            }
            Progress::Finished(end) => {
                assert!(replies.next().is_none());
                return (asked, end);
            }
        }
    }
}

#[test]
fn battlenet_plan_holds_the_conventional_places() {
    let plan = plan();
    assert_eq!(plan.tool, WINE);
    assert_eq!(plan.prefix, "/home/alice/.wine");
    assert_eq!(plan.staging_dir, "/home/alice/.battlenet");
    assert_eq!(
        plan.installer_url,
        "https://downloader.battle.net/download/getInstaller?os=win&installer=Battle.net-Setup.exe"
    );
    assert_eq!(plan.installer_path, INSTALLER);
    assert_eq!(plan.default_destination, DEFAULT);
    assert_eq!(
        plan.silent_args,
        strings(&["--lang=enUS", "--installpath=\"C:\\Program Files (x86)\\Battle.net\""])
    );
    assert_eq!(plan.candidates, candidates());
    assert!(!plan.strict);
}

#[test]
fn hoyoplay_plan_holds_the_conventional_places() {
    let plan = InstallPlan::hoyoplay(WINE, &AppPaths::new(HOME));
    assert_eq!(plan.tool, WINE);
    assert_eq!(plan.prefix, "/home/alice/.wine");
    assert_eq!(plan.staging_dir, "/home/alice/.hoyoplay");
    assert_eq!(
        plan.installer_url,
        "https://download-porter.hoyoverse.com/download-porter/2025/02/21/VYTpXlbWo8_1.4.5.222_1_0_hyp_hoyoverse_prod_202502081529_XFGRLkBk.exe?trace_key=HoYoPlay_install_ua_5ca9c7368584"
    );
    assert_eq!(plan.installer_path, "/home/alice/.hoyoplay/HoYoPlay-Setup.exe");
    assert_eq!(plan.default_destination, "/home/alice/Games/HoYoPlay");
    assert_eq!(plan.silent_args, Vec::<String>::new());
    assert_eq!(plan.candidates, strings(&["/home/alice/.wine/drive_c/Program Files/HoYoPlay"]));
    assert!(plan.strict);
}

#[test]
fn interactive_overlay_is_the_silent_one_without_override_and_display() {
    let silent = silent_env("/p");
    let interactive = interactive_env("/p");
    assert_eq!(silent.len(), 7);
    let kept: Vec<(String, String)> = silent
        .into_iter()
        .filter(|(name, _)| name != "WINEDLLOVERRIDES" && name != "DISPLAY")
        .collect();
    assert_eq!(interactive, kept);
    assert_eq!(interactive[0], ("WINEPREFIX".to_string(), "/p".to_string()));
}

#[test]
fn choose_destination_falls_back_to_the_default() {
    assert_eq!(choose_destination("\n", DEFAULT), DEFAULT);
    assert_eq!(choose_destination("", DEFAULT), DEFAULT);
    assert_eq!(choose_destination("  /mnt/games/bnet \n", DEFAULT), "/mnt/games/bnet");
}

#[test]
fn install_succeeds_silently_and_relocates() {
    let (asked, end) = run(
        plan(),
        vec![
            Reply::Done,
            Reply::Done,
            Reply::Done,
            Reply::Text("\n".to_string()),
            Reply::Done,
            exited(0),
            exited(0),
            Reply::Done,
            Reply::InspectedAll(vec![absent(), dir(), dir(), absent()]),
            Reply::Done,
            Reply::Answer(true),
            Reply::Done,
        ],
    );
    assert_eq!(
        asked,
        vec![
            Request::CreateDirs("/home/alice/.battlenet".to_string()),
            Request::Fetch {
                url: "https://downloader.battle.net/download/getInstaller?os=win&installer=Battle.net-Setup.exe".to_string(),
                dest: INSTALLER.to_string()
            },
            Request::MarkExecutable(INSTALLER.to_string()),
            Request::AskPath { default: DEFAULT.to_string() },
            Request::CreateDirs(DEFAULT.to_string()),
            silent_run(),
            cleanup_run(),
            Request::Pause(1),
            Request::InspectAll(candidates()),
            Request::CopyTree { from: FOUND.to_string(), to: DEFAULT.to_string() },
            Request::Confirm(Question::RemoveSource { path: FOUND.to_string() }),
            Request::RemoveTree(FOUND.to_string()),
        ]
    );
    assert_eq!(end, report(InstallOutcome::Succeeded, 0, DEFAULT, found(Relocation::Removed)));
}

#[test]
fn install_falls_back_to_the_interactive_attempt() {
    let (asked, end) = run(
        plan(),
        vec![
            Reply::Done,
            Reply::Done,
            Reply::Done,
            Reply::Text("/mnt/bnet".to_string()),
            Reply::Done,
            exited(1),
            exited(0),
            exited(0),
            Reply::Done,
            Reply::InspectedAll(vec![absent(), dir(), absent(), absent()]),
            Reply::Done,
            Reply::Answer(false),
        ],
    );
    assert_eq!(asked[5], silent_run());
    assert_eq!(asked[6], interactive_run());
    assert_eq!(asked[7], cleanup_run());
    assert_eq!(asked[8], Request::Pause(1));
    assert_eq!(asked[9], Request::InspectAll(candidates()));
    assert_eq!(asked[10], Request::CopyTree { from: FOUND.to_string(), to: "/mnt/bnet".to_string() });
    assert_eq!(end, report(InstallOutcome::Succeeded, 0, "/mnt/bnet", found(Relocation::Kept)));
}

#[test]
fn install_goes_on_after_two_failures_when_the_caller_says_so() {
    let (asked, end) = run(
        plan(),
        vec![
            Reply::Done,
            Reply::Done,
            failed("chmod"),
            Reply::Text(String::new()),
            Reply::Done,
            exited(1),
            exited(3),
            Reply::Answer(true),
            failed("no wineserver"),
            Reply::Done,
            Reply::InspectedAll(vec![absent(), absent(), absent(), absent()]),
        ],
    );
    assert_eq!(asked[7], Request::Confirm(Question::ContinueAfterFailure { code: 3 }));
    assert_eq!(asked[8], cleanup_run());
    assert_eq!(end, report(InstallOutcome::FailedContinued, 3, DEFAULT, Discovery::Missing));
}

#[test]
fn install_aborts_without_cleanup_when_the_caller_says_so() {
    let (asked, end) = run(
        plan(),
        vec![
            Reply::Done,
            Reply::Done,
            Reply::Done,
            Reply::Text(String::new()),
            Reply::Done,
            exited(1),
            Reply::Exited { code: None, output: Vec::new() },
            Reply::Answer(false),
        ],
    );
    assert_eq!(asked.len(), 8);
    assert_eq!(asked[7], Request::Confirm(Question::ContinueAfterFailure { code: 1 }));
    assert!(!asked.contains(&cleanup_run()));
    assert_eq!(end, report(InstallOutcome::Aborted, 1, DEFAULT, Discovery::Skipped));
}

#[test]
fn install_leaves_files_that_are_at_the_destination() {
    let state = at(InstallStage::Discovery, FOUND, 0);
    assert_eq!(
        state.step(Reply::InspectedAll(vec![absent(), dir()])),
        Progress::Finished(report(InstallOutcome::Succeeded, 0, FOUND, found(Relocation::InPlace)))
    );
}

#[test]
fn install_takes_the_first_candidate_that_is_a_directory() {
    let file = Inspection { exists: true, is_dir: false, is_file: true };
    let state = at(InstallStage::Discovery, DEFAULT, 0);
    assert_eq!(
        state.step(Reply::InspectedAll(vec![file, absent(), dir(), dir()])),
        Progress::Next(
            at(
                InstallStage::Relocation {
                    source: "/home/alice/.wine/drive_c/Games/Battle.net".to_string()
                },
                DEFAULT,
                0
            ),
            Request::CopyTree {
                from: "/home/alice/.wine/drive_c/Games/Battle.net".to_string(),
                to: DEFAULT.to_string()
            }
        )
    );
}

#[test]
fn install_reports_a_failed_copy_and_a_failed_removal() {
    assert_eq!(
        at(InstallStage::Relocation { source: FOUND.to_string() }, DEFAULT, 2).step(failed("disk full")),
        Progress::Finished(report(
            InstallOutcome::FailedContinued,
            2,
            DEFAULT,
            found(Relocation::CopyFailed { detail: "disk full".to_string() })
        ))
    );
    assert_eq!(
        at(InstallStage::Removal { source: FOUND.to_string() }, DEFAULT, 0).step(failed("busy")),
        Progress::Finished(report(
            InstallOutcome::Succeeded,
            0,
            DEFAULT,
            found(Relocation::RemovalFailed { detail: "busy".to_string() })
        ))
    );
}

#[test]
fn install_stops_on_each_error_before_the_attempts() {
    assert_eq!(
        at(InstallStage::Staging, DEFAULT, 0).step(failed("a")),
        Progress::Finished(InstallEnd::Error(InstallError::Staging { detail: "a".to_string() }))
    );
    assert_eq!(
        at(InstallStage::Download, DEFAULT, 0).step(failed("b")),
        Progress::Finished(InstallEnd::Error(InstallError::Fetch { detail: "b".to_string() }))
    );
    assert_eq!(
        at(InstallStage::PrepareDestination, DEFAULT, 0).step(failed("c")),
        Progress::Finished(InstallEnd::Error(InstallError::Destination { detail: "c".to_string() }))
    );
    assert_eq!(
        at(InstallStage::Silent, DEFAULT, 0).step(failed("d")),
        Progress::Finished(InstallEnd::Error(InstallError::Launch { detail: "d".to_string() }))
    );
    assert_eq!(
        at(InstallStage::Interactive, DEFAULT, 1).step(failed("e")),
        Progress::Finished(InstallEnd::Error(InstallError::Launch { detail: "e".to_string() }))
    );
}

#[test]
fn install_rejects_a_reply_that_does_not_fit() {
    let unexpected = Progress::Finished(InstallEnd::Error(InstallError::Unexpected));
    assert_eq!(at(InstallStage::Staging, DEFAULT, 0).step(exited(0)), unexpected);
    assert_eq!(at(InstallStage::Destination, DEFAULT, 0).step(Reply::Done), unexpected);
    assert_eq!(at(InstallStage::Silent, DEFAULT, 0).step(Reply::Done), unexpected);
    assert_eq!(at(InstallStage::Decision, DEFAULT, 1).step(Reply::Done), unexpected);
    assert_eq!(at(InstallStage::Discovery, DEFAULT, 0).step(Reply::Done), unexpected);
    assert_eq!(
        at(InstallStage::RemovalOffer { source: FOUND.to_string() }, DEFAULT, 0).step(Reply::Done),
        unexpected
    );
}

#[test]
fn hoyoplay_installs_with_the_same_driver() {
    let plan = InstallPlan::hoyoplay(WINE, &AppPaths::new(HOME));
    let source = "/home/alice/.wine/drive_c/Program Files/HoYoPlay";
    let (asked, end) = run(
        plan,
        vec![
            Reply::Done,
            Reply::Done,
            Reply::Done,
            Reply::Text("\n".to_string()),
            Reply::Done,
            exited(0),
            exited(0),
            Reply::Done,
            Reply::InspectedAll(vec![dir()]),
            Reply::Done,
            Reply::Answer(true),
            Reply::Done,
        ],
    );
    assert_eq!(asked[0], Request::CreateDirs("/home/alice/.hoyoplay".to_string()));
    match &asked[5] {
        Request::Run(command) => {
            assert_eq!(command.args, strings(&["/home/alice/.hoyoplay/HoYoPlay-Setup.exe"]));
            assert_eq!(command.env.len(), 7);
            assert_eq!(command.stream, Stream::Discarded);
        }
        other => panic!("not a run: {:?}", other),
    }
    assert_eq!(
        asked[9],
        Request::CopyTree { from: source.to_string(), to: "/home/alice/Games/HoYoPlay".to_string() }
    );
    assert_eq!(
        end,
        report(
            InstallOutcome::Succeeded,
            0,
            "/home/alice/Games/HoYoPlay",
            Discovery::Found { location: source.to_string(), relocation: Relocation::Removed }
        )
    );
}

#[test]
fn cleanup_ends_the_background_server() {
    assert_eq!(Request::Run(cleanup()), cleanup_run());
}

#[test]
fn plan_builds_both_attempts() {
    assert_eq!(Request::Run(plan().silent_command()), silent_run());
    assert_eq!(Request::Run(plan().interactive_command()), interactive_run());
}

#[test]
fn strict_plan_fails_on_a_failed_copy_and_a_failed_removal() {
    let source = "/home/alice/.wine/drive_c/Program Files/HoYoPlay";
    let strict = |stage: InstallStage| Install {
        plan: InstallPlan::hoyoplay(WINE, &AppPaths::new(HOME)),
        stage,
        destination: "/home/alice/Games/HoYoPlay".to_string(),
        code: 0,
    };
    assert_eq!(
        strict(InstallStage::Relocation { source: source.to_string() }).step(failed("disk full")),
        Progress::Finished(InstallEnd::Error(InstallError::Copy { detail: "disk full".to_string() }))
    );
    assert_eq!(
        strict(InstallStage::Removal { source: source.to_string() }).step(failed("busy")),
        Progress::Finished(InstallEnd::Error(InstallError::Removal { detail: "busy".to_string() }))
    );
    assert_eq!(
        strict(InstallStage::Removal { source: source.to_string() }).step(Reply::Done),
        Progress::Finished(report(
            InstallOutcome::Succeeded,
            0,
            "/home/alice/Games/HoYoPlay",
            Discovery::Found { location: source.to_string(), relocation: Relocation::Removed }
        ))
    );
}

#[test]
fn install_trusts_exit_code_zero_even_when_nothing_is_found() {
    let (_, end) = run(
        plan(),
        vec![
            Reply::Done,
            Reply::Done,
            Reply::Done,
            Reply::Text(String::new()),
            Reply::Done,
            exited(0),
            exited(0),
            Reply::Done,
            Reply::InspectedAll(vec![absent(), absent(), absent(), absent()]),
        ],
    );
    assert_eq!(end, report(InstallOutcome::Succeeded, 0, DEFAULT, Discovery::Missing));
}

#[test]
fn install_never_takes_more_than_fourteen_replies() {
    let (asked, _) = run(
        plan(),
        vec![
            Reply::Done,
            Reply::Done,
            Reply::Done,
            Reply::Text(String::new()),
            Reply::Done,
            exited(1),
            exited(1),
            Reply::Answer(true),
            exited(0),
            Reply::Done,
            Reply::InspectedAll(vec![dir()]),
            Reply::Done,
            Reply::Answer(true),
            Reply::Done,
        ],
    );
    assert_eq!(asked.len(), 14);
}
