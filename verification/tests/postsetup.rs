use launcher_installer::adjust::{
    host_root_link_path, remove_window_decorations, setup_linux_root_symlink,
};
use launcher_installer::host::{Command, Inspection, Progress, Reply, Request, Stream};
use launcher_installer::postsetup::{
    listing_query, Adjusted, PostSetup, PostSetupEnd, PostSetupError, PostSetupStage,
};
use launcher_installer::sandbox::ListError;

const ROOT: &str = "/home/alice/.steam/steam";
const PREFIX: &str = "/mnt/games/steamapps/compatdata/3456789012/pfx";
const LISTING: &str = "Found the following games:\n\
    Non-Steam shortcut: Battle.net (2345678901)\n\
    Non-Steam shortcut: HoYoPlay (3456789012)\n\
    Portal (400)\n";
const DESCRIPTION: &str = "\"libraryfolders\"\n{\n\t\"0\"\n\t{\n\t\t\"path\"\t\t\"/mnt/games\"\n\t}\n}\n";

fn strings(list: &[&str]) -> Vec<String> {
    list.iter().map(|s| s.to_string()).collect()
}

fn exited(code: i32, output: &str) -> Reply {
    Reply::Exited { code: Some(code), output: output.as_bytes().to_vec() }
}

fn failed(detail: &str) -> Reply {
    Reply::Failed { detail: detail.to_string() }
}

fn dir() -> Inspection {
    Inspection { exists: true, is_dir: true, is_file: false }
}

fn absent() -> Inspection {
    Inspection { exists: false, is_dir: false, is_file: false }
}

fn which(name: &str) -> Request {
    Request::Run(Command {
        program: "which".to_string(),
        args: strings(&[name]),
        env: Vec::new(),
        stream: Stream::Inherited,
    })
}

fn link_run() -> Request {
    Request::Run(Command {
        program: "ln".to_string(),
        args: strings(&["-s", "/", "/mnt/games/steamapps/compatdata/3456789012/pfx/drive_c/Linux Root"]),
        env: Vec::new(),
        stream: Stream::Inherited,
    })
}

fn registry_run(program: &str) -> Request {
    Request::Run(Command {
        program: program.to_string(),
        args: strings(&[
            "reg",
            "add",
            "HKCU\\Software\\Wine\\X11 Driver",
            "/v",
            "Decorated",
            "/t",
            "REG_SZ",
            "/d",
            "N",
            "/f",
        ]),
        env: vec![("WINEPREFIX".to_string(), PREFIX.to_string())],
        stream: Stream::Inherited,
    })
}

fn at(stage: PostSetupStage) -> PostSetup {
    PostSetup { root: Some(ROOT.to_string()), stage }
}

fn error(error: PostSetupError) -> Progress<PostSetup, PostSetupEnd> {
    Progress::Finished(PostSetupEnd::Error(error))
}

fn games() -> Vec<String> {
    strings(&[
        "Non-Steam shortcut: Battle.net (2345678901)",
        "Non-Steam shortcut: HoYoPlay (3456789012)",
    ])
}

fn run(root: Option<&str>, replies: Vec<Reply>) -> (Vec<Request>, PostSetupEnd) {
    let (mut state, mut request) = PostSetup::start(root.map(|r| r.to_string()));
    let mut asked = Vec::new();
    let mut replies = replies.into_iter();
    loop {
        asked.push(request);
        let reply = replies.next().expect("the adjustment asked for more than was scripted");
        match state.step(reply) {
            Progress::Next(next, then) => {
                state = next;
                request = then;
            }
            Progress::Finished(end) => {
                assert!(replies.next().is_none());
                return (asked, end);
            }
        }
    }
}

#[test]
fn post_setup_adjusts_the_picked_game() {
    let (asked, end) = run(
        Some(ROOT),
        vec![
            exited(0, "/usr/bin/protontricks\n"),
            exited(0, LISTING),
            Reply::Text("2\n".to_string()),
            Reply::Text(DESCRIPTION.to_string()),
            Reply::InspectedAll(vec![absent(), dir()]),
            Reply::Inspected(absent()),
            exited(0, ""),
            exited(0, ""),
            exited(0, ""),
        ],
    );
    assert_eq!(
        asked,
        vec![
            which("protontricks"),
            Request::Run(Command {
                program: "protontricks".to_string(),
                args: strings(&["-l"]),
                env: Vec::new(),
                stream: Stream::Captured,
            }),
            Request::AskChoice { options: games() },
            Request::ReadText("/home/alice/.steam/steam/steamapps/libraryfolders.vdf".to_string()),
            Request::InspectAll(strings(&[
                "/home/alice/.steam/steam/steamapps/compatdata/3456789012/pfx",
                PREFIX,
            ])),
            Request::Inspect(format!("{}/drive_c/Linux Root", PREFIX)),
            link_run(),
            which("wine64"),
            registry_run("wine64"),
        ]
    );
    assert_eq!(end, PostSetupEnd::Done(Adjusted { prefix: PREFIX.to_string(), linked: true }));
}

#[test]
fn post_setup_twice_links_once() {
    let script = |link: Inspection| {
        let mut replies = vec![
            exited(0, ""),
            exited(0, LISTING),
            Reply::Text("2".to_string()),
            Reply::Text(DESCRIPTION.to_string()),
            Reply::InspectedAll(vec![absent(), dir()]),
            Reply::Inspected(link),
        ];
        if !link.exists {
            replies.push(exited(0, ""));
        }
        replies.push(exited(1, ""));
        replies.push(exited(0, ""));
        replies
    };
    let (first, end) = run(Some(ROOT), script(absent()));
    assert_eq!(end, PostSetupEnd::Done(Adjusted { prefix: PREFIX.to_string(), linked: true }));
    let (second, end) = run(Some(ROOT), script(dir()));
    assert_eq!(end, PostSetupEnd::Done(Adjusted { prefix: PREFIX.to_string(), linked: false }));
    let links = |asked: &Vec<Request>| asked.iter().filter(|r| **r == link_run()).count();
    assert_eq!(links(&first) + links(&second), 1);
    assert_eq!(second[second.len() - 1], registry_run("wine"));
}

#[test]
fn setup_linux_root_symlink_plans_nothing_when_the_link_is_there() {
    assert_eq!(setup_linux_root_symlink(PREFIX, &dir()), None);
    let file = Inspection { exists: true, is_dir: false, is_file: true };
    assert_eq!(setup_linux_root_symlink(PREFIX, &file), None);
    assert_eq!(setup_linux_root_symlink(PREFIX, &absent()).map(Request::Run), Some(link_run()));
    assert_eq!(host_root_link_path("/p"), "/p/drive_c/Linux Root");
}

#[test]
fn remove_window_decorations_edits_the_registry_of_the_sandbox() {
    assert_eq!(Request::Run(remove_window_decorations(PREFIX, true)), registry_run("wine64"));
    assert_eq!(Request::Run(remove_window_decorations(PREFIX, false)), registry_run("wine"));
}

#[test]
fn listing_query_runs_the_inventory_tool() {
    let command = listing_query();
    assert_eq!(command.program, "protontricks");
    assert_eq!(command.args, strings(&["-l"]));
    assert_eq!(command.stream, Stream::Captured);
}

#[test]
fn post_setup_wants_the_inventory_tool() {
    let (state, request) = PostSetup::start(None);
    assert_eq!(request, which("protontricks"));
    assert_eq!(state.step(exited(1, "")), error(PostSetupError::InventoryMissing));
    assert_eq!(
        at(PostSetupStage::LocateInventory).step(failed("x")),
        error(PostSetupError::InventoryMissing)
    );
}

#[test]
fn post_setup_stops_on_a_listing_it_cannot_use() {
    assert_eq!(
        at(PostSetupStage::List).step(exited(1, LISTING)),
        error(PostSetupError::Inventory(ListError::ToolFailed))
    );
    assert_eq!(
        at(PostSetupStage::List).step(Reply::Exited { code: Some(0), output: vec![0x80] }),
        error(PostSetupError::Inventory(ListError::InvalidEncoding))
    );
    assert_eq!(
        at(PostSetupStage::List).step(exited(0, "Portal (400)\n")),
        error(PostSetupError::NoGames)
    );
    assert_eq!(
        at(PostSetupStage::List).step(failed("not found")),
        error(PostSetupError::InventoryLaunch { detail: "not found".to_string() })
    );
}

#[test]
fn post_setup_stops_on_a_pick_that_names_no_entry() {
    for answer in ["0", "3", "", "HoYoPlay", "2.0"] {
        assert_eq!(
            at(PostSetupStage::Select { games: games() }).step(Reply::Text(answer.to_string())),
            error(PostSetupError::InvalidSelection)
        );
    }
}

#[test]
fn post_setup_stops_on_an_entry_without_an_id() {
    let games = strings(&["Non-Steam shortcut: HoYoPlay", "Non-Steam shortcut: x (1)"]);
    assert_eq!(
        at(PostSetupStage::Select { games }).step(Reply::Text("1".to_string())),
        error(PostSetupError::NoAppId)
    );
}

#[test]
fn post_setup_stops_without_a_home() {
    let state = PostSetup { root: None, stage: PostSetupStage::Select { games: games() } };
    assert_eq!(state.step(Reply::Text("1".to_string())), error(PostSetupError::NoHome));
}

#[test]
fn post_setup_stops_on_a_description_it_cannot_use() {
    let stage = || PostSetupStage::ReadDescription { app_id: "7".to_string(), root: ROOT.to_string() };
    assert_eq!(
        at(stage()).step(failed("No such file or directory")),
        error(PostSetupError::DescriptionUnreadable {
            detail: "No such file or directory".to_string()
        })
    );
    assert_eq!(at(stage()).step(Reply::Text(String::new())), error(PostSetupError::DescriptionEmpty));
}

#[test]
fn post_setup_stops_when_no_root_has_the_sandbox() {
    let stage = PostSetupStage::LocatePrefix { app_id: "7".to_string(), roots: strings(&[ROOT, "/b"]) };
    assert_eq!(
        at(stage).step(Reply::InspectedAll(vec![absent(), absent()])),
        error(PostSetupError::PrefixNotFound { app_id: "7".to_string() })
    );
}

#[test]
fn post_setup_takes_the_sandbox_below_the_primary_root_first() {
    let stage = PostSetupStage::LocatePrefix { app_id: "7".to_string(), roots: strings(&["/A", "/B"]) };
    assert_eq!(
        at(stage).step(Reply::InspectedAll(vec![dir(), dir()])),
        Progress::Next(
            at(PostSetupStage::CheckLink { prefix: "/A/steamapps/compatdata/7/pfx".to_string() }),
            Request::Inspect("/A/steamapps/compatdata/7/pfx/drive_c/Linux Root".to_string())
        )
    );
}

#[test]
fn post_setup_stops_on_a_failed_link_or_registry_edit() {
    let linking = || at(PostSetupStage::CreateLink { prefix: PREFIX.to_string() });
    assert_eq!(linking().step(exited(1, "")), error(PostSetupError::LinkFailed));
    assert_eq!(
        linking().step(failed("no ln")),
        error(PostSetupError::LinkLaunch { detail: "no ln".to_string() })
    );
    let editing = || at(PostSetupStage::EditRegistry { prefix: PREFIX.to_string(), linked: true });
    assert_eq!(editing().step(exited(1, "")), error(PostSetupError::RegistryFailed));
    assert_eq!(
        editing().step(Reply::Exited { code: None, output: Vec::new() }),
        error(PostSetupError::RegistryFailed)
    );
    assert_eq!(
        editing().step(failed("no wine")),
        error(PostSetupError::RegistryLaunch { detail: "no wine".to_string() })
    );
}

#[test]
fn post_setup_rejects_a_reply_that_does_not_fit() {
    assert_eq!(at(PostSetupStage::List).step(Reply::Done), error(PostSetupError::Unexpected));
    assert_eq!(
        at(PostSetupStage::Select { games: games() }).step(Reply::Done),
        error(PostSetupError::Unexpected)
    );
    assert_eq!(
        at(PostSetupStage::CheckLink { prefix: PREFIX.to_string() }).step(Reply::Done),
        error(PostSetupError::Unexpected)
    );
    assert_eq!(
        at(PostSetupStage::EditRegistry { prefix: PREFIX.to_string(), linked: false })
            .step(Reply::Done),
        error(PostSetupError::Unexpected)
    );
}
