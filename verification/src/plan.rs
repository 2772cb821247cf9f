//! What an installation works with: the plan of each launcher, the
//! environment overlays of the two attempts, and the commands that the
//! driver runs.

use crate::host::{Command, CommandModel, Stream};
use crate::paths::{join, joined, AppPaths, AppPathsModel};
use vstd::prelude::*;

verus! {

/// What one installation works with.
#[derive(Debug, PartialEq, Eq)]
pub struct InstallPlan {
    /// The compatibility-layer binary.
    pub tool: String,
    /// The sandbox the installer runs in.
    pub prefix: String,
    /// The directory that holds the downloaded installer.
    pub staging_dir: String,
    pub installer_url: String,
    pub installer_path: String,
    /// Where the files go when the caller names no other place.
    pub default_destination: String,
    /// The arguments after the installer's path in the silent attempt.
    pub silent_args: Vec<String>,
    /// Where the installer may have put its files, most likely first.
    pub candidates: Vec<String>,
    /// Whether the installation fails when the files that were found cannot
    /// be copied to the destination or removed afterwards. Otherwise such a
    /// failure is only reported.
    pub strict: bool,
}

/// The mathematical content of an [`InstallPlan`].
pub struct InstallPlanModel {
    pub tool: Seq<char>,
    pub prefix: Seq<char>,
    pub staging_dir: Seq<char>,
    pub installer_url: Seq<char>,
    pub installer_path: Seq<char>,
    pub default_destination: Seq<char>,
    pub silent_args: Seq<Seq<char>>,
    pub candidates: Seq<Seq<char>>,
    pub strict: bool,
}

impl View for InstallPlan {
    type V = InstallPlanModel;

    open spec fn view(&self) -> InstallPlanModel {
        InstallPlanModel {
            tool: self.tool@,
            prefix: self.prefix@,
            staging_dir: self.staging_dir@,
            installer_url: self.installer_url@,
            installer_path: self.installer_path@,
            default_destination: self.default_destination@,
            silent_args: self.silent_args.deep_view(),
            candidates: self.candidates.deep_view(),
            strict: self.strict,
        }
    }
}

/// The plan for Battle.net below the given home.
pub open spec fn battlenet_plan(tool: Seq<char>, paths: AppPathsModel) -> InstallPlanModel {
    let home = paths.home_dir;
    InstallPlanModel {
        tool,
        prefix: joined(home, ".wine"@),
        staging_dir: joined(home, ".battlenet"@),
        installer_url: "https://downloader.battle.net/download/getInstaller?os=win&installer=Battle.net-Setup.exe"@,
        installer_path: paths.battlenet_installer,
        default_destination: joined(home, "Games/Battle.net"@),
        silent_args: seq![
            "--lang=enUS"@,
            "--installpath=\"C:\\Program Files (x86)\\Battle.net\""@,
        ],
        candidates: seq![
            joined(home, ".wine/drive_c/Program Files/Battle.net"@),
            joined(home, ".wine/drive_c/Program Files (x86)/Battle.net"@),
            joined(home, ".wine/drive_c/Games/Battle.net"@),
            joined(home, ".wine/drive_c/Blizzard/Battle.net"@),
        ],
        strict: false,
    }
}

/// The plan for HoYoPlay below the given home.
pub open spec fn hoyoplay_plan(tool: Seq<char>, paths: AppPathsModel) -> InstallPlanModel {
    let home = paths.home_dir;
    InstallPlanModel {
        tool,
        prefix: joined(home, ".wine"@),
        staging_dir: joined(home, ".hoyoplay"@),
        installer_url: "https://download-porter.hoyoverse.com/download-porter/2025/02/21/VYTpXlbWo8_1.4.5.222_1_0_hyp_hoyoverse_prod_202502081529_XFGRLkBk.exe?trace_key=HoYoPlay_install_ua_5ca9c7368584"@,
        installer_path: paths.hoyoplay_installer,
        default_destination: joined(home, "Games/HoYoPlay"@),
        silent_args: Seq::empty(),
        candidates: seq![joined(home, ".wine/drive_c/Program Files/HoYoPlay"@)],
        strict: true,
    }
}

impl InstallPlan {
    /// The plan that installs Battle.net with `tool`.
    pub fn battlenet(tool: &str, paths: &AppPaths) -> (plan: InstallPlan)
        ensures
            plan@ == battlenet_plan(tool@, paths@),
    {
        let home = paths.home_dir.as_str();
        let mut silent_args: Vec<String> = Vec::new();
        silent_args.push(String::from_str("--lang=enUS"));
        silent_args.push(
            String::from_str("--installpath=\"C:\\Program Files (x86)\\Battle.net\""),
        );
        let mut candidates: Vec<String> = Vec::new();
        candidates.push(join(home, ".wine/drive_c/Program Files/Battle.net"));
        candidates.push(join(home, ".wine/drive_c/Program Files (x86)/Battle.net"));
        candidates.push(join(home, ".wine/drive_c/Games/Battle.net"));
        candidates.push(join(home, ".wine/drive_c/Blizzard/Battle.net"));
        let plan = InstallPlan {
            tool: String::from_str(tool),
            prefix: join(home, ".wine"),
            staging_dir: join(home, ".battlenet"),
            installer_url: String::from_str(
                "https://downloader.battle.net/download/getInstaller?os=win&installer=Battle.net-Setup.exe",
            ),
            installer_path: paths.battlenet_installer.clone(),
            default_destination: join(home, "Games/Battle.net"),
            silent_args,
            candidates,
            strict: false,
        };
        proof {
            let model = battlenet_plan(tool@, paths@);
            assert(plan.silent_args.deep_view() =~= model.silent_args);
            assert(plan.candidates.deep_view() =~= model.candidates);
        }
        plan
    }

    /// The plan that installs HoYoPlay with `tool`.
    pub fn hoyoplay(tool: &str, paths: &AppPaths) -> (plan: InstallPlan)
        ensures
            plan@ == hoyoplay_plan(tool@, paths@),
    {
        let home = paths.home_dir.as_str();
        let silent_args: Vec<String> = Vec::new();
        let mut candidates: Vec<String> = Vec::new();
        candidates.push(join(home, ".wine/drive_c/Program Files/HoYoPlay"));
        let plan = InstallPlan {
            tool: String::from_str(tool),
            prefix: join(home, ".wine"),
            staging_dir: join(home, ".hoyoplay"),
            installer_url: String::from_str(
                "https://download-porter.hoyoverse.com/download-porter/2025/02/21/VYTpXlbWo8_1.4.5.222_1_0_hyp_hoyoverse_prod_202502081529_XFGRLkBk.exe?trace_key=HoYoPlay_install_ua_5ca9c7368584",
            ),
            installer_path: paths.hoyoplay_installer.clone(),
            default_destination: join(home, "Games/HoYoPlay"),
            silent_args,
            candidates,
            strict: true,
        };
        proof {
            let model = hoyoplay_plan(tool@, paths@);
            assert(plan.silent_args.deep_view() =~= model.silent_args);
            assert(plan.candidates.deep_view() =~= model.candidates);
        }
        plan
    }
}

/// The environment overlay of the silent attempt: the sandbox, no debug
/// noise, no overlay HUD, no bundled browser runtime, a display that shows
/// nothing, and no vendor graphics layer.
pub open spec fn silent_environment(prefix: Seq<char>) -> Seq<(Seq<char>, Seq<char>)> {
    seq![
        ("WINEPREFIX"@, prefix),
        ("WINEDEBUG"@, "-all"@),
        ("MANGOHUD"@, "0"@),
        ("DISABLE_MANGOHUD"@, "1"@),
        ("WINEDLLOVERRIDES"@, "mscoree,mshtml="@),
        ("DISPLAY"@, ":99"@),
        ("DISABLE_LAYER_AMD_SWITCHABLE_GRAPHICS_1"@, "1"@),
    ]
}

/// `env` without the variables named `name`.
pub open spec fn without_variable(env: Seq<(Seq<char>, Seq<char>)>, name: Seq<char>) -> Seq<
    (Seq<char>, Seq<char>),
>
    decreases env.len(),
{
    if env.len() == 0 {
        env
    } else if env[0].0 == name {
        without_variable(env.drop_first(), name)
    } else {
        seq![env[0]] + without_variable(env.drop_first(), name)
    }
}

/// The environment overlay of the interactive attempt: that of the silent
/// one without the library override and the display, since the installer's
/// windows have to show.
pub open spec fn interactive_environment(prefix: Seq<char>) -> Seq<(Seq<char>, Seq<char>)> {
    without_variable(
        without_variable(silent_environment(prefix), "WINEDLLOVERRIDES"@),
        "DISPLAY"@,
    )
}

/// The interactive overlay, entry by entry.
pub proof fn lemma_interactive_environment(prefix: Seq<char>)
    ensures
        interactive_environment(prefix) == seq![
            ("WINEPREFIX"@, prefix),
            ("WINEDEBUG"@, "-all"@),
            ("MANGOHUD"@, "0"@),
            ("DISABLE_MANGOHUD"@, "1"@),
            ("DISABLE_LAYER_AMD_SWITCHABLE_GRAPHICS_1"@, "1"@),
        ],
{
    reveal_strlit("WINEPREFIX");
    reveal_strlit("WINEDEBUG");
    reveal_strlit("MANGOHUD");
    reveal_strlit("DISABLE_MANGOHUD");
    reveal_strlit("WINEDLLOVERRIDES");
    reveal_strlit("DISPLAY");
    reveal_strlit("DISABLE_LAYER_AMD_SWITCHABLE_GRAPHICS_1");
    let dll = "WINEDLLOVERRIDES"@;
    let display = "DISPLAY"@;
    let e0 = ("WINEPREFIX"@, prefix);
    let e1 = ("WINEDEBUG"@, "-all"@);
    let e2 = ("MANGOHUD"@, "0"@);
    let e3 = ("DISABLE_MANGOHUD"@, "1"@);
    let e4 = ("WINEDLLOVERRIDES"@, "mscoree,mshtml="@);
    let e5 = ("DISPLAY"@, ":99"@);
    let e6 = ("DISABLE_LAYER_AMD_SWITCHABLE_GRAPHICS_1"@, "1"@);
    assert(e0.0.len() == 10 && e1.0.len() == 9 && e2.0.len() == 8 && e3.0.len() == 16);
    assert(dll.len() == 16 && display.len() == 7 && e6.0.len() == 39);
    assert(e3.0[0] == 'D' && dll[0] == 'W');
    lemma_without_keeps(seq![e6], e6, Seq::empty(), dll);
    lemma_without_keeps(seq![e5, e6], e5, seq![e6], dll);
    lemma_without_drops(seq![e4, e5, e6], e4, seq![e5, e6], dll);
    lemma_without_keeps(seq![e3, e4, e5, e6], e3, seq![e4, e5, e6], dll);
    lemma_without_keeps(seq![e2, e3, e4, e5, e6], e2, seq![e3, e4, e5, e6], dll);
    lemma_without_keeps(seq![e1, e2, e3, e4, e5, e6], e1, seq![e2, e3, e4, e5, e6], dll);
    lemma_without_keeps(
        seq![e0, e1, e2, e3, e4, e5, e6],
        e0,
        seq![e1, e2, e3, e4, e5, e6],
        dll,
    );
    let first = without_variable(silent_environment(prefix), dll);
    assert(first =~= seq![e0, e1, e2, e3, e5, e6]);
    lemma_without_keeps(seq![e6], e6, Seq::empty(), display);
    lemma_without_drops(seq![e5, e6], e5, seq![e6], display);
    lemma_without_keeps(seq![e3, e5, e6], e3, seq![e5, e6], display);
    lemma_without_keeps(seq![e2, e3, e5, e6], e2, seq![e3, e5, e6], display);
    lemma_without_keeps(seq![e1, e2, e3, e5, e6], e1, seq![e2, e3, e5, e6], display);
    lemma_without_keeps(seq![e0, e1, e2, e3, e5, e6], e0, seq![e1, e2, e3, e5, e6], display);
    assert(without_variable(first, display) =~= seq![e0, e1, e2, e3, e6]);
}

proof fn lemma_without_keeps(
    env: Seq<(Seq<char>, Seq<char>)>,
    head: (Seq<char>, Seq<char>),
    tail: Seq<(Seq<char>, Seq<char>)>,
    name: Seq<char>,
)
    requires
        env =~= seq![head] + tail,
        head.0 != name,
    ensures
        without_variable(env, name) == seq![head] + without_variable(tail, name),
{
    assert(env.drop_first() =~= tail);
}

proof fn lemma_without_drops(
    env: Seq<(Seq<char>, Seq<char>)>,
    head: (Seq<char>, Seq<char>),
    tail: Seq<(Seq<char>, Seq<char>)>,
    name: Seq<char>,
)
    requires
        env =~= seq![head] + tail,
        head.0 == name,
    ensures
        without_variable(env, name) == without_variable(tail, name),
{
    assert(env.drop_first() =~= tail);
}

/// The silent attempt: the installer with the plan's silent arguments.
pub open spec fn silent_command(plan: InstallPlanModel) -> CommandModel {
    CommandModel {
        program: plan.tool,
        args: seq![plan.installer_path] + plan.silent_args,
        env: silent_environment(plan.prefix),
        stream: Stream::Discarded,
    }
}

/// The interactive attempt: the installer alone.
pub open spec fn interactive_command(plan: InstallPlanModel) -> CommandModel {
    CommandModel {
        program: plan.tool,
        args: seq![plan.installer_path],
        env: interactive_environment(plan.prefix),
        stream: Stream::Discarded,
    }
}

/// The command that ends the compatibility layer's background server.
pub open spec fn cleanup_command() -> CommandModel {
    CommandModel {
        program: "wineserver"@,
        args: seq!["-k"@],
        env: Seq::empty(),
        stream: Stream::Discarded,
    }
}

/// The overlay of the silent attempt for the sandbox `prefix`.
pub fn silent_env(prefix: &str) -> (env: Vec<(String, String)>)
    ensures
        env.deep_view() == silent_environment(prefix@),
{
    let mut env: Vec<(String, String)> = Vec::new();
    env.push((String::from_str("WINEPREFIX"), String::from_str(prefix)));
    env.push((String::from_str("WINEDEBUG"), String::from_str("-all")));
    env.push((String::from_str("MANGOHUD"), String::from_str("0")));
    env.push((String::from_str("DISABLE_MANGOHUD"), String::from_str("1")));
    env.push((String::from_str("WINEDLLOVERRIDES"), String::from_str("mscoree,mshtml=")));
    env.push((String::from_str("DISPLAY"), String::from_str(":99")));
    env.push(
        (String::from_str("DISABLE_LAYER_AMD_SWITCHABLE_GRAPHICS_1"), String::from_str("1")),
    );
    assert(env.deep_view() =~= silent_environment(prefix@));
    env
}

/// The overlay of the interactive attempt for the sandbox `prefix`.
pub fn interactive_env(prefix: &str) -> (env: Vec<(String, String)>)
    ensures
        env.deep_view() == interactive_environment(prefix@),
{
    let mut env: Vec<(String, String)> = Vec::new();
    env.push((String::from_str("WINEPREFIX"), String::from_str(prefix)));
    env.push((String::from_str("WINEDEBUG"), String::from_str("-all")));
    env.push((String::from_str("MANGOHUD"), String::from_str("0")));
    env.push((String::from_str("DISABLE_MANGOHUD"), String::from_str("1")));
    env.push(
        (String::from_str("DISABLE_LAYER_AMD_SWITCHABLE_GRAPHICS_1"), String::from_str("1")),
    );
    proof {
        lemma_interactive_environment(prefix@);
        assert(env.deep_view() =~= interactive_environment(prefix@));
    }
    env
}

impl InstallPlan {
    /// The command of the silent attempt.
    pub fn silent_command(&self) -> (command: Command)
        ensures
            command@ == silent_command(self@),
    {
        let mut args: Vec<String> = Vec::new();
        args.push(self.installer_path.clone());
        let mut i: usize = 0;
        while i < self.silent_args.len()
            invariant
                i <= self.silent_args.len(),
                args.len() == i + 1,
                args@[0]@ == self.installer_path@,
                forall|j: int| 0 <= j < i ==> args@[j + 1]@ == self.silent_args@[j]@,
            decreases self.silent_args.len() - i,
        {
            args.push(self.silent_args[i].clone());
            i += 1;
        }
        assert(args.deep_view() =~= seq![self.installer_path@] + self.silent_args.deep_view());
        Command {
            program: self.tool.clone(),
            args,
            env: silent_env(self.prefix.as_str()),
            stream: Stream::Discarded,
        }
    }

    /// The command of the interactive attempt.
    pub fn interactive_command(&self) -> (command: Command)
        ensures
            command@ == interactive_command(self@),
    {
        let mut args: Vec<String> = Vec::new();
        args.push(self.installer_path.clone());
        assert(args.deep_view() =~= seq![self.installer_path@]);
        Command {
            program: self.tool.clone(),
            args,
            env: interactive_env(self.prefix.as_str()),
            stream: Stream::Discarded,
        }
    }
}

/// The command that ends the background server.
pub fn cleanup() -> (command: Command)
    ensures
        command@ == cleanup_command(),
{
    let mut args: Vec<String> = Vec::new();
    args.push(String::from_str("-k"));
    assert(args.deep_view() =~= seq!["-k"@]);
    Command::plain("wineserver", args, Stream::Discarded)
}

} // verus!
