//! Adjusting a resolved sandbox: a link to the host's file system inside
//! the sandbox's system drive, and a registry setting that turns window
//! decorations off.

use crate::host::{Command, CommandModel, Inspection, Stream};
use crate::paths::{join, joined};
use vstd::prelude::*;

verus! {

/// Where the link to the host's file system goes inside a sandbox.
pub open spec fn host_root_link(prefix: Seq<char>) -> Seq<char> {
    joined(prefix, "drive_c/Linux Root"@)
}

/// The command that links the host's root into the sandbox.
pub open spec fn link_command(prefix: Seq<char>) -> CommandModel {
    CommandModel {
        program: "ln"@,
        args: seq!["-s"@, "/"@, host_root_link(prefix)],
        env: Seq::empty(),
        stream: Stream::Inherited,
    }
}

/// What linking takes: nothing when something already exists at the
/// link's place, else the link command.
pub open spec fn link_plan(prefix: Seq<char>, present: bool) -> Option<CommandModel> {
    if present {
        None
    } else {
        Some(link_command(prefix))
    }
}

/// The compatibility-layer binary that edits the registry: the 64-bit one
/// when the host has it.
pub open spec fn registry_binary(wine64_available: bool) -> Seq<char> {
    if wine64_available {
        "wine64"@
    } else {
        "wine"@
    }
}

/// The command that turns window decorations off for a sandbox.
pub open spec fn decoration_command(prefix: Seq<char>, wine64_available: bool) -> CommandModel {
    CommandModel {
        program: registry_binary(wine64_available),
        args: seq![
            "reg"@,
            "add"@,
            "HKCU\\Software\\Wine\\X11 Driver"@,
            "/v"@,
            "Decorated"@,
            "/t"@,
            "REG_SZ"@,
            "/d"@,
            "N"@,
            "/f"@,
        ],
        env: seq![("WINEPREFIX"@, prefix)],
        stream: Stream::Inherited,
    }
}

/// The place of the link to the host's file system inside `prefix`.
pub fn host_root_link_path(prefix: &str) -> (path: String)
    ensures
        path@ == host_root_link(prefix@),
{
    join(prefix, "drive_c/Linux Root")
}

/// Plans the link to the host's file system inside `prefix`, given what the
/// host saw at the link's place: no command when something is there
/// already, so that a second run changes nothing.
pub fn setup_linux_root_symlink(prefix: &str, link: &Inspection) -> (plan: Option<Command>)
    ensures
        match plan {
            Some(command) => link_plan(prefix@, link.exists) == Some(command@),
            None => link_plan(prefix@, link.exists) is None,
        },
{
    if link.exists {
        None
    } else {
        let mut args: Vec<String> = Vec::new();
        args.push(String::from_str("-s"));
        args.push(String::from_str("/"));
        args.push(host_root_link_path(prefix));
        assert(args.deep_view() =~= link_command(prefix@).args);
        Some(Command::plain("ln", args, Stream::Inherited))
    }
}

/// The registry edit that turns window decorations off for `prefix`.
pub fn remove_window_decorations(prefix: &str, wine64_available: bool) -> (command: Command)
    ensures
        command@ == decoration_command(prefix@, wine64_available),
{
    let program = if wine64_available {
        "wine64"
    } else {
        "wine"
    };
    let mut args: Vec<String> = Vec::new();
    args.push(String::from_str("reg"));
    args.push(String::from_str("add"));
    args.push(String::from_str("HKCU\\Software\\Wine\\X11 Driver"));
    args.push(String::from_str("/v"));
    args.push(String::from_str("Decorated"));
    args.push(String::from_str("/t"));
    args.push(String::from_str("REG_SZ"));
    args.push(String::from_str("/d"));
    args.push(String::from_str("N"));
    args.push(String::from_str("/f"));
    let mut env: Vec<(String, String)> = Vec::new();
    env.push((String::from_str("WINEPREFIX"), String::from_str(prefix)));
    let command = Command { program: String::from_str(program), args, env, stream: Stream::Inherited };
    proof {
        let model = decoration_command(prefix@, wine64_available);
        assert(command.args.deep_view() =~= model.args);
        assert(command.env.deep_view() =~= model.env);
    }
    command
}

} // verus!
