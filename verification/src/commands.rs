//! The commands and bus methods by which the actions of the launcher are
//! carried out.

use crate::launcher::{KernelModule, PciDevice, SystemAction};
use crate::text::{decimal, decimal_text};
use vstd::prelude::*;

verus! {

/// The command line that carries `action` out, program first, for the
/// actions that are commands: the listing of the processes of root, the
/// unloading and loading of modules, the handing over and back of devices,
/// and the dealings with the machine through the hypervisor.
pub open spec fn command_line(action: SystemAction) -> Option<Seq<Seq<char>>> {
    match action {
        SystemAction::CheckGpuProcesses => Some(seq!["ps"@, "-u"@, "root"@]),
        SystemAction::UnloadModule(module) => Some(
            seq!["modprobe"@, "-f"@, "-r"@, module.name()],
        ),
        SystemAction::LoadModule(module) => Some(seq!["modprobe"@, module.name()]),
        SystemAction::DetachPci(device) => Some(seq!["virsh"@, "nodedev-detach"@, device.name()]),
        SystemAction::ReattachPci(device) => Some(
            seq!["virsh"@, "nodedev-reattach"@, device.name()],
        ),
        SystemAction::StartVm => Some(
            seq!["virsh"@, "-cqemu:///system"@, "create"@, "/tmp/windows.xml"@],
        ),
        SystemAction::QueryVm => Some(
            seq!["virsh"@, "-cqemu:///system"@, "domstate"@, "windows"@],
        ),
        SystemAction::ShutdownVm => Some(
            seq!["virsh"@, "-cqemu:///windows"@, "shutdown"@, "windows"@],
        ),
        SystemAction::DestroyVm => Some(
            seq!["virsh"@, "-cqemu:///windows"@, "destroy"@, "windows"@],
        ),
        _ => None,
    }
}

/// The words of a command line, as plain values.
pub open spec fn words(line: Seq<&'static str>) -> Seq<Seq<char>> {
    line.map_values(|word: &'static str| word@)
}

/// The command line that carries `action` out, program first, if the action
/// is a command.
pub fn command_for(action: SystemAction) -> (line: Option<Vec<&'static str>>)
    ensures
        line is Some == command_line(action) is Some,
        line is Some ==> words(line->0@) == command_line(action)->0,
{
    let mut line: Vec<&'static str> = Vec::new();
    match action {
        SystemAction::CheckGpuProcesses => {
            line.push("ps");
            line.push("-u");
            line.push("root");
        },
        SystemAction::UnloadModule(module) => {
            line.push("modprobe");
            line.push("-f");
            line.push("-r");
            line.push(module.name_text());
        },
        SystemAction::LoadModule(module) => {
            line.push("modprobe");
            line.push(module.name_text());
        },
        SystemAction::DetachPci(device) => {
            line.push("virsh");
            line.push("nodedev-detach");
            line.push(device.name_text());
        },
        SystemAction::ReattachPci(device) => {
            line.push("virsh");
            line.push("nodedev-reattach");
            line.push(device.name_text());
        },
        SystemAction::StartVm => {
            line.push("virsh");
            line.push("-cqemu:///system");
            line.push("create");
            line.push("/tmp/windows.xml");
        },
        SystemAction::QueryVm => {
            line.push("virsh");
            line.push("-cqemu:///system");
            line.push("domstate");
            line.push("windows");
        },
        SystemAction::ShutdownVm => {
            line.push("virsh");
            line.push("-cqemu:///windows");
            line.push("shutdown");
            line.push("windows");
        },
        SystemAction::DestroyVm => {
            line.push("virsh");
            line.push("-cqemu:///windows");
            line.push("destroy");
            line.push("windows");
        },
        _ => {
            return None;
        },
    }
    assert(words(line@) =~= command_line(action)->0);
    Some(line)
}

/// The method of the service manager that carries `action` out on the
/// display manager, for the three actions that deal with it.
pub fn unit_method(action: SystemAction) -> (method: Option<&'static str>)
    ensures
        method is Some == (action == SystemAction::StopDisplayManager || action
            == SystemAction::StartDisplayManager || action == SystemAction::RestartDisplayManager),
        action == SystemAction::StopDisplayManager ==> method->0@ == "StopUnit"@,
        action == SystemAction::StartDisplayManager ==> method->0@ == "StartUnit"@,
        action == SystemAction::RestartDisplayManager ==> method->0@ == "RestartUnit"@,
{
    match action {
        SystemAction::StopDisplayManager => Some("StopUnit"),
        SystemAction::StartDisplayManager => Some("StartUnit"),
        SystemAction::RestartDisplayManager => Some("RestartUnit"),
        _ => None,
    }
}

/// What is done to the audio sockets of the users by `action`, in the words
/// of the service manager's tool, for the three actions that deal with them.
pub fn audio_verb(action: SystemAction) -> (verb: Option<&'static str>)
    ensures
        verb is Some == (action == SystemAction::StopAudio || action == SystemAction::StartAudio
            || action == SystemAction::RestartAudio),
        action == SystemAction::StopAudio ==> verb->0@ == "stop"@,
        action == SystemAction::StartAudio ==> verb->0@ == "start"@,
        action == SystemAction::RestartAudio ==> verb->0@ == "restart"@,
{
    match action {
        SystemAction::StopAudio => Some("stop"),
        SystemAction::StartAudio => Some("start"),
        SystemAction::RestartAudio => Some("restart"),
        _ => None,
    }
}

/// The two audio sockets of a user.
pub fn audio_sockets() -> (sockets: [&'static str; 2])
    ensures
        sockets@.len() == 2,
        sockets@[0]@ == "pipewire.socket"@,
        sockets@[1]@ == "pipewire-pulse.socket"@,
{
    ["pipewire.socket", "pipewire-pulse.socket"]
}

/// The arguments with which the service manager's tool does `verb` to
/// `socket` in the session of the user `uid`.
pub fn audio_arguments(verb: &str, uid: u32, socket: &str) -> (arguments: Vec<String>)
    ensures
        crate::text::text_views(arguments@) == seq![
            "--user"@,
            "--machine="@ + decimal(uid as nat) + "@"@,
            verb@,
            socket@,
        ],
{
    let mut machine = String::from_str("--machine=");
    machine.append(decimal_text(uid).as_str());
    machine.append("@");
    let mut arguments: Vec<String> = Vec::new();
    arguments.push(String::from_str("--user"));
    arguments.push(machine);
    arguments.push(String::from_str(verb));
    arguments.push(String::from_str(socket));
    assert(crate::text::text_views(arguments@) =~= seq![
        "--user"@,
        "--machine="@ + decimal(uid as nat) + "@"@,
        verb@,
        socket@,
    ]);
    arguments
}

} // verus!
