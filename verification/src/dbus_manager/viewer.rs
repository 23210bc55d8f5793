//! Which viewers are to be started and ended when the displays change, and
//! how a viewer is started.

use crate::dbus_manager::sessions::{distinct_sessions, session_set, sessions_without, Session};
use crate::launcher::VmType;
use crate::text::{decimal, decimal_text};
use vstd::prelude::*;

verus! {

/// What a viewer session handler has to do when the active displays change.
pub struct ViewerChanges {
    /// The sessions whose display is gone: their viewers are to be ended.
    pub closed: Vec<Session>,
    /// The sessions whose display is new: a viewer is to be started for each.
    pub opened: Vec<Session>,
}

/// Holds the sessions for which viewers run against the sessions that have a
/// display now.
pub fn viewer_changes(known: &Vec<Session>, current: &Vec<Session>) -> (changes: ViewerChanges)
    ensures
        session_set(changes.closed@) == session_set(known@).difference(session_set(current@)),
        session_set(changes.opened@) == session_set(current@).difference(session_set(known@)),
        distinct_sessions(known@) ==> distinct_sessions(changes.closed@),
        distinct_sessions(current@) ==> distinct_sessions(changes.opened@),
{
    ViewerChanges {
        closed: sessions_without(known, current),
        opened: sessions_without(current, known),
    }
}

/// The program that shows the machine to a user, with its arguments and the
/// name under which its output is logged.
pub struct ViewerCommand {
    pub program: &'static str,
    pub args: Vec<&'static str>,
    /// The part of the log file's name that tells the viewers apart.
    pub log_tag: &'static str,
}

/// The arguments of the viewer for a variant, as plain values.
pub open spec fn viewer_args(vm_type: VmType) -> Seq<Seq<char>> {
    match vm_type {
        VmType::LookingGlass => seq!["-T"@, "-s"@, "input:captureOnFocus"@],
        VmType::Spice => seq!["--connect"@, "qemu:///system"@, "windows"@],
    }
}

/// The viewer that belongs to a variant of the machine.
pub fn viewer_command(vm_type: VmType) -> (command: ViewerCommand)
    ensures
        command.program@ == match vm_type {
            VmType::LookingGlass => "looking-glass-client"@,
            VmType::Spice => "virt-viewer"@,
        },
        command.args@.map_values(|arg: &'static str| arg@) == viewer_args(vm_type),
        command.log_tag@ == match vm_type {
            VmType::LookingGlass => "lg"@,
            VmType::Spice => "virtviewer"@,
        },
{
    match vm_type {
        VmType::LookingGlass => {
            let mut args: Vec<&'static str> = Vec::new();
            args.push("-T");
            args.push("-s");
            args.push("input:captureOnFocus");
            assert(args@.map_values(|arg: &'static str| arg@) =~= viewer_args(vm_type));
            ViewerCommand { program: "looking-glass-client", args, log_tag: "lg" }
        },
        VmType::Spice => {
            let mut args: Vec<&'static str> = Vec::new();
            args.push("--connect");
            args.push("qemu:///system");
            args.push("windows");
            assert(args@.map_values(|arg: &'static str| arg@) =~= viewer_args(vm_type));
            ViewerCommand { program: "virt-viewer", args, log_tag: "virtviewer" }
        },
    }
}

/// The file to which the output of a user's viewer is logged.
pub fn viewer_log_path(vm_type: VmType, uid: u32) -> (path: String)
    ensures
        path@ == "/tmp/user_"@ + decimal(uid as nat) + "_"@ + (match vm_type {
            VmType::LookingGlass => "lg"@,
            VmType::Spice => "virtviewer"@,
        }) + "_log.txt"@,
{
    let mut path = String::from_str("/tmp/user_");
    path.append(decimal_text(uid).as_str());
    path.append("_");
    path.append(viewer_command(vm_type).log_tag);
    path.append("_log.txt");
    path
}

} // verus!
