//! The part of a user session: it reports to the system server, learns which
//! viewer to show, and shows it until it closes.

use crate::launcher::VmType;
use crate::text::{str_eq, timestamp};
use vstd::prelude::*;

verus! {

/// Whether a group name is that of the display manager's greeter, in
/// whatever case it is written: the greeter gets no viewer.
pub open spec fn greeter_name(group: Seq<char>) -> bool {
    &&& group.len() == 4
    &&& (group[0] == 's' || group[0] == 'S')
    &&& (group[1] == 'd' || group[1] == 'D')
    &&& (group[2] == 'd' || group[2] == 'D')
    &&& (group[3] == 'm' || group[3] == 'M')
}

/// Whether the session belongs to the greeter of the display manager, given
/// the name of the current group, if it has one.
pub fn is_greeter(group: Option<&str>) -> (greeter: bool)
    ensures
        greeter == (group is Some && greeter_name(group->0@)),
{
    match group {
        None => false,
        Some(name) => {
            if name.unicode_len() != 4 {
                return false;
            }
            let a = name.get_char(0);
            let b = name.get_char(1);
            let c = name.get_char(2);
            let d = name.get_char(3);
            (a == 's' || a == 'S') && (b == 'd' || b == 'D') && (c == 'd' || c == 'D') && (d == 'm'
                || d == 'M')
        },
    }
}

/// What the answer of the system server to a session that reports in asks
/// for: nothing, if the answer is empty, because no machine runs; the viewer
/// of the variant that the answer names; and an error for any other answer.
pub fn launch_type(answer: &str) -> (wanted: Result<Option<VmType>, SessionError>)
    ensures
        answer@.len() == 0 ==> wanted == Ok::<Option<VmType>, SessionError>(None),
        answer@ == "LG"@ ==> wanted == Ok::<Option<VmType>, SessionError>(
            Some(VmType::LookingGlass),
        ),
        answer@ == "Spice"@ ==> wanted == Ok::<Option<VmType>, SessionError>(Some(VmType::Spice)),
        answer@.len() != 0 && answer@ != "LG"@ && answer@ != "Spice"@ ==> (wanted matches Err(
            SessionError::UnknownLaunchType(name),
        ) && name@ == answer@),
{
    proof {
        reveal_strlit("LG");
        reveal_strlit("Spice");
    }
    if answer.unicode_len() == 0 {
        Ok(None)
    } else if str_eq(answer, "LG") {
        Ok(Some(VmType::LookingGlass))
    } else if str_eq(answer, "Spice") {
        Ok(Some(VmType::Spice))
    } else {
        Err(SessionError::UnknownLaunchType(String::from_str(answer)))
    }
}

/// The file that takes the output of the viewer of a session started at the
/// time that `stamp` tells.
pub fn viewer_log_path(stamp: &str) -> (path: String)
    ensures
        path@ == "/var/log/windows/viewer/log-"@ + stamp@ + ".txt"@,
{
    let mut path = String::from_str("/var/log/windows/viewer/log-");
    path.append(stamp);
    path.append(".txt");
    path
}

/// The file that takes the output of the viewer of a session started now:
/// the name carries the time of the call.
pub fn new_viewer_log_path() -> (path: String)
    ensures
        exists|stamp: Seq<char>| path@ == "/var/log/windows/viewer/log-"@ + stamp + ".txt"@,
{
    let stamp = timestamp();
    viewer_log_path(stamp.as_str())
}

/// How the session ends once its viewer has closed: well if the viewer
/// exited with success, and with the error of the viewer otherwise.
pub fn viewer_closed(vm_type: VmType, success: bool) -> (end: Result<(), SessionError>)
    ensures
        success ==> end == Ok::<(), SessionError>(()),
        !success && vm_type == VmType::LookingGlass ==> end == Err::<(), SessionError>(
            SessionError::LookingGlassFailed,
        ),
        !success && vm_type == VmType::Spice ==> end == Err::<(), SessionError>(
            SessionError::VirtViewerFailed,
        ),
{
    if success {
        Ok(())
    } else {
        match vm_type {
            VmType::LookingGlass => Err(SessionError::LookingGlassFailed),
            VmType::Spice => Err(SessionError::VirtViewerFailed),
        }
    }
}

/// The ways in which the program of a user session can fail.
#[derive(Debug, Clone, PartialEq, Eq)]
pub enum SessionError {
    FailedToConnectToSystemBus(String),
    UnknownLaunchType(String),
    FailedToLaunchLookingGlass(String),
    FailedToWaitOnViewer(String),
    LookingGlassFailed,
    FailedToLaunchVirtViewer(String),
    VirtViewerFailed,
    FailedtoCreateLogFile(String),
    ServerError(String),
}

impl SessionError {
    /// The text shown to a user for this error.
    pub open spec fn message(self) -> Seq<char> {
        match self {
            SessionError::FailedToConnectToSystemBus(reason) => "Could not connect to the system dbus: "@
                + reason@,
            SessionError::UnknownLaunchType(reason) => "The UserConnected method of org.cws.WindowsLauncher return an unknown launch type: "@
                + reason@,
            SessionError::FailedToLaunchLookingGlass(reason) => "Could not launch looking-glass-client: "@
                + reason@,
            SessionError::FailedToWaitOnViewer(reason) => "Asynchronously waiting on the launched viewer process failed: "@
                + reason@,
            SessionError::LookingGlassFailed => "Looking glass returned with error"@,
            SessionError::FailedToLaunchVirtViewer(reason) => "Could not launch virt-viewer: "@
                + reason@,
            SessionError::VirtViewerFailed => "virt-viewer returned with error"@,
            SessionError::FailedtoCreateLogFile(reason) => "Could not create the log files: "@
                + reason@,
            SessionError::ServerError(reason) => "Server return error: "@ + reason@,
        }
    }

    /// The text shown to a user for this error.
    pub fn to_string(&self) -> (text: String)
        ensures
            text@ == self.message(),
    {
        match self {
            SessionError::FailedToConnectToSystemBus(reason) => {
                let mut text = String::from_str("Could not connect to the system dbus: ");
                text.append(reason.as_str());
                text
            },
            SessionError::UnknownLaunchType(reason) => {
                let mut text = String::from_str("The UserConnected method of org.cws.WindowsLauncher return an unknown launch type: ");
                text.append(reason.as_str());
                text
            },
            SessionError::FailedToLaunchLookingGlass(reason) => {
                let mut text = String::from_str("Could not launch looking-glass-client: ");
                text.append(reason.as_str());
                text
            },
            SessionError::FailedToWaitOnViewer(reason) => {
                let mut text = String::from_str("Asynchronously waiting on the launched viewer process failed: ");
                text.append(reason.as_str());
                text
            },
            SessionError::LookingGlassFailed => String::from_str("Looking glass returned with error"),
            SessionError::FailedToLaunchVirtViewer(reason) => {
                let mut text = String::from_str("Could not launch virt-viewer: ");
                text.append(reason.as_str());
                text
            },
            SessionError::VirtViewerFailed => String::from_str("virt-viewer returned with error"),
            SessionError::FailedtoCreateLogFile(reason) => {
                let mut text = String::from_str("Could not create the log files: ");
                text.append(reason.as_str());
                text
            },
            SessionError::ServerError(reason) => {
                let mut text = String::from_str("Server return error: ");
                text.append(reason.as_str());
                text
            },
        }
    }
}

} // verus!
