//! The failures that the launcher can meet, and how they are shown.

use crate::server::ServerError;
use vstd::prelude::*;

verus! {

/// The kinds of failure that the launcher can meet. Where a kind concerns one
/// module, device or file, the error names it as its subject; where the
/// system gave a reason, the error carries it as its detail.
#[derive(Debug, Clone, Copy, PartialEq, Eq, Structural)]
pub enum LauncherErrorKind {
    /// The management interface failed; the detail is its own message.
    ServerError,
    /// The state of the server could not be locked.
    FailedToLockData,
    FailedToSetCPUs,
    FailedToReadCPUDir,
    FailedToCreateMouse,
    FailedToGetXmlPath,
    FailedToReadXmlPath,
    FailedToCreateXmlFile,
    FailedtoCreateLogFile,
    FailedToLaunchVM,
    FailedToStopDP,
    /// The processes that use the graphics card did not end in time.
    ProcessesDidNotExit,
    FailedToGetProcesses,
    FailedToUnloadKernelModule,
    ModprobeRemoveReturnedErr,
    FailedToDisconnectGPU,
    FailedToLoadKernelModule,
    FailedToStartDP,
    FailedToShutdownVm,
    FailedToDestroyVm,
    FailedToStopVirtualMouse,
    FailedToConnectGPU,
    FailedToRestartDP,
    FailedToGetUsers,
    FailedToGetVmState,
    FailedToStartAudio,
    FailedToRestartAudio,
}

impl LauncherErrorKind {
    /// The text that opens the message of an error of this kind.
    pub open spec fn opening(self) -> Seq<char> {
        match self {
            LauncherErrorKind::ServerError => ""@,
            LauncherErrorKind::FailedToLockData => "Could not lock ServerData"@,
            LauncherErrorKind::FailedToSetCPUs => "Could not set AllowedCPUs with err: "@,
            LauncherErrorKind::FailedToReadCPUDir => "Could not read the cpu directory: "@,
            LauncherErrorKind::FailedToCreateMouse => "Could not create a virtual mouse: "@,
            LauncherErrorKind::FailedToGetXmlPath => "Could not get the xml path from the environment variables: "@,
            LauncherErrorKind::FailedToReadXmlPath => "Could not read the xml path: "@,
            LauncherErrorKind::FailedToCreateXmlFile => "Failed to create the xml file at /tmp/windows.xml: "@,
            LauncherErrorKind::FailedtoCreateLogFile => "Failed to create vm log file: "@,
            LauncherErrorKind::FailedToLaunchVM => "Failed to launch the vm with virsh: "@,
            LauncherErrorKind::FailedToStopDP => "Could not stop the display manager: "@,
            LauncherErrorKind::ProcessesDidNotExit => "Waited 2 seconds, but processes that use the gpu did not close after stopping the display manager and pipewire"@,
            LauncherErrorKind::FailedToGetProcesses => "Could not get root processes from ps: "@,
            LauncherErrorKind::FailedToUnloadKernelModule => "Failed to unload kernel module "@,
            LauncherErrorKind::ModprobeRemoveReturnedErr => "Modprobe returned err while unloading "@,
            LauncherErrorKind::FailedToDisconnectGPU => "Failed to disconnect pci "@,
            LauncherErrorKind::FailedToLoadKernelModule => "Failed to load kernel module "@,
            LauncherErrorKind::FailedToStartDP => "Failed to start display-manager.service with err: "@,
            LauncherErrorKind::FailedToShutdownVm => "Failed to shutdown the vm with virsh: "@,
            LauncherErrorKind::FailedToDestroyVm => "Failed to destroy the vm with virsh: "@,
            LauncherErrorKind::FailedToStopVirtualMouse => "Failed to stop the virtual mouse: "@,
            LauncherErrorKind::FailedToConnectGPU => "Failed to reconnect gpu: "@,
            LauncherErrorKind::FailedToRestartDP => "Failed to restart display-manager.service: "@,
            LauncherErrorKind::FailedToGetUsers => "Failed to get users from login1: "@,
            LauncherErrorKind::FailedToGetVmState => "failed to get vm state from virsh: "@,
            LauncherErrorKind::FailedToStartAudio => "Failed to start the audio sockets of the users: "@,
            LauncherErrorKind::FailedToRestartAudio => "Failed to restart the audio sockets of the users: "@,
        }
    }

    /// Whether the message of an error of this kind names a subject, and the
    /// text that then stands between the subject and the detail.
    pub open spec fn joint(self) -> Option<Seq<char>> {
        match self {
            LauncherErrorKind::FailedToReadXmlPath => Some(", with err: "@),
            LauncherErrorKind::FailedToUnloadKernelModule => Some(", with err: "@),
            LauncherErrorKind::ModprobeRemoveReturnedErr => Some(", with stderr: "@),
            LauncherErrorKind::FailedToDisconnectGPU => Some(", with err: "@),
            LauncherErrorKind::FailedToLoadKernelModule => Some(", with err: "@),
            LauncherErrorKind::FailedToConnectGPU => Some(", with err: "@),
            _ => None,
        }
    }

    /// Whether the message of an error of this kind ends with its detail.
    pub open spec fn has_detail(self) -> bool {
        match self {
            LauncherErrorKind::FailedToLockData | LauncherErrorKind::ProcessesDidNotExit => false,
            _ => true,
        }
    }

    /// The text that opens the message of an error of this kind.
    pub fn opening_text(&self) -> (text: &'static str)
        ensures
            text@ == self.opening(),
    {
        match self {
            LauncherErrorKind::ServerError => "",
            LauncherErrorKind::FailedToLockData => "Could not lock ServerData",
            LauncherErrorKind::FailedToSetCPUs => "Could not set AllowedCPUs with err: ",
            LauncherErrorKind::FailedToReadCPUDir => "Could not read the cpu directory: ",
            LauncherErrorKind::FailedToCreateMouse => "Could not create a virtual mouse: ",
            LauncherErrorKind::FailedToGetXmlPath => "Could not get the xml path from the environment variables: ",
            LauncherErrorKind::FailedToReadXmlPath => "Could not read the xml path: ",
            LauncherErrorKind::FailedToCreateXmlFile => "Failed to create the xml file at /tmp/windows.xml: ",
            LauncherErrorKind::FailedtoCreateLogFile => "Failed to create vm log file: ",
            LauncherErrorKind::FailedToLaunchVM => "Failed to launch the vm with virsh: ",
            LauncherErrorKind::FailedToStopDP => "Could not stop the display manager: ",
            LauncherErrorKind::ProcessesDidNotExit => "Waited 2 seconds, but processes that use the gpu did not close after stopping the display manager and pipewire",
            LauncherErrorKind::FailedToGetProcesses => "Could not get root processes from ps: ",
            LauncherErrorKind::FailedToUnloadKernelModule => "Failed to unload kernel module ",
            LauncherErrorKind::ModprobeRemoveReturnedErr => "Modprobe returned err while unloading ",
            LauncherErrorKind::FailedToDisconnectGPU => "Failed to disconnect pci ",
            LauncherErrorKind::FailedToLoadKernelModule => "Failed to load kernel module ",
            LauncherErrorKind::FailedToStartDP => "Failed to start display-manager.service with err: ",
            LauncherErrorKind::FailedToShutdownVm => "Failed to shutdown the vm with virsh: ",
            LauncherErrorKind::FailedToDestroyVm => "Failed to destroy the vm with virsh: ",
            LauncherErrorKind::FailedToStopVirtualMouse => "Failed to stop the virtual mouse: ",
            LauncherErrorKind::FailedToConnectGPU => "Failed to reconnect gpu: ",
            LauncherErrorKind::FailedToRestartDP => "Failed to restart display-manager.service: ",
            LauncherErrorKind::FailedToGetUsers => "Failed to get users from login1: ",
            LauncherErrorKind::FailedToGetVmState => "failed to get vm state from virsh: ",
            LauncherErrorKind::FailedToStartAudio => "Failed to start the audio sockets of the users: ",
            LauncherErrorKind::FailedToRestartAudio => "Failed to restart the audio sockets of the users: ",
        }
    }

    /// The text between subject and detail, for the kinds that name a subject.
    pub fn joint_text(&self) -> (text: Option<&'static str>)
        ensures
            text is Some == self.joint() is Some,
            text is Some ==> text->0@ == self.joint()->0,
    {
        match self {
            LauncherErrorKind::FailedToReadXmlPath => Some(", with err: "),
            LauncherErrorKind::FailedToUnloadKernelModule => Some(", with err: "),
            LauncherErrorKind::ModprobeRemoveReturnedErr => Some(", with stderr: "),
            LauncherErrorKind::FailedToDisconnectGPU => Some(", with err: "),
            LauncherErrorKind::FailedToLoadKernelModule => Some(", with err: "),
            LauncherErrorKind::FailedToConnectGPU => Some(", with err: "),
            _ => None,
        }
    }

    /// Whether the message of an error of this kind ends with its detail.
    pub fn shows_detail(&self) -> (shown: bool)
        ensures
            shown == self.has_detail(),
    {
        match self {
            LauncherErrorKind::FailedToLockData | LauncherErrorKind::ProcessesDidNotExit => false,
            _ => true,
        }
    }
}

/// A failure of the launcher.
#[derive(Debug, Clone, PartialEq, Eq)]
pub struct LauncherError {
    pub kind: LauncherErrorKind,
    /// The module, device or file concerned; empty where the kind names none.
    pub subject: String,
    /// The reason that the system gave; empty where there is none.
    pub detail: String,
}

/// A failure of the launcher, as plain values.
pub struct LauncherErrorView {
    pub kind: LauncherErrorKind,
    pub subject: Seq<char>,
    pub detail: Seq<char>,
}

impl LauncherErrorView {
    /// The text shown to a user for this error.
    pub open spec fn message(self) -> Seq<char> {
        self.kind.opening() + (match self.kind.joint() {
            Some(joint) => self.subject + joint,
            None => Seq::empty(),
        }) + (if self.kind.has_detail() {
            self.detail
        } else {
            Seq::empty()
        })
    }
}

impl View for LauncherError {
    type V = LauncherErrorView;

    open spec fn view(&self) -> LauncherErrorView {
        LauncherErrorView { kind: self.kind, subject: self.subject@, detail: self.detail@ }
    }
}

/// The views of a list of errors, in order.
pub open spec fn error_views(errors: Seq<LauncherError>) -> Seq<LauncherErrorView> {
    errors.map_values(|e: LauncherError| e@)
}

impl LauncherError {
    /// An error of the given kind with a reason and no subject.
    pub fn new(kind: LauncherErrorKind, detail: &str) -> (error: Self)
        ensures
            error@ == (LauncherErrorView { kind, subject: Seq::empty(), detail: detail@ }),
    {
        LauncherError { kind, subject: String::new(), detail: String::from_str(detail) }
    }

    /// An error of the given kind about `subject`, with a reason.
    pub fn about(kind: LauncherErrorKind, subject: &str, detail: &str) -> (error: Self)
        ensures
            error@ == (LauncherErrorView { kind, subject: subject@, detail: detail@ }),
    {
        LauncherError {
            kind,
            subject: String::from_str(subject),
            detail: String::from_str(detail),
        }
    }

    /// The error of the launcher that stands for a failure of the management
    /// interface: its detail is the message of that failure.
    pub fn from_server(error: &ServerError) -> (wrapped: Self)
        ensures
            wrapped@ == (LauncherErrorView {
                kind: LauncherErrorKind::ServerError,
                subject: Seq::empty(),
                detail: error.message(),
            }),
    {
        LauncherError {
            kind: LauncherErrorKind::ServerError,
            subject: String::new(),
            detail: error.to_string(),
        }
    }

    /// The text shown to a user for this error.
    pub fn to_string(&self) -> (text: String)
        ensures
            text@ == self@.message(),
    {
        let mut text = String::from_str(self.kind.opening_text());
        let ghost opened = text@;
        match self.kind.joint_text() {
            Some(joint) => {
                text.append(self.subject.as_str());
                text.append(joint);
            },
            None => {
                assert(opened + Seq::<char>::empty() =~= opened);
            },
        }
        let ghost middle = text@;
        if self.kind.shows_detail() {
            text.append(self.detail.as_str());
        } else {
            assert(middle + Seq::<char>::empty() =~= middle);
        }
        proof {
            match self.kind.joint() {
                Some(joint) => {
                    assert(opened + self.subject@ + joint =~= opened + (self.subject@ + joint));
                },
                None => {},
            }
        }
        text
    }
}

} // verus!
