//! What the launcher asks the embedding program to do to the system, what
//! the program reports back, and which reports amount to a failure.

use crate::launcher::error::{LauncherError, LauncherErrorKind, LauncherErrorView};
use crate::text::{contains_bytes, lossy_text, occurs, text_of};
use vstd::prelude::*;
use vstd::string::StringSliceAdditionalSpecFns;

verus! {

/// The kernel modules that are unloaded and loaded around a passthrough.
#[derive(Debug, Clone, Copy, PartialEq, Eq, Structural)]
pub enum KernelModule {
    NvidiaUvm,
    NvidiaDrm,
    NvidiaModeset,
    Nvidia,
    VfioPci,
}

impl KernelModule {
    /// The name by which the module is loaded.
    pub open spec fn name(self) -> Seq<char> {
        match self {
            KernelModule::NvidiaUvm => "nvidia_uvm"@,
            KernelModule::NvidiaDrm => "nvidia_drm"@,
            KernelModule::NvidiaModeset => "nvidia_modeset"@,
            KernelModule::Nvidia => "nvidia"@,
            KernelModule::VfioPci => "vfio-pci"@,
        }
    }

    /// The name by which the module is loaded.
    pub fn name_text(&self) -> (text: &'static str)
        ensures
            text@ == self.name(),
    {
        match self {
            KernelModule::NvidiaUvm => "nvidia_uvm",
            KernelModule::NvidiaDrm => "nvidia_drm",
            KernelModule::NvidiaModeset => "nvidia_modeset",
            KernelModule::Nvidia => "nvidia",
            KernelModule::VfioPci => "vfio-pci",
        }
    }
}

/// The two functions of the graphics card on the bus.
#[derive(Debug, Clone, Copy, PartialEq, Eq, Structural)]
pub enum PciDevice {
    Gpu,
    GpuAudio,
}

impl PciDevice {
    /// The name by which the hypervisor knows the device.
    pub open spec fn name(self) -> Seq<char> {
        match self {
            PciDevice::Gpu => "pci_0000_01_00_0"@,
            PciDevice::GpuAudio => "pci_0000_01_00_1"@,
        }
    }

    /// The name by which the hypervisor knows the device.
    pub fn name_text(&self) -> (text: &'static str)
        ensures
            text@ == self.name(),
    {
        match self {
            PciDevice::Gpu => "pci_0000_01_00_0",
            PciDevice::GpuAudio => "pci_0000_01_00_1",
        }
    }
}

/// The control groups whose processors are limited while the machine runs.
#[derive(Debug, Clone, Copy, PartialEq, Eq, Structural)]
pub enum CpuUnit {
    UserSlice,
    SystemSlice,
    Scope,
}

impl CpuUnit {
    /// The object path of the unit at the service manager.
    pub open spec fn path(self) -> Seq<char> {
        match self {
            CpuUnit::UserSlice => "/org/freedesktop/systemd1/unit/user_2eslice"@,
            CpuUnit::SystemSlice => "/org/freedesktop/systemd1/unit/system_2eslice"@,
            CpuUnit::Scope => "/org/freedesktop/systemd1/unit/unit_2escope"@,
        }
    }

    /// The object path of the unit at the service manager.
    pub fn path_text(&self) -> (text: &'static str)
        ensures
            text@ == self.path(),
    {
        match self {
            CpuUnit::UserSlice => "/org/freedesktop/systemd1/unit/user_2eslice",
            CpuUnit::SystemSlice => "/org/freedesktop/systemd1/unit/system_2eslice",
            CpuUnit::Scope => "/org/freedesktop/systemd1/unit/unit_2escope",
        }
    }
}

/// One thing that the launcher asks the embedding program to do to the
/// system. The program carries it out and reports how it went.
#[derive(Debug, Clone, Copy, PartialEq, Eq, Structural)]
pub enum SystemAction {
    /// Stop the display manager.
    StopDisplayManager,
    /// List the users and stop the audio sockets of each.
    StopAudio,
    /// List the processes of root, to see whether any still uses the card.
    CheckGpuProcesses,
    /// Unload a kernel module, by force.
    UnloadModule(KernelModule),
    /// Detach a device from the host through the hypervisor.
    DetachPci(PciDevice),
    /// Load a kernel module.
    LoadModule(KernelModule),
    /// Start the audio sockets of every user.
    StartAudio,
    /// Start the display manager.
    StartDisplayManager,
    /// Limit a control group to the host's share of the processors.
    LimitCpus(CpuUnit),
    /// Set the frequency governor of every processor to performance.
    SetGovernor,
    /// Create the virtual mouse; the report carries the path of its output
    /// device.
    CreateMouse,
    /// Look up where the template of the machine's descriptor lies; the
    /// report carries the path.
    LocateTemplate,
    /// Read the template; the report carries its text.
    ReadTemplate,
    /// Write the descriptor of the machine to its fixed place.
    WriteDescriptor,
    /// Wait until a user session has reported in.
    AwaitUser,
    /// Open the file that takes the output of the hypervisor.
    OpenVmLog,
    /// Start the machine from the descriptor.
    StartVm,
    /// Record with the server that the machine was started.
    AnnounceLaunch,
    /// Ask the machine to shut down.
    ShutdownVm,
    /// Ask the hypervisor whether the machine still exists.
    QueryVm,
    /// End the machine by force.
    DestroyVm,
    /// Remove the virtual mouse.
    DestroyMouse,
    /// Give the processors their usual frequency governor back.
    RestoreGovernor,
    /// Give a control group all processors back.
    RestoreCpus(CpuUnit),
    /// Hand a device back to the host.
    ReattachPci(PciDevice),
    /// Restart the audio sockets of every user.
    RestartAudio,
    /// Restart the display manager.
    RestartDisplayManager,
}

/// How an action went.
#[derive(Debug, Clone, PartialEq, Eq)]
pub enum Report {
    /// The call was made or the command ran. For a command, `success` is
    /// whether it exited with success and `output` is what it printed: the
    /// error stream of a module removal, the output of a process listing, and
    /// nothing where the launcher does not read it.
    Ran { success: bool, output: Vec<u8> },
    /// The call went through and gave this text: the path of a device or of
    /// a file, or what a file holds.
    Gave(String),
    /// The call failed or the command could not be run, for the given reason.
    Failed(String),
}

/// How an action went, as plain values.
pub enum ReportView {
    Ran { success: bool, output: Seq<u8> },
    Gave(Seq<char>),
    Failed(Seq<char>),
}

impl View for Report {
    type V = ReportView;

    open spec fn view(&self) -> ReportView {
        match self {
            Report::Ran { success, output } => ReportView::Ran {
                success: *success,
                output: output@,
            },
            Report::Gave(text) => ReportView::Gave(text@),
            Report::Failed(reason) => ReportView::Failed(reason@),
        }
    }
}

impl Report {
    /// The report of a call that went through, with nothing to read.
    pub fn done() -> (report: Self)
        ensures
            report@ == (ReportView::Ran { success: true, output: Seq::empty() }),
    {
        Report::Ran { success: true, output: Vec::new() }
    }
}

/// Whether the error stream of a module removal tells of a failure: it
/// holds something other than the notice that the module was not found.
pub open spec fn removal_refused(output: Seq<u8>) -> bool {
    output.len() > 0 && !occurs(output, "not found".spec_bytes())
}

/// Whether the error stream of a module removal tells of a failure.
pub fn removal_was_refused(output: &[u8]) -> (refused: bool)
    ensures
        refused == removal_refused(output@),
{
    output.len() > 0 && !contains_bytes(output, "not found".as_bytes())
}

/// An error of the given kind with a reason and no subject.
pub open spec fn plain(kind: LauncherErrorKind, reason: Seq<char>) -> LauncherErrorView {
    LauncherErrorView { kind, subject: Seq::empty(), detail: reason }
}

/// The error that the failure of `action` is, with the reason that was
/// given for it: an error of the kind that belongs to the action, which
/// names the module or device concerned. For a template that could not be
/// read it names nothing, since the action does not tell which file it was.
pub open spec fn blame(action: SystemAction, reason: Seq<char>) -> LauncherErrorView {
    match action {
        SystemAction::StopDisplayManager => plain(LauncherErrorKind::FailedToStopDP, reason),
        SystemAction::StopAudio => plain(LauncherErrorKind::FailedToGetUsers, reason),
        SystemAction::CheckGpuProcesses => plain(LauncherErrorKind::FailedToGetProcesses, reason),
        SystemAction::StartAudio => plain(LauncherErrorKind::FailedToStartAudio, reason),
        SystemAction::StartDisplayManager => plain(LauncherErrorKind::FailedToStartDP, reason),
        SystemAction::LimitCpus(_) => plain(LauncherErrorKind::FailedToSetCPUs, reason),
        SystemAction::SetGovernor => plain(LauncherErrorKind::FailedToReadCPUDir, reason),
        SystemAction::CreateMouse => plain(LauncherErrorKind::FailedToCreateMouse, reason),
        SystemAction::LocateTemplate => plain(LauncherErrorKind::FailedToGetXmlPath, reason),
        SystemAction::ReadTemplate => plain(LauncherErrorKind::FailedToReadXmlPath, reason),
        SystemAction::WriteDescriptor => plain(LauncherErrorKind::FailedToCreateXmlFile, reason),
        SystemAction::AwaitUser => plain(LauncherErrorKind::ServerError, reason),
        SystemAction::OpenVmLog => plain(LauncherErrorKind::FailedtoCreateLogFile, reason),
        SystemAction::StartVm => plain(LauncherErrorKind::FailedToLaunchVM, reason),
        SystemAction::AnnounceLaunch => plain(LauncherErrorKind::FailedToLockData, reason),
        SystemAction::ShutdownVm => plain(LauncherErrorKind::FailedToShutdownVm, reason),
        SystemAction::QueryVm => plain(LauncherErrorKind::FailedToGetVmState, reason),
        SystemAction::DestroyVm => plain(LauncherErrorKind::FailedToDestroyVm, reason),
        SystemAction::DestroyMouse => plain(LauncherErrorKind::FailedToStopVirtualMouse, reason),
        SystemAction::RestoreGovernor => plain(LauncherErrorKind::FailedToReadCPUDir, reason),
        SystemAction::RestoreCpus(_) => plain(LauncherErrorKind::FailedToSetCPUs, reason),
        SystemAction::RestartAudio => plain(LauncherErrorKind::FailedToRestartAudio, reason),
        SystemAction::RestartDisplayManager => plain(LauncherErrorKind::FailedToRestartDP, reason),
        SystemAction::UnloadModule(module) => LauncherErrorView {
            kind: LauncherErrorKind::FailedToUnloadKernelModule,
            subject: module.name(),
            detail: reason,
        },
        SystemAction::DetachPci(device) => LauncherErrorView {
            kind: LauncherErrorKind::FailedToDisconnectGPU,
            subject: device.name(),
            detail: reason,
        },
        SystemAction::LoadModule(module) => LauncherErrorView {
            kind: LauncherErrorKind::FailedToLoadKernelModule,
            subject: module.name(),
            detail: reason,
        },
        SystemAction::ReattachPci(device) => LauncherErrorView {
            kind: LauncherErrorKind::FailedToConnectGPU,
            subject: device.name(),
            detail: reason,
        },
    }
}

/// The error that a report on `action` amounts to, if it amounts to one.
///
/// A call that failed, or a command that could not be run, is an error with
/// the reason given. A command that ran and exited without success is an
/// error too, with what it printed as the reason. Two commands are judged
/// otherwise: the removal of a module by its error stream alone, which
/// tells of a failure unless it is empty or says that the module was not
/// found; and the query after the machine, whose exit status is the answer
/// and no failure.
pub open spec fn failure(action: SystemAction, report: ReportView) -> Option<LauncherErrorView> {
    match report {
        ReportView::Failed(reason) => Some(blame(action, reason)),
        ReportView::Ran { success, output } => match action {
            SystemAction::UnloadModule(module) => if removal_refused(output) {
                Some(
                    LauncherErrorView {
                        kind: LauncherErrorKind::ModprobeRemoveReturnedErr,
                        subject: module.name(),
                        detail: lossy_text(output),
                    },
                )
            } else {
                None
            },
            SystemAction::QueryVm => None,
            _ => if success {
                None
            } else {
                Some(blame(action, lossy_text(output)))
            },
        },
        ReportView::Gave(_) => None,
    }
}

/// The error that the failure of `action` is, with the reason that was
/// given for it.
pub fn blame_of(action: SystemAction, reason: &str) -> (error: LauncherError)
    ensures
        error@ == blame(action, reason@),
{
    match action {
        SystemAction::StopDisplayManager => LauncherError::new(LauncherErrorKind::FailedToStopDP, reason),
        SystemAction::StopAudio => LauncherError::new(LauncherErrorKind::FailedToGetUsers, reason),
        SystemAction::CheckGpuProcesses => LauncherError::new(LauncherErrorKind::FailedToGetProcesses, reason),
        SystemAction::StartAudio => LauncherError::new(LauncherErrorKind::FailedToStartAudio, reason),
        SystemAction::StartDisplayManager => LauncherError::new(LauncherErrorKind::FailedToStartDP, reason),
        SystemAction::LimitCpus(_) => LauncherError::new(LauncherErrorKind::FailedToSetCPUs, reason),
        SystemAction::SetGovernor => LauncherError::new(LauncherErrorKind::FailedToReadCPUDir, reason),
        SystemAction::CreateMouse => LauncherError::new(LauncherErrorKind::FailedToCreateMouse, reason),
        SystemAction::LocateTemplate => LauncherError::new(LauncherErrorKind::FailedToGetXmlPath, reason),
        SystemAction::ReadTemplate => LauncherError::new(LauncherErrorKind::FailedToReadXmlPath, reason),
        SystemAction::WriteDescriptor => LauncherError::new(LauncherErrorKind::FailedToCreateXmlFile, reason),
        SystemAction::AwaitUser => LauncherError::new(LauncherErrorKind::ServerError, reason),
        SystemAction::OpenVmLog => LauncherError::new(LauncherErrorKind::FailedtoCreateLogFile, reason),
        SystemAction::StartVm => LauncherError::new(LauncherErrorKind::FailedToLaunchVM, reason),
        SystemAction::AnnounceLaunch => LauncherError::new(LauncherErrorKind::FailedToLockData, reason),
        SystemAction::ShutdownVm => LauncherError::new(LauncherErrorKind::FailedToShutdownVm, reason),
        SystemAction::QueryVm => LauncherError::new(LauncherErrorKind::FailedToGetVmState, reason),
        SystemAction::DestroyVm => LauncherError::new(LauncherErrorKind::FailedToDestroyVm, reason),
        SystemAction::DestroyMouse => LauncherError::new(LauncherErrorKind::FailedToStopVirtualMouse, reason),
        SystemAction::RestoreGovernor => LauncherError::new(LauncherErrorKind::FailedToReadCPUDir, reason),
        SystemAction::RestoreCpus(_) => LauncherError::new(LauncherErrorKind::FailedToSetCPUs, reason),
        SystemAction::RestartAudio => LauncherError::new(LauncherErrorKind::FailedToRestartAudio, reason),
        SystemAction::RestartDisplayManager => LauncherError::new(LauncherErrorKind::FailedToRestartDP, reason),
        SystemAction::UnloadModule(module) => LauncherError::about(
            LauncherErrorKind::FailedToUnloadKernelModule,
            module.name_text(),
            reason,
        ),
        SystemAction::DetachPci(device) => LauncherError::about(
            LauncherErrorKind::FailedToDisconnectGPU,
            device.name_text(),
            reason,
        ),
        SystemAction::LoadModule(module) => LauncherError::about(
            LauncherErrorKind::FailedToLoadKernelModule,
            module.name_text(),
            reason,
        ),
        SystemAction::ReattachPci(device) => LauncherError::about(
            LauncherErrorKind::FailedToConnectGPU,
            device.name_text(),
            reason,
        ),
    }
}

/// The error that a report on `action` amounts to, if it amounts to one.
pub fn failure_of(action: SystemAction, report: &Report) -> (error: Option<LauncherError>)
    ensures
        error is Some == failure(action, report@) is Some,
        error is Some ==> error->0@ == failure(action, report@)->0,
{
    match report {
        Report::Failed(reason) => Some(blame_of(action, reason.as_str())),
        Report::Ran { success, output } => match action {
            SystemAction::UnloadModule(module) => {
                if removal_was_refused(output.as_slice()) {
                    let shown = text_of(output.as_slice());
                    Some(
                        LauncherError::about(
                            LauncherErrorKind::ModprobeRemoveReturnedErr,
                            module.name_text(),
                            shown.as_str(),
                        ),
                    )
                } else {
                    None
                }
            },
            SystemAction::QueryVm => None,
            _ => {
                if *success {
                    None
                } else {
                    let shown = text_of(output.as_slice());
                    Some(blame_of(action, shown.as_str()))
                }
            },
        },
        Report::Gave(_) => None,
    }
}

} // verus!
