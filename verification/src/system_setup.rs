//! The state of the host as the setup leaves it, service by service and
//! module by module, and what follows from it for the way back.

use crate::dbus_manager::DBusError;
use crate::gpu::{if_due, push_due, Advance};
use crate::launch::Launch;
use crate::launcher::{
    failure, failure_of, CpuUnit, KernelModule, PciDevice, Report, SystemAction, SystemState,
    VmType,
};
use crate::text::{decimal, decimal_text, replace_text, replaced};
use vstd::array::ArrayAdditionalExecFns;
use vstd::prelude::*;

verus! {

/// Whether a kernel module is loaded.
#[derive(Debug, Clone, Copy, PartialEq, Eq, Structural)]
pub enum ModuleState {
    Loaded,
    Unloaded,
}

/// What was done to a service.
#[derive(Debug, Clone, Copy, PartialEq, Eq, Structural)]
pub enum ServiceState {
    Untouched,
    Stopped,
    Started,
    Reset,
}

/// Represents the state of actions taken during the setup of the graphics
/// card.
#[derive(Debug, Clone, Copy, PartialEq, Eq)]
pub struct GpuSetupState {
    /// The display manager.
    pub dp_state: ServiceState,
    /// The audio socket of the users.
    pub pw_state: ServiceState,
    /// The second audio socket of the users.
    pub pwp_state: ServiceState,
    /// The passthrough driver.
    pub vfio: ModuleState,
    /// Whether the graphics card and its audio function are attached to the
    /// host.
    pub gpu_attached: (bool, bool),
    /// `nvidia_uvm`, `nvidia_drm`, `nvidia_modeset` and `nvidia`.
    pub nvidia: [ModuleState; 4],
}

impl GpuSetupState {
    /// The state of a host that was not touched: the driver modules are
    /// loaded, the passthrough driver is not, and the card is attached.
    pub open spec fn untouched(self) -> bool {
        &&& self.dp_state == ServiceState::Untouched
        &&& self.pw_state == ServiceState::Untouched
        &&& self.pwp_state == ServiceState::Untouched
        &&& self.vfio == ModuleState::Unloaded
        &&& self.gpu_attached == (true, true)
        &&& self.nvidia@ == seq![
            ModuleState::Loaded,
            ModuleState::Loaded,
            ModuleState::Loaded,
            ModuleState::Loaded,
        ]
    }

    /// The place of a driver module among the four, if it is one of them.
    pub open spec fn slot(module: KernelModule) -> Option<int> {
        match module {
            KernelModule::NvidiaUvm => Some(0),
            KernelModule::NvidiaDrm => Some(1),
            KernelModule::NvidiaModeset => Some(2),
            KernelModule::Nvidia => Some(3),
            KernelModule::VfioPci => None,
        }
    }

    /// Whether `after` is the state that the success of `action` makes of
    /// `self`: stopping and starting mark the service, unloading and loading
    /// mark the module, detaching marks the device, and any other action
    /// leaves the state as it is.
    pub open spec fn follows(self, action: SystemAction, after: GpuSetupState) -> bool {
        match action {
            SystemAction::StopDisplayManager => after == (GpuSetupState {
                dp_state: ServiceState::Stopped,
                ..self
            }),
            SystemAction::StartDisplayManager => after == (GpuSetupState {
                dp_state: ServiceState::Started,
                ..self
            }),
            SystemAction::StopAudio => after == (GpuSetupState {
                pw_state: ServiceState::Stopped,
                pwp_state: ServiceState::Stopped,
                ..self
            }),
            SystemAction::StartAudio => after == (GpuSetupState {
                pw_state: ServiceState::Started,
                pwp_state: ServiceState::Started,
                ..self
            }),
            SystemAction::UnloadModule(module) => match GpuSetupState::slot(module) {
                Some(slot) => {
                    &&& after.nvidia@ == self.nvidia@.update(slot, ModuleState::Unloaded)
                    &&& after.dp_state == self.dp_state
                    &&& after.pw_state == self.pw_state
                    &&& after.pwp_state == self.pwp_state
                    &&& after.vfio == self.vfio
                    &&& after.gpu_attached == self.gpu_attached
                },
                None => after == self,
            },
            SystemAction::LoadModule(KernelModule::VfioPci) => after == (GpuSetupState {
                vfio: ModuleState::Loaded,
                ..self
            }),
            SystemAction::DetachPci(PciDevice::Gpu) => after == (GpuSetupState {
                gpu_attached: (false, self.gpu_attached.1),
                ..self
            }),
            SystemAction::DetachPci(PciDevice::GpuAudio) => after == (GpuSetupState {
                gpu_attached: (self.gpu_attached.0, false),
                ..self
            }),
            _ => after == self,
        }
    }

    /// Enters the success of `action` in the state.
    pub fn record(&mut self, action: SystemAction)
        ensures
            old(self).follows(action, *final(self)),
    {
        match action {
            SystemAction::StopDisplayManager => {
                self.dp_state = ServiceState::Stopped;
            },
            SystemAction::StartDisplayManager => {
                self.dp_state = ServiceState::Started;
            },
            SystemAction::StopAudio => {
                self.pw_state = ServiceState::Stopped;
                self.pwp_state = ServiceState::Stopped;
            },
            SystemAction::StartAudio => {
                self.pw_state = ServiceState::Started;
                self.pwp_state = ServiceState::Started;
            },
            SystemAction::UnloadModule(KernelModule::NvidiaUvm) => {
                self.nvidia.set(0, ModuleState::Unloaded);
            },
            SystemAction::UnloadModule(KernelModule::NvidiaDrm) => {
                self.nvidia.set(1, ModuleState::Unloaded);
            },
            SystemAction::UnloadModule(KernelModule::NvidiaModeset) => {
                self.nvidia.set(2, ModuleState::Unloaded);
            },
            SystemAction::UnloadModule(KernelModule::Nvidia) => {
                self.nvidia.set(3, ModuleState::Unloaded);
            },
            SystemAction::LoadModule(KernelModule::VfioPci) => {
                self.vfio = ModuleState::Loaded;
            },
            SystemAction::DetachPci(PciDevice::Gpu) => {
                self.gpu_attached.0 = false;
            },
            SystemAction::DetachPci(PciDevice::GpuAudio) => {
                self.gpu_attached.1 = false;
            },
            _ => {},
        }
    }

    /// Whether the audio sockets have to be restarted on the way back.
    pub open spec fn audio_reset(self) -> bool {
        self.nvidia@[0] == ModuleState::Unloaded || self.pw_state == ServiceState::Stopped
            || self.pwp_state == ServiceState::Stopped
    }

    /// Whether the display manager has to be restarted on the way back.
    pub open spec fn display_reset(self) -> bool {
        self.nvidia@[0] == ModuleState::Unloaded || self.dp_state == ServiceState::Stopped
    }

    /// The actions that undo the setup, in their order: the passthrough
    /// driver is unloaded if it is loaded, each function of the card is
    /// handed back if it is detached, and the driver modules that are
    /// unloaded are loaded in the reverse of the order in which they go.
    /// If the system bus can still be reached, the audio sockets are
    /// restarted where they were left stopped or the first driver module was
    /// unloaded, and so is the display manager.
    pub open spec fn way_back(self, bus_alive: bool) -> Seq<SystemAction> {
        Seq::empty() + if_due(
            self.vfio == ModuleState::Loaded,
            SystemAction::UnloadModule(KernelModule::VfioPci),
        ) + if_due(!self.gpu_attached.0, SystemAction::ReattachPci(PciDevice::Gpu)) + if_due(
            !self.gpu_attached.1,
            SystemAction::ReattachPci(PciDevice::GpuAudio),
        ) + if_due(
            self.nvidia@[3] == ModuleState::Unloaded,
            SystemAction::LoadModule(KernelModule::Nvidia),
        ) + if_due(
            self.nvidia@[2] == ModuleState::Unloaded,
            SystemAction::LoadModule(KernelModule::NvidiaModeset),
        ) + if_due(
            self.nvidia@[1] == ModuleState::Unloaded,
            SystemAction::LoadModule(KernelModule::NvidiaDrm),
        ) + if_due(
            self.nvidia@[0] == ModuleState::Unloaded,
            SystemAction::LoadModule(KernelModule::NvidiaUvm),
        ) + if_due(bus_alive && self.audio_reset(), SystemAction::RestartAudio) + if_due(
            bus_alive && self.display_reset(),
            SystemAction::RestartDisplayManager,
        )
    }

    /// Undoes the setup of the graphics card: the actions that the state
    /// asks for, in the order in which they are to be carried out.
    pub fn cleanup(&self, bus_alive: bool) -> (plan: Vec<SystemAction>)
        ensures
            plan@ == self.way_back(bus_alive),
    {
        let stopped_pw = self.pw_state == ServiceState::Stopped;
        let stopped_pwp = self.pwp_state == ServiceState::Stopped;
        let stopped_dp = self.dp_state == ServiceState::Stopped;
        let first_gone = self.nvidia[0] == ModuleState::Unloaded;
        let mut plan: Vec<SystemAction> = Vec::new();
        assert(plan@ =~= Seq::<SystemAction>::empty());
        push_due(
            &mut plan,
            self.vfio == ModuleState::Loaded,
            SystemAction::UnloadModule(KernelModule::VfioPci),
        );
        push_due(&mut plan, !self.gpu_attached.0, SystemAction::ReattachPci(PciDevice::Gpu));
        push_due(&mut plan, !self.gpu_attached.1, SystemAction::ReattachPci(PciDevice::GpuAudio));
        push_due(
            &mut plan,
            self.nvidia[3] == ModuleState::Unloaded,
            SystemAction::LoadModule(KernelModule::Nvidia),
        );
        push_due(
            &mut plan,
            self.nvidia[2] == ModuleState::Unloaded,
            SystemAction::LoadModule(KernelModule::NvidiaModeset),
        );
        push_due(
            &mut plan,
            self.nvidia[1] == ModuleState::Unloaded,
            SystemAction::LoadModule(KernelModule::NvidiaDrm),
        );
        push_due(&mut plan, first_gone, SystemAction::LoadModule(KernelModule::NvidiaUvm));
        push_due(
            &mut plan,
            bus_alive && (first_gone || stopped_pw || stopped_pwp),
            SystemAction::RestartAudio,
        );
        push_due(
            &mut plan,
            bus_alive && (first_gone || stopped_dp),
            SystemAction::RestartDisplayManager,
        );
        plan
    }
}

impl Default for GpuSetupState {
    fn default() -> (state: Self)
        ensures
            state.untouched(),
    {
        let state = GpuSetupState {
            dp_state: ServiceState::Untouched,
            pw_state: ServiceState::Untouched,
            pwp_state: ServiceState::Untouched,
            vfio: ModuleState::Unloaded,
            gpu_attached: (true, true),
            nvidia: [
                ModuleState::Loaded,
                ModuleState::Loaded,
                ModuleState::Loaded,
                ModuleState::Loaded,
            ],
        };
        assert(state.nvidia@ =~= seq![
            ModuleState::Loaded,
            ModuleState::Loaded,
            ModuleState::Loaded,
            ModuleState::Loaded,
        ]);
        state
    }
}

/// What the quick performance enhancements have changed.
#[derive(Debug, Default, Clone, Copy, PartialEq, Eq)]
pub struct PerformanceState {
    /// Whether the user slice, the system slice and the scope unit were
    /// limited to the host's share of the processors.
    pub cpu_limited: (bool, bool, bool),
    /// Whether the frequency governor was set to performance.
    pub governor_performance: bool,
}

impl PerformanceState {
    /// The state once `action` has succeeded: limiting a control group and
    /// setting the governor are marked, and any other action leaves the
    /// state as it is.
    pub open spec fn after(self, action: SystemAction) -> PerformanceState {
        match action {
            SystemAction::LimitCpus(CpuUnit::UserSlice) => PerformanceState {
                cpu_limited: (true, self.cpu_limited.1, self.cpu_limited.2),
                ..self
            },
            SystemAction::LimitCpus(CpuUnit::SystemSlice) => PerformanceState {
                cpu_limited: (self.cpu_limited.0, true, self.cpu_limited.2),
                ..self
            },
            SystemAction::LimitCpus(CpuUnit::Scope) => PerformanceState {
                cpu_limited: (self.cpu_limited.0, self.cpu_limited.1, true),
                ..self
            },
            SystemAction::SetGovernor => PerformanceState { governor_performance: true, ..self },
            _ => self,
        }
    }

    /// The actions that undo the enhancements, in their order: the governor
    /// is given back if it was set, and, if the system bus can still be
    /// reached, every control group is given all processors back.
    pub open spec fn way_back(self, bus_alive: bool) -> Seq<SystemAction> {
        Seq::empty() + if_due(self.governor_performance, SystemAction::RestoreGovernor) + if_due(
            bus_alive,
            SystemAction::RestoreCpus(CpuUnit::UserSlice),
        ) + if_due(bus_alive, SystemAction::RestoreCpus(CpuUnit::SystemSlice)) + if_due(
            bus_alive,
            SystemAction::RestoreCpus(CpuUnit::Scope),
        )
    }

    /// Undoes the performance enhancements: the actions to carry out, in
    /// their order.
    pub fn revert(&self, bus_alive: bool) -> (plan: Vec<SystemAction>)
        ensures
            plan@ == self.way_back(bus_alive),
    {
        let mut plan: Vec<SystemAction> = Vec::new();
        assert(plan@ =~= Seq::<SystemAction>::empty());
        push_due(&mut plan, self.governor_performance, SystemAction::RestoreGovernor);
        push_due(&mut plan, bus_alive, SystemAction::RestoreCpus(CpuUnit::UserSlice));
        push_due(&mut plan, bus_alive, SystemAction::RestoreCpus(CpuUnit::SystemSlice));
        push_due(&mut plan, bus_alive, SystemAction::RestoreCpus(CpuUnit::Scope));
        plan
    }
}

/// The quick performance enhancements, in their order: the three control
/// groups are limited to the host's share of the processors, then the
/// frequency governor is set.
pub open spec fn performance_sequence() -> Seq<SystemAction> {
    seq![
        SystemAction::LimitCpus(CpuUnit::UserSlice),
        SystemAction::LimitCpus(CpuUnit::SystemSlice),
        SystemAction::LimitCpus(CpuUnit::Scope),
        SystemAction::SetGovernor,
    ]
}

/// The quick performance enhancements, in their order.
pub fn performance_enhancements() -> (steps: Vec<SystemAction>)
    ensures
        steps@ == performance_sequence(),
{
    let mut steps: Vec<SystemAction> = Vec::new();
    steps.push(SystemAction::LimitCpus(CpuUnit::UserSlice));
    steps.push(SystemAction::LimitCpus(CpuUnit::SystemSlice));
    steps.push(SystemAction::LimitCpus(CpuUnit::Scope));
    steps.push(SystemAction::SetGovernor);
    assert(steps@ =~= performance_sequence());
    steps
}

/// Whether `action` is one of the performance enhancements.
pub open spec fn is_enhancement(action: SystemAction) -> bool {
    action is LimitCpus || action == SystemAction::SetGovernor
}

/// Takes the report on one of the performance enhancements. A report that
/// amounts to a failure gives the error of the enhancement, with the reason
/// of the failure, and leaves the state as it is; the enhancements end
/// there. Any other report marks the enhancement in the state. An action
/// that is no enhancement is passed over.
pub fn performance_step(state: &mut PerformanceState, action: SystemAction, report: &Report) -> (error:
    Option<SetupError>)
    ensures
        error is Some <==> is_enhancement(action) && failure(action, report@) is Some,
        error is None ==> *final(state) == old(state).after(action),
        error is Some ==> *final(state) == *old(state),
        error is Some && action is LimitCpus ==> (error->0 matches SetupError::FailedToSetAllowedCPUs(
            DBusError::MethodCallError(reason),
        ) && reason@ == failure(action, report@)->0.detail),
        error is Some && action == SystemAction::SetGovernor ==> (
        error->0 matches SetupError::FailedToReadCPUDir(reason) && reason@ == failure(
            action,
            report@,
        )->0.detail),
{
    let failed = failure_of(action, report);
    match action {
        SystemAction::LimitCpus(unit) => {
            match failed {
                Some(cause) => {
                    return Some(
                        SetupError::FailedToSetAllowedCPUs(DBusError::MethodCallError(cause.detail)),
                    );
                },
                None => {},
            }
            match unit {
                CpuUnit::UserSlice => {
                    state.cpu_limited.0 = true;
                },
                CpuUnit::SystemSlice => {
                    state.cpu_limited.1 = true;
                },
                CpuUnit::Scope => {
                    state.cpu_limited.2 = true;
                },
            }
            None
        },
        SystemAction::SetGovernor => {
            match failed {
                Some(cause) => {
                    return Some(SetupError::FailedToReadCPUDir(cause.detail));
                },
                None => {},
            }
            state.governor_performance = true;
            None
        },
        _ => None,
    }
}

/// One step of taking the graphics card from the host, for the program
/// that keeps the state of the setup service by service: takes the report
/// on the action that was due in `run`, marks a success in the state, and
/// says what is to be done next, as the run itself decides it. The listings
/// of processes are bounded as in every run.
pub fn dc_gpu(state: &mut GpuSetupState, run: &mut Launch, report: &Report) -> (advance: Advance)
    requires
        old(run)@.wf(),
    ensures
        final(run)@.wf(),
        final(run)@ == old(run)@.step(SystemState::untouched(), report@).progress,
        advance@ == old(run)@.step(SystemState::untouched(), report@).advance,
        final(run)@.position == old(run)@.position + 1 ==> old(state).follows(
            old(run)@.plan[old(run)@.position as int],
            *final(state),
        ),
        final(run)@.position != old(run)@.position + 1 ==> *final(state) == *old(state),
{
    let before = run.steps_done();
    let action = run.next_action();
    let mut scratch = SystemState::new();
    let advance = run.record(&mut scratch, report);
    if run.steps_done() > before {
        match action {
            Some(action) => {
                state.record(action);
            },
            None => {},
        }
    }
    advance
}

/// The token in the template of the descriptor that stands for the number
/// of the mouse's event device.
pub open spec fn mouse_id_placeholder() -> Seq<char> {
    "VIRTUAL_MOUSE_EVENT_ID"@
}

/// Creates the descriptor of the machine from its template: the number of
/// the mouse's event device takes the place of the token that stands for it.
pub fn create_xml(template: &str, mouse_id: u32) -> (descriptor: String)
    ensures
        descriptor@ == replaced(template@, mouse_id_placeholder(), decimal(mouse_id as nat)),
{
    replace_text(template, "VIRTUAL_MOUSE_EVENT_ID", decimal_text(mouse_id).as_str())
}

/// The name of the environment variable that tells where the template of
/// the descriptor lies, for a variant of the machine.
pub fn xml_path_variable(vm_type: VmType) -> (name: &'static str)
    ensures
        name@ == match vm_type {
            VmType::LookingGlass => "WINDOWS_LG_XML_PATH"@,
            VmType::Spice => "WINDOWS_SPICE_XML_PATH"@,
        },
{
    match vm_type {
        VmType::LookingGlass => "WINDOWS_LG_XML_PATH",
        VmType::Spice => "WINDOWS_SPICE_XML_PATH",
    }
}

/// The ways in which taking the graphics card from the host can fail.
#[derive(Debug, Clone, PartialEq, Eq)]
pub enum GpuSetupError {
    FailedToStopDP(DBusError),
    FailedToConnectUsers(DBusError),
    FailedToStopPW(DBusError),
    FailedToStopPWP(DBusError),
    FailedToUnloadKernelModule(String, String),
    ModprobeRemoveReturnedErr(String, String),
    FailedToDisconnectGPU(String, String),
    FailedToLoadKernelModule(String, String),
    FailedToStartPW(DBusError),
    FailedToStartPWP(DBusError),
    FailedToStartDP(DBusError),
}

impl GpuSetupError {
    /// The text shown to a user for this error.
    pub open spec fn message(self) -> Seq<char> {
        match self {
            GpuSetupError::FailedToStopDP(error) => "Could not stop the display manager wuth err: "@
                + error.message(),
            GpuSetupError::FailedToConnectUsers(error) => "Could not connect to user busses: "@
                + error.message(),
            GpuSetupError::FailedToStopPW(error) => "Could not stop users pipewire.socket: "@
                + error.message(),
            GpuSetupError::FailedToStopPWP(error) => "Could not stop users pipewire-pulse.socket: "@
                + error.message(),
            GpuSetupError::FailedToUnloadKernelModule(subject, reason) => "Could not unload kernel module: "@
                + subject@ + ", with err: "@ + reason@,
            GpuSetupError::ModprobeRemoveReturnedErr(subject, reason) => "Modprobe while unloading "@
                + subject@ + ", returned error: "@ + reason@,
            GpuSetupError::FailedToDisconnectGPU(subject, reason) => "Could not use virsh to dc "@
                + subject@ + ", with error: "@ + reason@,
            GpuSetupError::FailedToLoadKernelModule(subject, reason) => "Could not load module: "@
                + subject@ + ", with error: "@ + reason@,
            GpuSetupError::FailedToStartPW(error) => "Could not start users pipewire.socket: "@
                + error.message(),
            GpuSetupError::FailedToStartPWP(error) => "Could not start users pipewire-pulse.socket: "@
                + error.message(),
            GpuSetupError::FailedToStartDP(error) => "Could not start the display manager wuth err: "@
                + error.message(),
        }
    }

    /// The text shown to a user for this error.
    pub fn to_string(&self) -> (text: String)
        ensures
            text@ == self.message(),
    {
        match self {
            GpuSetupError::FailedToStopDP(error) => {
                let mut text = String::from_str("Could not stop the display manager wuth err: ");
                text.append(error.to_string().as_str());
                text
            },
            GpuSetupError::FailedToConnectUsers(error) => {
                let mut text = String::from_str("Could not connect to user busses: ");
                text.append(error.to_string().as_str());
                text
            },
            GpuSetupError::FailedToStopPW(error) => {
                let mut text = String::from_str("Could not stop users pipewire.socket: ");
                text.append(error.to_string().as_str());
                text
            },
            GpuSetupError::FailedToStopPWP(error) => {
                let mut text = String::from_str("Could not stop users pipewire-pulse.socket: ");
                text.append(error.to_string().as_str());
                text
            },
            GpuSetupError::FailedToUnloadKernelModule(subject, reason) => {
                let mut text = String::from_str("Could not unload kernel module: ");
                text.append(subject.as_str());
                text.append(", with err: ");
                text.append(reason.as_str());
                text
            },
            GpuSetupError::ModprobeRemoveReturnedErr(subject, reason) => {
                let mut text = String::from_str("Modprobe while unloading ");
                text.append(subject.as_str());
                text.append(", returned error: ");
                text.append(reason.as_str());
                text
            },
            GpuSetupError::FailedToDisconnectGPU(subject, reason) => {
                let mut text = String::from_str("Could not use virsh to dc ");
                text.append(subject.as_str());
                text.append(", with error: ");
                text.append(reason.as_str());
                text
            },
            GpuSetupError::FailedToLoadKernelModule(subject, reason) => {
                let mut text = String::from_str("Could not load module: ");
                text.append(subject.as_str());
                text.append(", with error: ");
                text.append(reason.as_str());
                text
            },
            GpuSetupError::FailedToStartPW(error) => {
                let mut text = String::from_str("Could not start users pipewire.socket: ");
                text.append(error.to_string().as_str());
                text
            },
            GpuSetupError::FailedToStartPWP(error) => {
                let mut text = String::from_str("Could not start users pipewire-pulse.socket: ");
                text.append(error.to_string().as_str());
                text
            },
            GpuSetupError::FailedToStartDP(error) => {
                let mut text = String::from_str("Could not start the display manager wuth err: ");
                text.append(error.to_string().as_str());
                text
            },
        }
    }
}

/// The ways in which the preparation of the host can fail.
#[derive(Debug, Clone, PartialEq, Eq)]
pub enum SetupError {
    FailedToSetAllowedCPUs(DBusError),
    FailedToReadCPUDir(String),
    FailedToFindVmXmlVar(String),
    FailedToOpenVmXmlFile(String),
    FailedToReadVmXmlFile(String),
    FailedToCreateTmpXmlFile(String),
    FailedToWriteTmpXmlFile(String),
    FailedToLaunchVM(String),
    CouldNotCreateWindowsLogFile(String),
}

impl SetupError {
    /// The text shown to a user for this error.
    pub open spec fn message(self) -> Seq<char> {
        match self {
            SetupError::FailedToSetAllowedCPUs(error) => "Could not set allowed cpus: "@
                + error.message(),
            SetupError::FailedToReadCPUDir(reason) => "Could not read the cpu dir: "@ + reason@,
            SetupError::FailedToFindVmXmlVar(reason) => "Could not find the vm xml env variable: "@
                + reason@,
            SetupError::FailedToOpenVmXmlFile(reason) => "Could not open vm xml file: "@ + reason@,
            SetupError::FailedToReadVmXmlFile(reason) => "Could not read vm xml file: "@ + reason@,
            SetupError::FailedToCreateTmpXmlFile(reason) => "Could not create the temp xml file: "@
                + reason@,
            SetupError::FailedToWriteTmpXmlFile(reason) => "Could not write to temp xml file: "@
                + reason@,
            SetupError::FailedToLaunchVM(reason) => "Could not launch the vm: "@ + reason@,
            SetupError::CouldNotCreateWindowsLogFile(reason) => "Could not create /tmp/windows_vm_log.txt: "@
                + reason@,
        }
    }

    /// The text shown to a user for this error.
    pub fn to_string(&self) -> (text: String)
        ensures
            text@ == self.message(),
    {
        match self {
            SetupError::FailedToSetAllowedCPUs(error) => {
                let mut text = String::from_str("Could not set allowed cpus: ");
                text.append(error.to_string().as_str());
                text
            },
            SetupError::FailedToReadCPUDir(reason) => {
                let mut text = String::from_str("Could not read the cpu dir: ");
                text.append(reason.as_str());
                text
            },
            SetupError::FailedToFindVmXmlVar(reason) => {
                let mut text = String::from_str("Could not find the vm xml env variable: ");
                text.append(reason.as_str());
                text
            },
            SetupError::FailedToOpenVmXmlFile(reason) => {
                let mut text = String::from_str("Could not open vm xml file: ");
                text.append(reason.as_str());
                text
            },
            SetupError::FailedToReadVmXmlFile(reason) => {
                let mut text = String::from_str("Could not read vm xml file: ");
                text.append(reason.as_str());
                text
            },
            SetupError::FailedToCreateTmpXmlFile(reason) => {
                let mut text = String::from_str("Could not create the temp xml file: ");
                text.append(reason.as_str());
                text
            },
            SetupError::FailedToWriteTmpXmlFile(reason) => {
                let mut text = String::from_str("Could not write to temp xml file: ");
                text.append(reason.as_str());
                text
            },
            SetupError::FailedToLaunchVM(reason) => {
                let mut text = String::from_str("Could not launch the vm: ");
                text.append(reason.as_str());
                text
            },
            SetupError::CouldNotCreateWindowsLogFile(reason) => {
                let mut text = String::from_str("Could not create /tmp/windows_vm_log.txt: ");
                text.append(reason.as_str());
                text
            },
        }
    }
}

} // verus!
