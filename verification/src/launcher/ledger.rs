//! The ledger of the changes made to the system on behalf of the machine.

use crate::launcher::action::{CpuUnit, KernelModule, PciDevice, SystemAction};
use vstd::prelude::*;

verus! {

/// Represents the changes made to the system on behalf of the virtual
/// machine: one flag for each change that has to be undone.
#[derive(Debug, Clone, Copy, PartialEq, Eq)]
pub struct SystemState {
    /// The user slice, the system slice and the scope unit were limited to
    /// the host's share of the processors.
    pub cpus_limited: (bool, bool, bool),
    pub performance_governor: bool,
    pub virtual_mouse_create: bool,
    pub vm_launched: bool,
    /// The display manager was stopped.
    pub dp_stopped: bool,
    /// The audio sockets of the users were stopped.
    pub pw_stopped: bool,
    /// `nvidia_uvm`, `nvidia_drm`, `nvidia_modeset` and `nvidia` were unloaded.
    pub nvidia_unloaded: (bool, bool, bool, bool),
    /// The graphics card and its audio function were detached.
    pub gpu_dettached: (bool, bool),
    pub vfio_loaded: bool,
}

impl SystemState {
    /// The ledger of a system on which nothing was changed.
    pub open spec fn untouched() -> SystemState {
        SystemState {
            cpus_limited: (false, false, false),
            performance_governor: false,
            virtual_mouse_create: false,
            vm_launched: false,
            dp_stopped: false,
            pw_stopped: false,
            nvidia_unloaded: (false, false, false, false),
            gpu_dettached: (false, false),
            vfio_loaded: false,
        }
    }

    /// The ledger of a system on which nothing was changed.
    pub fn new() -> (state: Self)
        ensures
            state == SystemState::untouched(),
    {
        SystemState {
            cpus_limited: (false, false, false),
            performance_governor: false,
            virtual_mouse_create: false,
            vm_launched: false,
            dp_stopped: false,
            pw_stopped: false,
            nvidia_unloaded: (false, false, false, false),
            gpu_dettached: (false, false),
            vfio_loaded: false,
        }
    }

    /// Clears every flag: nothing is left to undo.
    pub fn revert(&mut self)
        ensures
            *final(self) == SystemState::untouched(),
    {
        *self = SystemState::new();
    }

    /// Whether the graphics card was taken from the host in part or in whole,
    /// so that display and audio have to be restarted once it is back.
    pub open spec fn gpu_touched(self) -> bool {
        self.vfio_loaded || self.gpu_dettached.0 || self.gpu_dettached.1 || self.nvidia_unloaded.0
            || self.nvidia_unloaded.1 || self.nvidia_unloaded.2 || self.nvidia_unloaded.3
    }

    /// The ledger once `action` has succeeded: an action that changes the
    /// system sets its flag, one that gives a service back clears the flag of
    /// the service, and any other leaves the ledger as it is.
    pub open spec fn after(self, action: SystemAction) -> SystemState {
        match action {
            SystemAction::StopDisplayManager => SystemState { dp_stopped: true, ..self },
            SystemAction::StartDisplayManager => SystemState { dp_stopped: false, ..self },
            SystemAction::StopAudio => SystemState { pw_stopped: true, ..self },
            SystemAction::StartAudio => SystemState { pw_stopped: false, ..self },
            SystemAction::UnloadModule(KernelModule::NvidiaUvm) => SystemState {
                nvidia_unloaded: (
                    true,
                    self.nvidia_unloaded.1,
                    self.nvidia_unloaded.2,
                    self.nvidia_unloaded.3,
                ),
                ..self
            },
            SystemAction::UnloadModule(KernelModule::NvidiaDrm) => SystemState {
                nvidia_unloaded: (
                    self.nvidia_unloaded.0,
                    true,
                    self.nvidia_unloaded.2,
                    self.nvidia_unloaded.3,
                ),
                ..self
            },
            SystemAction::UnloadModule(KernelModule::NvidiaModeset) => SystemState {
                nvidia_unloaded: (
                    self.nvidia_unloaded.0,
                    self.nvidia_unloaded.1,
                    true,
                    self.nvidia_unloaded.3,
                ),
                ..self
            },
            SystemAction::UnloadModule(KernelModule::Nvidia) => SystemState {
                nvidia_unloaded: (
                    self.nvidia_unloaded.0,
                    self.nvidia_unloaded.1,
                    self.nvidia_unloaded.2,
                    true,
                ),
                ..self
            },
            SystemAction::DetachPci(PciDevice::Gpu) => SystemState {
                gpu_dettached: (true, self.gpu_dettached.1),
                ..self
            },
            SystemAction::DetachPci(PciDevice::GpuAudio) => SystemState {
                gpu_dettached: (self.gpu_dettached.0, true),
                ..self
            },
            SystemAction::LoadModule(KernelModule::VfioPci) => SystemState {
                vfio_loaded: true,
                ..self
            },
            SystemAction::LimitCpus(CpuUnit::UserSlice) => SystemState {
                cpus_limited: (true, self.cpus_limited.1, self.cpus_limited.2),
                ..self
            },
            SystemAction::LimitCpus(CpuUnit::SystemSlice) => SystemState {
                cpus_limited: (self.cpus_limited.0, true, self.cpus_limited.2),
                ..self
            },
            SystemAction::LimitCpus(CpuUnit::Scope) => SystemState {
                cpus_limited: (self.cpus_limited.0, self.cpus_limited.1, true),
                ..self
            },
            SystemAction::SetGovernor => SystemState { performance_governor: true, ..self },
            SystemAction::CreateMouse => SystemState { virtual_mouse_create: true, ..self },
            SystemAction::StartVm => SystemState { vm_launched: true, ..self },
            _ => self,
        }
    }

    /// Enters the success of `action` in the ledger.
    pub fn record(&mut self, action: SystemAction)
        ensures
            *final(self) == old(self).after(action),
    {
        match action {
            SystemAction::StopDisplayManager => {
                self.dp_stopped = true;
            },
            SystemAction::StartDisplayManager => {
                self.dp_stopped = false;
            },
            SystemAction::StopAudio => {
                self.pw_stopped = true;
            },
            SystemAction::StartAudio => {
                self.pw_stopped = false;
            },
            SystemAction::UnloadModule(KernelModule::NvidiaUvm) => {
                self.nvidia_unloaded.0 = true;
            },
            SystemAction::UnloadModule(KernelModule::NvidiaDrm) => {
                self.nvidia_unloaded.1 = true;
            },
            SystemAction::UnloadModule(KernelModule::NvidiaModeset) => {
                self.nvidia_unloaded.2 = true;
            },
            SystemAction::UnloadModule(KernelModule::Nvidia) => {
                self.nvidia_unloaded.3 = true;
            },
            SystemAction::DetachPci(PciDevice::Gpu) => {
                self.gpu_dettached.0 = true;
            },
            SystemAction::DetachPci(PciDevice::GpuAudio) => {
                self.gpu_dettached.1 = true;
            },
            SystemAction::LoadModule(KernelModule::VfioPci) => {
                self.vfio_loaded = true;
            },
            SystemAction::LimitCpus(CpuUnit::UserSlice) => {
                self.cpus_limited.0 = true;
            },
            SystemAction::LimitCpus(CpuUnit::SystemSlice) => {
                self.cpus_limited.1 = true;
            },
            SystemAction::LimitCpus(CpuUnit::Scope) => {
                self.cpus_limited.2 = true;
            },
            SystemAction::SetGovernor => {
                self.performance_governor = true;
            },
            SystemAction::CreateMouse => {
                self.virtual_mouse_create = true;
            },
            SystemAction::StartVm => {
                self.vm_launched = true;
            },
            _ => {},
        }
    }
}

impl Default for SystemState {
    fn default() -> (state: Self)
        ensures
            state == SystemState::untouched(),
    {
        SystemState::new()
    }
}

} // verus!
