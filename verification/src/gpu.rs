//! Taking the graphics card away from the host and giving it back: the steps
//! of the one and the plan for the other.

use crate::launcher::{
    KernelModule, LauncherError, LauncherErrorView, PciDevice, SystemAction, SystemState,
};
use crate::text::{contains_bytes, occurs};
use vstd::prelude::*;
use vstd::string::StringSliceAdditionalSpecFns;

verus! {

/// How often the processes of root are listed, at most, before the detach
/// gives up waiting for the users of the card to end.
pub const PROCESS_CHECKS: u32 = 20;

/// What the launcher wants next after a report.
#[derive(Debug, Clone, PartialEq, Eq)]
pub enum Advance {
    /// Carry out this action.
    Do(SystemAction),
    /// Pause, then carry out this action once more.
    Retry(SystemAction),
    /// Nothing is left to do.
    Finished,
    /// The sequence is given up with this error; what was done stays in the
    /// ledger.
    Aborted(LauncherError),
}

/// What the launcher wants next, as plain values.
pub enum AdvanceView {
    Do(SystemAction),
    Retry(SystemAction),
    Finished,
    Aborted(LauncherErrorView),
}

impl View for Advance {
    type V = AdvanceView;

    open spec fn view(&self) -> AdvanceView {
        match self {
            Advance::Do(action) => AdvanceView::Do(*action),
            Advance::Retry(action) => AdvanceView::Retry(*action),
            Advance::Finished => AdvanceView::Finished,
            Advance::Aborted(error) => AdvanceView::Aborted(error@),
        }
    }
}

/// The steps that take the graphics card from the host, in their order:
/// display and audio are stopped, the users of the card are waited for, the
/// driver modules are unloaded in the order of their dependencies, both
/// functions of the card are detached, the passthrough driver is loaded, and
/// audio and display are started again.
pub open spec fn detach_sequence() -> Seq<SystemAction> {
    seq![
        SystemAction::StopDisplayManager,
        SystemAction::StopAudio,
        SystemAction::CheckGpuProcesses,
        SystemAction::UnloadModule(KernelModule::NvidiaUvm),
        SystemAction::UnloadModule(KernelModule::NvidiaDrm),
        SystemAction::UnloadModule(KernelModule::NvidiaModeset),
        SystemAction::UnloadModule(KernelModule::Nvidia),
        SystemAction::DetachPci(PciDevice::Gpu),
        SystemAction::DetachPci(PciDevice::GpuAudio),
        SystemAction::LoadModule(KernelModule::VfioPci),
        SystemAction::StartAudio,
        SystemAction::StartDisplayManager,
    ]
}

/// Whether a listing of the processes of root shows one that may still hold
/// the graphics card: the display manager or an X server.
pub open spec fn gpu_in_use(listing: Seq<u8>) -> bool {
    occurs(listing, "sddm".spec_bytes()) || occurs(listing, "X".spec_bytes())
}

/// Whether a listing of the processes of root shows one that may still hold
/// the graphics card.
pub fn gpu_is_in_use(listing: &[u8]) -> (busy: bool)
    ensures
        busy == gpu_in_use(listing@),
{
    contains_bytes(listing, "sddm".as_bytes()) || contains_bytes(listing, "X".as_bytes())
}

/// The steps that take the graphics card from the host, in their order.
pub fn detach_steps() -> (steps: Vec<SystemAction>)
    ensures
        steps@ == detach_sequence(),
{
    let mut steps: Vec<SystemAction> = Vec::new();
    steps.push(SystemAction::StopDisplayManager);
    steps.push(SystemAction::StopAudio);
    steps.push(SystemAction::CheckGpuProcesses);
    steps.push(SystemAction::UnloadModule(KernelModule::NvidiaUvm));
    steps.push(SystemAction::UnloadModule(KernelModule::NvidiaDrm));
    steps.push(SystemAction::UnloadModule(KernelModule::NvidiaModeset));
    steps.push(SystemAction::UnloadModule(KernelModule::Nvidia));
    steps.push(SystemAction::DetachPci(PciDevice::Gpu));
    steps.push(SystemAction::DetachPci(PciDevice::GpuAudio));
    steps.push(SystemAction::LoadModule(KernelModule::VfioPci));
    steps.push(SystemAction::StartAudio);
    steps.push(SystemAction::StartDisplayManager);
    assert(steps@ =~= detach_sequence());
    steps
}

/// The action `action` alone if `due`, and nothing otherwise.
#[verifier::opaque]
pub open spec fn if_due(due: bool, action: SystemAction) -> Seq<SystemAction> {
    if due {
        seq![action]
    } else {
        Seq::empty()
    }
}

/// The actions that give the graphics card back to the host, in their order,
/// as far as the ledger asks for them: the passthrough driver is unloaded,
/// the functions of the card are handed back, the driver modules are loaded
/// in the reverse of the order in which they were unloaded, and display and
/// audio are started where they were left stopped. Where they were not left
/// stopped but the card was touched, they are restarted instead, audio first.
pub open spec fn reattach_plan(state: SystemState) -> Seq<SystemAction> {
    Seq::empty() + if_due(state.vfio_loaded, SystemAction::UnloadModule(KernelModule::VfioPci))
        + if_due(state.gpu_dettached.0, SystemAction::ReattachPci(PciDevice::Gpu)) + if_due(
        state.gpu_dettached.1,
        SystemAction::ReattachPci(PciDevice::GpuAudio),
    ) + if_due(state.nvidia_unloaded.3, SystemAction::LoadModule(KernelModule::Nvidia)) + if_due(
        state.nvidia_unloaded.2,
        SystemAction::LoadModule(KernelModule::NvidiaModeset),
    ) + if_due(state.nvidia_unloaded.1, SystemAction::LoadModule(KernelModule::NvidiaDrm)) + if_due(
        state.nvidia_unloaded.0,
        SystemAction::LoadModule(KernelModule::NvidiaUvm),
    ) + if_due(state.dp_stopped, SystemAction::StartDisplayManager) + if_due(
        state.pw_stopped,
        SystemAction::StartAudio,
    ) + if_due(state.gpu_touched() && !state.pw_stopped, SystemAction::RestartAudio) + if_due(
        state.gpu_touched() && !state.dp_stopped,
        SystemAction::RestartDisplayManager,
    )
}

/// Adds `action` to `plan` if it is due.
pub(crate) fn push_due(plan: &mut Vec<SystemAction>, due: bool, action: SystemAction)
    ensures
        final(plan)@ == old(plan)@ + if_due(due, action),
{
    reveal(if_due);
    if due {
        plan.push(action);
        assert(plan@ =~= old(plan)@ + seq![action]);
    } else {
        assert(plan@ =~= old(plan)@ + Seq::<SystemAction>::empty());
    }
}

/// Reconnects the graphics card: the actions that the ledger asks for, in the
/// order in which they are to be carried out. Nothing is assumed of how far
/// the detach came; only the flags count.
pub fn rc_gpu(state: &SystemState) -> (plan: Vec<SystemAction>)
    ensures
        plan@ == reattach_plan(*state),
{
    let touched = state.vfio_loaded || state.gpu_dettached.0 || state.gpu_dettached.1
        || state.nvidia_unloaded.0 || state.nvidia_unloaded.1 || state.nvidia_unloaded.2
        || state.nvidia_unloaded.3;
    let mut plan: Vec<SystemAction> = Vec::new();
    assert(plan@ =~= Seq::<SystemAction>::empty());
    push_due(&mut plan, state.vfio_loaded, SystemAction::UnloadModule(KernelModule::VfioPci));
    push_due(&mut plan, state.gpu_dettached.0, SystemAction::ReattachPci(PciDevice::Gpu));
    push_due(&mut plan, state.gpu_dettached.1, SystemAction::ReattachPci(PciDevice::GpuAudio));
    push_due(&mut plan, state.nvidia_unloaded.3, SystemAction::LoadModule(KernelModule::Nvidia));
    push_due(
        &mut plan,
        state.nvidia_unloaded.2,
        SystemAction::LoadModule(KernelModule::NvidiaModeset),
    );
    push_due(
        &mut plan,
        state.nvidia_unloaded.1,
        SystemAction::LoadModule(KernelModule::NvidiaDrm),
    );
    push_due(
        &mut plan,
        state.nvidia_unloaded.0,
        SystemAction::LoadModule(KernelModule::NvidiaUvm),
    );
    push_due(&mut plan, state.dp_stopped, SystemAction::StartDisplayManager);
    push_due(&mut plan, state.pw_stopped, SystemAction::StartAudio);
    push_due(&mut plan, touched && !state.pw_stopped, SystemAction::RestartAudio);
    push_due(&mut plan, touched && !state.dp_stopped, SystemAction::RestartDisplayManager);
    plan
}

} // verus!
