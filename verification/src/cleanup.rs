//! Undoing what was done to the system: the plan that the ledger asks for and
//! the run that carries it out to the end, whatever fails on the way.

use crate::gpu::{if_due, push_due, rc_gpu, reattach_plan, Advance, AdvanceView};
use crate::launcher::{
    blame, error_views, failure, failure_of, CpuUnit, KernelModule, PciDevice, LauncherError, LauncherErrorView, Report,
    ReportView, SystemAction, SystemState,
};
use vstd::prelude::*;

verus! {

/// How often the hypervisor is asked, at most, whether the machine still
/// exists before the machine is ended by force.
pub const VM_STOP_CHECKS: u32 = 30;

/// The actions that undo what the ledger records, in their order: the
/// machine is shut down, waited for and, if it stays, ended by force; the
/// virtual mouse is removed; the frequency governor and the processors of
/// the control groups are given back; and the graphics card is reconnected.
pub open spec fn cleanup_plan(state: SystemState) -> Seq<SystemAction> {
    Seq::empty() + if_due(state.vm_launched, SystemAction::ShutdownVm) + if_due(
        state.vm_launched,
        SystemAction::QueryVm,
    ) + if_due(state.vm_launched, SystemAction::DestroyVm) + if_due(
        state.virtual_mouse_create,
        SystemAction::DestroyMouse,
    ) + if_due(state.performance_governor, SystemAction::RestoreGovernor) + if_due(
        state.cpus_limited.0,
        SystemAction::RestoreCpus(CpuUnit::UserSlice),
    ) + if_due(state.cpus_limited.1, SystemAction::RestoreCpus(CpuUnit::SystemSlice)) + if_due(
        state.cpus_limited.2,
        SystemAction::RestoreCpus(CpuUnit::Scope),
    ) + reattach_plan(state)
}

/// A cleanup under way: the plan, how far it has come, and the errors met.
#[derive(Debug)]
pub struct Cleanup {
    plan: Vec<SystemAction>,
    position: usize,
    checks: u32,
    errors: Vec<LauncherError>,
}

/// A cleanup under way, as plain values: the plan, the number of its actions
/// that are behind, the number of times the machine was found still to
/// exist, and the errors met so far.
pub struct CleanupView {
    pub plan: Seq<SystemAction>,
    pub position: nat,
    pub checks: nat,
    pub errors: Seq<LauncherErrorView>,
}

impl View for Cleanup {
    type V = CleanupView;

    closed spec fn view(&self) -> CleanupView {
        CleanupView {
            plan: self.plan@,
            position: self.position as nat,
            checks: self.checks as nat,
            errors: error_views(self.errors@),
        }
    }
}

impl CleanupView {
    /// What holds of every cleanup under way.
    pub open spec fn wf(self) -> bool {
        self.position <= self.plan.len() && self.checks < VM_STOP_CHECKS
    }

    /// The action that is to be carried out next, if any is left.
    pub open spec fn current(self) -> Option<SystemAction> {
        if self.position < self.plan.len() {
            Some(self.plan[self.position as int])
        } else {
            None
        }
    }

    /// Whether `report` on the current action asks for the same action once
    /// more: the machine was found still to exist and may be asked after
    /// again.
    pub open spec fn retries(self, report: ReportView) -> bool {
        &&& self.current() == Some(SystemAction::QueryVm)
        &&& report matches ReportView::Ran { success, .. } && success
        &&& self.checks + 1 < VM_STOP_CHECKS
    }

    /// Whether `report` on the current action makes the action behind it
    /// needless: the machine was found to be gone, so it need not be ended by
    /// force.
    pub open spec fn skips(self, report: ReportView) -> bool {
        &&& self.current() == Some(SystemAction::QueryVm)
        &&& report matches ReportView::Ran { success, .. } && !success
        &&& self.position + 1 < self.plan.len()
        &&& self.plan[self.position as int + 1] == SystemAction::DestroyVm
    }

    /// The cleanup after `report` on the current action: an error, if the
    /// report amounts to one, joins the errors, and the run moves on all the
    /// same, unless the action is to be tried again. Where no action is
    /// left, a report changes nothing.
    pub open spec fn record(self, report: ReportView) -> CleanupView {
        let errors = match failure(self.plan[self.position as int], report) {
            Some(error) => self.errors.push(error),
            None => self.errors,
        };
        if self.current() is None {
            self
        } else if self.retries(report) {
            CleanupView { checks: self.checks + 1, errors, ..self }
        } else if self.skips(report) {
            CleanupView { position: self.position + 2, errors, ..self }
        } else {
            CleanupView { position: self.position + 1, errors, ..self }
        }
    }

    /// What is wanted after `report` on the current action.
    pub open spec fn answer(self, report: ReportView) -> AdvanceView {
        if self.retries(report) {
            AdvanceView::Retry(SystemAction::QueryVm)
        } else {
            match self.record(report).current() {
                Some(next) => AdvanceView::Do(next),
                None => AdvanceView::Finished,
            }
        }
    }

    /// The cleanup after the reports of `reports`, each taken as the report
    /// on the action that is current when its turn comes. Reports that come
    /// after the end of the plan are passed over.
    pub open spec fn run(self, reports: Seq<ReportView>) -> CleanupView
        decreases reports.len(),
    {
        if reports.len() == 0 || self.current() is None {
            self
        } else {
            self.record(reports[0]).run(reports.drop_first())
        }
    }

    /// The actions that are attempted while the reports of `reports` come in,
    /// one for each report, in the order of the attempts.
    pub open spec fn attempts(self, reports: Seq<ReportView>) -> Seq<SystemAction>
        decreases reports.len(),
    {
        if reports.len() == 0 || self.current() is None {
            Seq::empty()
        } else {
            seq![self.plan[self.position as int]] + self.record(reports[0]).attempts(
                reports.drop_first(),
            )
        }
    }

    /// How many of the reports of `reports` amount to an error of the action
    /// that they report on.
    pub open spec fn failures(self, reports: Seq<ReportView>) -> nat
        decreases reports.len(),
    {
        if reports.len() == 0 || self.current() is None {
            0
        } else {
            (if failure(self.plan[self.position as int], reports[0]) is Some {
                1nat
            } else {
                0nat
            }) + self.record(reports[0]).failures(reports.drop_first())
        }
    }
}

/// The condition under which the ledger asks for `action` when the system
/// is restored.
pub open spec fn asked_for(state: SystemState, action: SystemAction) -> bool {
    match action {
        SystemAction::ShutdownVm | SystemAction::QueryVm | SystemAction::DestroyVm => state.vm_launched,
        SystemAction::DestroyMouse => state.virtual_mouse_create,
        SystemAction::RestoreGovernor => state.performance_governor,
        SystemAction::RestoreCpus(CpuUnit::UserSlice) => state.cpus_limited.0,
        SystemAction::RestoreCpus(CpuUnit::SystemSlice) => state.cpus_limited.1,
        SystemAction::RestoreCpus(CpuUnit::Scope) => state.cpus_limited.2,
        SystemAction::UnloadModule(KernelModule::VfioPci) => state.vfio_loaded,
        SystemAction::ReattachPci(PciDevice::Gpu) => state.gpu_dettached.0,
        SystemAction::ReattachPci(PciDevice::GpuAudio) => state.gpu_dettached.1,
        SystemAction::LoadModule(KernelModule::Nvidia) => state.nvidia_unloaded.3,
        SystemAction::LoadModule(KernelModule::NvidiaModeset) => state.nvidia_unloaded.2,
        SystemAction::LoadModule(KernelModule::NvidiaDrm) => state.nvidia_unloaded.1,
        SystemAction::LoadModule(KernelModule::NvidiaUvm) => state.nvidia_unloaded.0,
        SystemAction::StartDisplayManager => state.dp_stopped,
        SystemAction::StartAudio => state.pw_stopped,
        SystemAction::RestartAudio => state.gpu_touched() && !state.pw_stopped,
        SystemAction::RestartDisplayManager => state.gpu_touched() && !state.dp_stopped,
        _ => false,
    }
}

/// Whether the ledger asks for `action` when the graphics card is
/// reconnected.
pub open spec fn reattach_asked_for(state: SystemState, action: SystemAction) -> bool {
    asked_for(state, action) && !(action matches SystemAction::ShutdownVm
        || action matches SystemAction::QueryVm || action matches SystemAction::DestroyVm
        || action matches SystemAction::DestroyMouse
        || action matches SystemAction::RestoreGovernor
        || action matches SystemAction::RestoreCpus(_))
}

proof fn lemma_contains_if_due(
    plan: Seq<SystemAction>,
    due: bool,
    action: SystemAction,
    sought: SystemAction,
)
    ensures
        (plan + if_due(due, action)).contains(sought) <==> plan.contains(sought) || (due && action
            == sought),
{
    reveal(if_due);
    let longer = plan + if_due(due, action);
    if plan.contains(sought) {
        let i = choose|i: int| 0 <= i < plan.len() && plan[i] == sought;
        assert(longer[i] == sought);
    }
    if due && action == sought {
        assert(longer[plan.len() as int] == sought);
    }
    if longer.contains(sought) {
        let i = choose|i: int| 0 <= i < longer.len() && longer[i] == sought;
        if i < plan.len() {
            assert(plan[i] == sought);
        }
    }
}

/// The plan that reconnects the graphics card holds exactly the actions
/// that the ledger asks for.
pub proof fn lemma_reattach_plan_follows_ledger(state: SystemState, action: SystemAction)
    ensures
        reattach_plan(state).contains(action) <==> reattach_asked_for(state, action),
{
    let part0 = Seq::<SystemAction>::empty();
    let part1 = part0 + if_due(state.vfio_loaded, SystemAction::UnloadModule(KernelModule::VfioPci));
    let part2 = part1 + if_due(state.gpu_dettached.0, SystemAction::ReattachPci(PciDevice::Gpu));
    let part3 = part2 + if_due(state.gpu_dettached.1, SystemAction::ReattachPci(PciDevice::GpuAudio));
    let part4 = part3 + if_due(state.nvidia_unloaded.3, SystemAction::LoadModule(KernelModule::Nvidia));
    let part5 = part4 + if_due(
        state.nvidia_unloaded.2,
        SystemAction::LoadModule(KernelModule::NvidiaModeset),
    );
    let part6 = part5 + if_due(
        state.nvidia_unloaded.1,
        SystemAction::LoadModule(KernelModule::NvidiaDrm),
    );
    let part7 = part6 + if_due(
        state.nvidia_unloaded.0,
        SystemAction::LoadModule(KernelModule::NvidiaUvm),
    );
    let part8 = part7 + if_due(state.dp_stopped, SystemAction::StartDisplayManager);
    let part9 = part8 + if_due(state.pw_stopped, SystemAction::StartAudio);
    let part10 = part9 + if_due(state.gpu_touched() && !state.pw_stopped, SystemAction::RestartAudio);
    let part11 = part10 + if_due(
        state.gpu_touched() && !state.dp_stopped,
        SystemAction::RestartDisplayManager,
    );
    assert(!part0.contains(action));
    lemma_contains_if_due(
        part0,
        state.vfio_loaded,
        SystemAction::UnloadModule(KernelModule::VfioPci),
        action,
    );
    lemma_contains_if_due(
        part1,
        state.gpu_dettached.0,
        SystemAction::ReattachPci(PciDevice::Gpu),
        action,
    );
    lemma_contains_if_due(
        part2,
        state.gpu_dettached.1,
        SystemAction::ReattachPci(PciDevice::GpuAudio),
        action,
    );
    lemma_contains_if_due(
        part3,
        state.nvidia_unloaded.3,
        SystemAction::LoadModule(KernelModule::Nvidia),
        action,
    );
    lemma_contains_if_due(
        part4,
        state.nvidia_unloaded.2,
        SystemAction::LoadModule(KernelModule::NvidiaModeset),
        action,
    );
    lemma_contains_if_due(
        part5,
        state.nvidia_unloaded.1,
        SystemAction::LoadModule(KernelModule::NvidiaDrm),
        action,
    );
    lemma_contains_if_due(
        part6,
        state.nvidia_unloaded.0,
        SystemAction::LoadModule(KernelModule::NvidiaUvm),
        action,
    );
    lemma_contains_if_due(part7, state.dp_stopped, SystemAction::StartDisplayManager, action);
    lemma_contains_if_due(part8, state.pw_stopped, SystemAction::StartAudio, action);
    lemma_contains_if_due(
        part9,
        state.gpu_touched() && !state.pw_stopped,
        SystemAction::RestartAudio,
        action,
    );
    lemma_contains_if_due(
        part10,
        state.gpu_touched() && !state.dp_stopped,
        SystemAction::RestartDisplayManager,
        action,
    );
    assert(part11 == reattach_plan(state));
}

/// The plan of a cleanup holds a reversal for every flag that is set in the
/// ledger, and no action that the ledger does not ask for.
pub proof fn lemma_cleanup_plan_follows_ledger(state: SystemState, action: SystemAction)
    ensures
        cleanup_plan(state).contains(action) <==> asked_for(state, action),
{
    let part0 = Seq::<SystemAction>::empty();
    let part1 = part0 + if_due(state.vm_launched, SystemAction::ShutdownVm);
    let part2 = part1 + if_due(state.vm_launched, SystemAction::QueryVm);
    let part3 = part2 + if_due(state.vm_launched, SystemAction::DestroyVm);
    let part4 = part3 + if_due(state.virtual_mouse_create, SystemAction::DestroyMouse);
    let part5 = part4 + if_due(state.performance_governor, SystemAction::RestoreGovernor);
    let part6 = part5 + if_due(state.cpus_limited.0, SystemAction::RestoreCpus(CpuUnit::UserSlice));
    let part7 = part6 + if_due(state.cpus_limited.1, SystemAction::RestoreCpus(CpuUnit::SystemSlice));
    let part8 = part7 + if_due(state.cpus_limited.2, SystemAction::RestoreCpus(CpuUnit::Scope));
    assert(!part0.contains(action));
    lemma_contains_if_due(part0, state.vm_launched, SystemAction::ShutdownVm, action);
    lemma_contains_if_due(part1, state.vm_launched, SystemAction::QueryVm, action);
    lemma_contains_if_due(part2, state.vm_launched, SystemAction::DestroyVm, action);
    lemma_contains_if_due(part3, state.virtual_mouse_create, SystemAction::DestroyMouse, action);
    lemma_contains_if_due(part4, state.performance_governor, SystemAction::RestoreGovernor, action);
    lemma_contains_if_due(
        part5,
        state.cpus_limited.0,
        SystemAction::RestoreCpus(CpuUnit::UserSlice),
        action,
    );
    lemma_contains_if_due(
        part6,
        state.cpus_limited.1,
        SystemAction::RestoreCpus(CpuUnit::SystemSlice),
        action,
    );
    lemma_contains_if_due(
        part7,
        state.cpus_limited.2,
        SystemAction::RestoreCpus(CpuUnit::Scope),
        action,
    );
    lemma_reattach_plan_follows_ledger(state, action);
    let tail = reattach_plan(state);
    let whole = part8 + tail;
    assert(whole == cleanup_plan(state));
    assert(whole.contains(action) <==> part8.contains(action) || tail.contains(action)) by {
        if part8.contains(action) {
            let i = choose|i: int| 0 <= i < part8.len() && part8[i] == action;
            assert(whole[i] == action);
        }
        if tail.contains(action) {
            let i = choose|i: int| 0 <= i < tail.len() && tail[i] == action;
            assert(whole[part8.len() + i] == action);
        }
        if whole.contains(action) {
            let i = choose|i: int| 0 <= i < whole.len() && whole[i] == action;
            if i < part8.len() {
                assert(part8[i] == action);
            } else {
                assert(tail[i - part8.len()] == action);
            }
        }
    }
}

/// However the reports fall, a cleanup collects one error for each report
/// that amounts to a failure, wherever in the run it comes, and no other.
pub proof fn lemma_one_error_for_each_failure(run: CleanupView, reports: Seq<ReportView>)
    ensures
        run.run(reports).errors.len() == run.errors.len() + run.failures(reports),
        run.run(reports).plan == run.plan,
    decreases reports.len(),
{
    if reports.len() == 0 || run.current() is None {
    } else {
        lemma_one_error_for_each_failure(run.record(reports[0]), reports.drop_first());
    }
}

/// Every reversal that is reported as failed leaves its error, whichever
/// reversal it is, and the cleanup goes on to the next one.
pub proof fn lemma_failed_reversal_is_an_error(run: CleanupView, reason: Seq<char>)
    requires
        run.current() is Some,
    ensures
        run.record(ReportView::Failed(reason)).errors == run.errors.push(
            blame(run.plan[run.position as int], reason),
        ),
        run.record(ReportView::Failed(reason)).position == run.position + 1,
        run.failures(seq![ReportView::Failed(reason)]) == 1,
{
    let reports = seq![ReportView::Failed(reason)];
    assert(reports.drop_first() =~= Seq::<ReportView>::empty());
    assert(run.record(reports[0]).failures(reports.drop_first()) == 0);
}

/// A cleanup that has reached its end has attempted every action of its
/// plan that was still ahead, whatever was reported on the way. The one
/// exception is the forced end of a machine that was found to be gone.
pub proof fn lemma_finished_run_attempted_all(
    run: CleanupView,
    reports: Seq<ReportView>,
    ahead: int,
)
    requires
        run.position <= ahead < run.plan.len(),
        run.plan[ahead] != SystemAction::DestroyVm,
        run.run(reports).current() is None,
    ensures
        run.attempts(reports).contains(run.plan[ahead]),
    decreases reports.len(),
{
    if reports.len() == 0 {
    } else {
        let next = run.record(reports[0]);
        let rest = reports.drop_first();
        let attempts = run.attempts(reports);
        assert(attempts == seq![run.plan[run.position as int]] + next.attempts(rest));
        if ahead == run.position {
            assert(attempts[0] == run.plan[ahead]);
        } else {
            lemma_finished_run_attempted_all(next, rest, ahead);
            let i = choose|i: int|
                0 <= i < next.attempts(rest).len() && next.attempts(rest)[i] == run.plan[ahead];
            assert(attempts[i + 1] == run.plan[ahead]);
        }
    }
}

impl Cleanup {
    /// The action that is to be carried out next, if any is left.
    pub fn next_action(&self) -> (action: Option<SystemAction>)
        requires
            self@.wf(),
        ensures
            action == self@.current(),
    {
        if self.position < self.plan.len() {
            Some(self.plan[self.position])
        } else {
            None
        }
    }

    /// Takes the report on the action that was due and says what is to be
    /// done next. A failure is kept for the end and does not stop the run.
    pub fn record(&mut self, report: &Report) -> (advance: Advance)
        requires
            old(self)@.wf(),
        ensures
            final(self)@ == old(self)@.record(report@),
            final(self)@.wf(),
            advance@ == old(self)@.answer(report@),
    {
        if self.position >= self.plan.len() {
            return Advance::Finished;
        }
        let action = self.plan[self.position];
        match failure_of(action, report) {
            Some(error) => {
                self.errors.push(error);
                assert(error_views(self.errors@) =~= error_views(old(self).errors@).push(error@));
            },
            None => {},
        }
        let (ran, success) = match report {
            Report::Ran { success, output } => (true, *success),
            _ => (false, false),
        };
        let querying = match action {
            SystemAction::QueryVm => true,
            _ => false,
        };
        if querying && ran && success && self.checks + 1 < VM_STOP_CHECKS {
            self.checks = self.checks + 1;
            return Advance::Retry(SystemAction::QueryVm);
        }
        let length = self.plan.len();
        let destroy_follows = self.position + 1 < length && match self.plan[self.position + 1] {
            SystemAction::DestroyVm => true,
            _ => false,
        };
        if querying && ran && !success && destroy_follows {
            self.position = self.position + 2;
        } else {
            self.position = self.position + 1;
        }
        if self.position < self.plan.len() {
            Advance::Do(self.plan[self.position])
        } else {
            Advance::Finished
        }
    }

    /// Ends a cleanup and hands over the errors met, in the order in which
    /// they came up. If the cleanup has tried every action, nothing is left
    /// to undo and the ledger is cleared; if it is ended before that, the
    /// ledger stays as it is, so that a new cleanup finds what is left.
    pub fn finish(self, state: &mut SystemState) -> (errors: Vec<LauncherError>)
        requires
            self@.wf(),
        ensures
            error_views(errors@) == self@.errors,
            errors@.len() == self@.errors.len(),
            *final(state) == if self@.current() is None {
                SystemState::untouched()
            } else {
                *old(state)
            },
    {
        if self.position >= self.plan.len() {
            state.revert();
        }
        self.errors
    }
}

/// Starts the cleanup of what the ledger records. The run asks for every
/// action of the plan in turn and goes on past failures; it ends with
/// [`Cleanup::finish`].
pub fn cleanup(state: &SystemState) -> (run: Cleanup)
    ensures
        run@.plan == cleanup_plan(*state),
        run@.position == 0,
        run@.checks == 0,
        run@.errors == Seq::<LauncherErrorView>::empty(),
        run@.wf(),
{
    let mut plan: Vec<SystemAction> = Vec::new();
    assert(plan@ =~= Seq::<SystemAction>::empty());
    push_due(&mut plan, state.vm_launched, SystemAction::ShutdownVm);
    push_due(&mut plan, state.vm_launched, SystemAction::QueryVm);
    push_due(&mut plan, state.vm_launched, SystemAction::DestroyVm);
    push_due(&mut plan, state.virtual_mouse_create, SystemAction::DestroyMouse);
    push_due(&mut plan, state.performance_governor, SystemAction::RestoreGovernor);
    push_due(&mut plan, state.cpus_limited.0, SystemAction::RestoreCpus(CpuUnit::UserSlice));
    push_due(&mut plan, state.cpus_limited.1, SystemAction::RestoreCpus(CpuUnit::SystemSlice));
    push_due(&mut plan, state.cpus_limited.2, SystemAction::RestoreCpus(CpuUnit::Scope));
    let mut reattach = rc_gpu(state);
    plan.append(&mut reattach);
    let errors: Vec<LauncherError> = Vec::new();
    assert(error_views(errors@) =~= Seq::<LauncherErrorView>::empty());
    Cleanup { plan, position: 0, checks: 0, errors }
}

} // verus!
