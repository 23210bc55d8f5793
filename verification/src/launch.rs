//! Bringing the machine up: the sequences of actions that prepare the host
//! and start the machine, and the run that carries a sequence out step by
//! step, entering each success in the ledger and stopping at the first
//! failure.

use crate::cleanup::lemma_reattach_plan_follows_ledger;
use crate::gpu::{
    detach_sequence, detach_steps, gpu_in_use, gpu_is_in_use, reattach_plan, Advance, AdvanceView,
    PROCESS_CHECKS,
};
use crate::launcher::{
    failure, failure_of, CpuUnit, KernelModule, LauncherError, LauncherErrorKind,
    LauncherErrorView, PciDevice, Report, ReportView, SystemAction, SystemState, VmType,
};
use crate::text::{replace_text, replaced, timestamp};
use vstd::prelude::*;

verus! {

/// The steps that prepare the host for the machine, in their order: the
/// control groups are limited to the host's processors, the frequency
/// governor is set, the virtual mouse is created, and the descriptor of the
/// machine is made from its template.
pub open spec fn setup_sequence() -> Seq<SystemAction> {
    seq![
        SystemAction::LimitCpus(CpuUnit::UserSlice),
        SystemAction::LimitCpus(CpuUnit::SystemSlice),
        SystemAction::LimitCpus(CpuUnit::Scope),
        SystemAction::SetGovernor,
        SystemAction::CreateMouse,
        SystemAction::LocateTemplate,
        SystemAction::ReadTemplate,
        SystemAction::WriteDescriptor,
    ]
}

/// The steps that start the machine.
pub open spec fn start_sequence() -> Seq<SystemAction> {
    seq![SystemAction::OpenVmLog, SystemAction::StartVm]
}

/// The step that waits for the machine to end of itself.
pub open spec fn watch_sequence() -> Seq<SystemAction> {
    seq![SystemAction::QueryVm]
}

/// All the steps of a launch, in their order: the graphics card is taken
/// from the host if the variant needs it; a user session is waited for; the
/// host is prepared; the machine is started and announced; and the machine
/// is watched until it ends.
pub open spec fn launch_sequence(vm_type: VmType) -> Seq<SystemAction> {
    (if vm_type == VmType::LookingGlass {
        detach_sequence()
    } else {
        Seq::empty()
    }) + seq![SystemAction::AwaitUser] + setup_sequence() + start_sequence()
        + seq![SystemAction::AnnounceLaunch] + watch_sequence()
}

/// The token in the template of the descriptor that stands for the output
/// device of the virtual mouse.
pub open spec fn mouse_placeholder() -> Seq<char> {
    "VIRTUAL_MOUSE_EVENT_PATH"@
}

/// A sequence of actions under way, with what the actions have yielded.
#[derive(Debug)]
pub struct Launch {
    plan: Vec<SystemAction>,
    position: usize,
    checks: u32,
    mouse_output: String,
    template_path: String,
    template: String,
}

/// A sequence of actions under way, as plain values: the steps, the number
/// of steps that succeeded, the number of process listings that showed the
/// card in use, and the path of the mouse's output device, the path of the
/// template and the text of the template as far as they are known.
pub struct LaunchView {
    pub plan: Seq<SystemAction>,
    pub position: nat,
    pub checks: nat,
    pub mouse_output: Seq<char>,
    pub template_path: Seq<char>,
    pub template: Seq<char>,
}

/// What one report does to a sequence under way.
pub struct LaunchStep {
    pub state: SystemState,
    pub progress: LaunchView,
    pub advance: AdvanceView,
}

impl View for Launch {
    type V = LaunchView;

    closed spec fn view(&self) -> LaunchView {
        LaunchView {
            plan: self.plan@,
            position: self.position as nat,
            checks: self.checks as nat,
            mouse_output: self.mouse_output@,
            template_path: self.template_path@,
            template: self.template@,
        }
    }
}

impl LaunchView {
    /// A sequence of which nothing has been done yet.
    pub open spec fn fresh(plan: Seq<SystemAction>) -> LaunchView {
        LaunchView {
            plan,
            position: 0,
            checks: 0,
            mouse_output: Seq::empty(),
            template_path: Seq::empty(),
            template: Seq::empty(),
        }
    }

    /// What holds of every sequence under way.
    pub open spec fn wf(self) -> bool {
        self.position <= self.plan.len() && self.checks < PROCESS_CHECKS
    }

    /// The action that is to be carried out next, if any is left.
    pub open spec fn current(self) -> Option<SystemAction> {
        if self.position < self.plan.len() {
            Some(self.plan[self.position as int])
        } else {
            None
        }
    }

    /// The descriptor of the machine: the template, with the path of the
    /// mouse's output device in place of the token that stands for it.
    pub open spec fn descriptor(self) -> Seq<char> {
        replaced(self.template, mouse_placeholder(), self.mouse_output)
    }

    /// Whether `report` tells that the graphics card is still in use.
    pub open spec fn busy(self, report: ReportView) -> bool {
        &&& self.current() == Some(SystemAction::CheckGpuProcesses)
        &&& report is Ran
        &&& gpu_in_use(report->output)
    }

    /// Whether `report` tells that the machine, which is being watched,
    /// still runs.
    pub open spec fn running(self, report: ReportView) -> bool {
        &&& self.current() == Some(SystemAction::QueryVm)
        &&& report matches ReportView::Ran { success, .. } && success
    }

    /// The error that `report` on the current action amounts to, if any. An
    /// error about the template names the file that was to be read.
    pub open spec fn failed(self, report: ReportView) -> Option<LauncherErrorView>
        recommends
            self.current() is Some,
    {
        let action = self.plan[self.position as int];
        match failure(action, report) {
            Some(error) => if action == SystemAction::ReadTemplate {
                Some(LauncherErrorView { subject: self.template_path, ..error })
            } else {
                Some(error)
            },
            None => None,
        }
    }

    /// The sequence once `report` has told of the success of the current
    /// action: the action is behind, and the text that it gave is kept where
    /// a later action needs it.
    pub open spec fn advanced(self, report: ReportView) -> LaunchView
        recommends
            self.current() is Some,
    {
        let yielded = match report {
            ReportView::Gave(text) => text,
            _ => Seq::empty(),
        };
        let action = self.plan[self.position as int];
        LaunchView {
            position: self.position + 1,
            mouse_output: if action == SystemAction::CreateMouse {
                yielded
            } else {
                self.mouse_output
            },
            template_path: if action == SystemAction::LocateTemplate {
                yielded
            } else {
                self.template_path
            },
            template: if action == SystemAction::ReadTemplate {
                yielded
            } else {
                self.template
            },
            ..self
        }
    }

    /// What follows from `report` on the current action.
    ///
    /// A listing that shows the card in use asks for another listing after a
    /// pause, until the listings allowed are used up; then the sequence is
    /// given up. A machine that is watched and still runs is asked after
    /// again. A report that amounts to an error gives the sequence up with
    /// that error. In all these cases the ledger stays as it is. Any other
    /// report enters the action in the ledger and moves on; that a watched
    /// machine has ended takes it out of the ledger. Where no action is left,
    /// a report changes nothing.
    pub open spec fn step(self, state: SystemState, report: ReportView) -> LaunchStep
        recommends
            self.wf(),
    {
        let action = self.plan[self.position as int];
        if self.current() is None {
            LaunchStep { state, progress: self, advance: AdvanceView::Finished }
        } else if self.busy(report) {
            if self.checks + 1 >= PROCESS_CHECKS {
                LaunchStep {
                    state,
                    progress: self,
                    advance: AdvanceView::Aborted(
                        LauncherErrorView {
                            kind: LauncherErrorKind::ProcessesDidNotExit,
                            subject: Seq::empty(),
                            detail: Seq::empty(),
                        },
                    ),
                }
            } else {
                LaunchStep {
                    state,
                    progress: LaunchView { checks: self.checks + 1, ..self },
                    advance: AdvanceView::Retry(action),
                }
            }
        } else if self.running(report) {
            LaunchStep { state, progress: self, advance: AdvanceView::Retry(action) }
        } else {
            match self.failed(report) {
                Some(error) => LaunchStep {
                    state,
                    progress: self,
                    advance: AdvanceView::Aborted(error),
                },
                None => {
                    let progress = self.advanced(report);
                    LaunchStep {
                        state: if action == SystemAction::QueryVm {
                            SystemState { vm_launched: false, ..state }
                        } else {
                            state.after(action)
                        },
                        progress,
                        advance: match progress.current() {
                            Some(next) => AdvanceView::Do(next),
                            None => AdvanceView::Finished,
                        },
                    }
                },
            }
        }
    }
}

impl Launch {
    /// A run of `plan` of which nothing has been done yet.
    pub fn of(plan: Vec<SystemAction>) -> (run: Self)
        ensures
            run@ == LaunchView::fresh(plan@),
            run@.wf(),
    {
        Launch {
            plan,
            position: 0,
            checks: 0,
            mouse_output: String::new(),
            template_path: String::new(),
            template: String::new(),
        }
    }

    /// The action that is to be carried out next, if any is left.
    pub fn next_action(&self) -> (action: Option<SystemAction>)
        requires
            self@.wf(),
        ensures
            action == self@.current(),
    {
        if self.position < self.plan.len() {
            Some(self.plan[self.position])
        } else {
            None
        }
    }

    /// How many steps have succeeded.
    pub fn steps_done(&self) -> (done: usize)
        ensures
            done == self@.position,
    {
        self.position
    }

    /// The path of the output device of the virtual mouse, once the mouse
    /// has been created.
    pub fn mouse_output(&self) -> (path: &String)
        ensures
            path@ == self@.mouse_output,
    {
        &self.mouse_output
    }

    /// The path of the template, once it has been looked up.
    pub fn template_path(&self) -> (path: &String)
        ensures
            path@ == self@.template_path,
    {
        &self.template_path
    }

    /// The descriptor of the machine, to be written once the template has
    /// been read and the mouse created.
    pub fn descriptor(&self) -> (text: String)
        ensures
            text@ == self@.descriptor(),
    {
        replace_text(
            self.template.as_str(),
            "VIRTUAL_MOUSE_EVENT_PATH",
            self.mouse_output.as_str(),
        )
    }

    /// Takes the report on the action that was due, enters a success in the
    /// ledger, and says what is to be done next. Once the answer is
    /// `Finished` or `Aborted` nothing more is due.
    pub fn record(&mut self, state: &mut SystemState, report: &Report) -> (advance: Advance)
        requires
            old(self)@.wf(),
        ensures
            *final(state) == old(self)@.step(*old(state), report@).state,
            final(self)@ == old(self)@.step(*old(state), report@).progress,
            advance@ == old(self)@.step(*old(state), report@).advance,
            final(self)@.wf(),
    {
        let length = self.plan.len();
        if self.position >= length {
            return Advance::Finished;
        }
        let action = self.plan[self.position];
        let busy = match (action, report) {
            (SystemAction::CheckGpuProcesses, Report::Ran { success, output }) => gpu_is_in_use(
                output.as_slice(),
            ),
            _ => false,
        };
        if busy {
            if self.checks + 1 >= PROCESS_CHECKS {
                return Advance::Aborted(
                    LauncherError {
                        kind: LauncherErrorKind::ProcessesDidNotExit,
                        subject: String::new(),
                        detail: String::new(),
                    },
                );
            }
            self.checks = self.checks + 1;
            return Advance::Retry(action);
        }
        let running = match (action, report) {
            (SystemAction::QueryVm, Report::Ran { success, output }) => *success,
            _ => false,
        };
        if running {
            return Advance::Retry(action);
        }
        match failure_of(action, report) {
            Some(error) => {
                match action {
                    SystemAction::ReadTemplate => Advance::Aborted(
                        LauncherError {
                            kind: error.kind,
                            subject: self.template_path.clone(),
                            detail: error.detail,
                        },
                    ),
                    _ => Advance::Aborted(error),
                }
            },
            None => {
                let yielded = match report {
                    Report::Gave(text) => text.clone(),
                    _ => String::new(),
                };
                match action {
                    SystemAction::CreateMouse => {
                        self.mouse_output = yielded;
                    },
                    SystemAction::LocateTemplate => {
                        self.template_path = yielded;
                    },
                    SystemAction::ReadTemplate => {
                        self.template = yielded;
                    },
                    _ => {},
                }
                match action {
                    SystemAction::QueryVm => {
                        state.vm_launched = false;
                    },
                    _ => {
                        state.record(action);
                    },
                }
                self.position = self.position + 1;
                if self.position < length {
                    Advance::Do(self.plan[self.position])
                } else {
                    Advance::Finished
                }
            },
        }
    }
}

/// Whichever step of a run fails, the run stops there with the error of
/// that step: the ledger and the progress stay as they were, so that no
/// later step is asked for and the flag of the failed step is not set.
pub proof fn lemma_failed_step_stops_the_run(
    run: LaunchView,
    state: SystemState,
    reason: Seq<char>,
)
    requires
        run.current() is Some,
    ensures
        run.step(state, ReportView::Failed(reason)).advance is Aborted,
        run.step(state, ReportView::Failed(reason)).state == state,
        run.step(state, ReportView::Failed(reason)).progress == run,
        run.step(state, ReportView::Failed(reason)).advance->Aborted_0.detail == reason,
{
}

/// The ledger of a host that was untouched before the first `done` steps of
/// the detach succeeded.
pub open spec fn detached_to(done: nat) -> SystemState {
    SystemState {
        dp_stopped: 1 <= done <= 11,
        pw_stopped: 2 <= done <= 10,
        nvidia_unloaded: (done >= 4, done >= 5, done >= 6, done >= 7),
        gpu_dettached: (done >= 8, done >= 9),
        vfio_loaded: done >= 10,
        ..SystemState::untouched()
    }
}

/// A detach enters each step in the ledger when the step has succeeded and
/// not before: as long as a run of the detach on a host that was untouched
/// goes on, its ledger shows exactly the steps that are behind, whatever the
/// reports are, and a run that is given up leaves the ledger at that.
pub proof fn lemma_detach_keeps_ledger(run: LaunchView, report: ReportView)
    requires
        run.plan == detach_sequence(),
        run.wf(),
    ensures
        detached_to(0) == SystemState::untouched(),
        run.step(detached_to(run.position), report).state == detached_to(
            run.step(detached_to(run.position), report).progress.position,
        ),
        run.step(detached_to(run.position), report).advance is Aborted ==> run.step(
            detached_to(run.position),
            report,
        ).progress == run,
{
    let k = run.position;
    if k < 12 {
        assert(detached_to(k).after(detach_sequence()[k as int]) == detached_to(k + 1));
    }
}

/// The way back after a detach touches a module or a device exactly if the
/// detach got past it: what was not unloaded is not loaded, and what was not
/// detached is not handed back.
pub proof fn lemma_reattach_undoes_what_was_done(done: nat)
    requires
        done <= 12,
    ensures
        reattach_plan(detached_to(done)).contains(SystemAction::LoadModule(KernelModule::NvidiaUvm))
            <==> done >= 4,
        reattach_plan(detached_to(done)).contains(SystemAction::LoadModule(KernelModule::NvidiaDrm))
            <==> done >= 5,
        reattach_plan(detached_to(done)).contains(
            SystemAction::LoadModule(KernelModule::NvidiaModeset),
        ) <==> done >= 6,
        reattach_plan(detached_to(done)).contains(SystemAction::LoadModule(KernelModule::Nvidia))
            <==> done >= 7,
        reattach_plan(detached_to(done)).contains(SystemAction::ReattachPci(PciDevice::Gpu))
            <==> done >= 8,
        reattach_plan(detached_to(done)).contains(SystemAction::ReattachPci(PciDevice::GpuAudio))
            <==> done >= 9,
        reattach_plan(detached_to(done)).contains(SystemAction::UnloadModule(KernelModule::VfioPci))
            <==> done >= 10,
{
    let state = detached_to(done);
    lemma_reattach_plan_follows_ledger(state, SystemAction::LoadModule(KernelModule::NvidiaUvm));
    lemma_reattach_plan_follows_ledger(state, SystemAction::LoadModule(KernelModule::NvidiaDrm));
    lemma_reattach_plan_follows_ledger(
        state,
        SystemAction::LoadModule(KernelModule::NvidiaModeset),
    );
    lemma_reattach_plan_follows_ledger(state, SystemAction::LoadModule(KernelModule::Nvidia));
    lemma_reattach_plan_follows_ledger(state, SystemAction::ReattachPci(PciDevice::Gpu));
    lemma_reattach_plan_follows_ledger(state, SystemAction::ReattachPci(PciDevice::GpuAudio));
    lemma_reattach_plan_follows_ledger(state, SystemAction::UnloadModule(KernelModule::VfioPci));
}

/// Adds the steps of `steps` to `plan`.
fn extend(plan: &mut Vec<SystemAction>, steps: Vec<SystemAction>)
    ensures
        final(plan)@ == old(plan)@ + steps@,
{
    let mut steps = steps;
    plan.append(&mut steps);
}

/// The steps that prepare the host for the machine.
pub fn setup_steps() -> (steps: Vec<SystemAction>)
    ensures
        steps@ == setup_sequence(),
{
    let mut steps: Vec<SystemAction> = Vec::new();
    steps.push(SystemAction::LimitCpus(CpuUnit::UserSlice));
    steps.push(SystemAction::LimitCpus(CpuUnit::SystemSlice));
    steps.push(SystemAction::LimitCpus(CpuUnit::Scope));
    steps.push(SystemAction::SetGovernor);
    steps.push(SystemAction::CreateMouse);
    steps.push(SystemAction::LocateTemplate);
    steps.push(SystemAction::ReadTemplate);
    steps.push(SystemAction::WriteDescriptor);
    assert(steps@ =~= setup_sequence());
    steps
}

/// Disconnects the graphics card from the host: the run of the steps that
/// do so.
pub fn dc_gpu() -> (run: Launch)
    ensures
        run@ == LaunchView::fresh(detach_sequence()),
        run@.wf(),
{
    Launch::of(detach_steps())
}

/// Limits the processors, sets the governor, creates the virtual mouse and
/// writes the descriptor of the machine: the run of the steps that do so.
pub fn setup_pc() -> (run: Launch)
    ensures
        run@ == LaunchView::fresh(setup_sequence()),
        run@.wf(),
{
    Launch::of(setup_steps())
}

/// Starts the machine: the run of the steps that do so.
pub fn start_vm() -> (run: Launch)
    ensures
        run@ == LaunchView::fresh(start_sequence()),
        run@.wf(),
{
    let mut steps: Vec<SystemAction> = Vec::new();
    steps.push(SystemAction::OpenVmLog);
    steps.push(SystemAction::StartVm);
    assert(steps@ =~= start_sequence());
    Launch::of(steps)
}

/// Waits for the machine to end: the run of the one step that does so.
pub fn wait_on_vm() -> (run: Launch)
    ensures
        run@ == LaunchView::fresh(watch_sequence()),
        run@.wf(),
{
    let mut steps: Vec<SystemAction> = Vec::new();
    steps.push(SystemAction::QueryVm);
    assert(steps@ =~= watch_sequence());
    Launch::of(steps)
}

/// Does all that a launch of the given variant takes: the run of all its
/// steps, from the detach of the graphics card, where the variant needs it,
/// to the end of the machine.
pub fn launch_vm(vm_type: VmType) -> (run: Launch)
    ensures
        run@ == LaunchView::fresh(launch_sequence(vm_type)),
        run@.wf(),
{
    let mut steps: Vec<SystemAction> = Vec::new();
    if vm_type.dc_gpu() {
        steps = detach_steps();
    }
    assert(steps@ =~= if vm_type == VmType::LookingGlass {
        detach_sequence()
    } else {
        Seq::empty()
    });
    steps.push(SystemAction::AwaitUser);
    extend(&mut steps, setup_steps());
    steps.push(SystemAction::OpenVmLog);
    steps.push(SystemAction::StartVm);
    steps.push(SystemAction::AnnounceLaunch);
    steps.push(SystemAction::QueryVm);
    assert(steps@ =~= launch_sequence(vm_type));
    Launch::of(steps)
}

/// The steps of a launch as the single-user program takes them: the
/// graphics card is taken from the host if the variant needs it; the
/// template of the descriptor is read; a user is waited for if the machine
/// is shown through the card; the mouse is created and the descriptor
/// written; the host is tuned; and the machine is started, announced and
/// watched.
pub open spec fn master_sequence(vm_type: VmType) -> Seq<SystemAction> {
    (if vm_type == VmType::LookingGlass {
        detach_sequence()
    } else {
        Seq::empty()
    }) + seq![SystemAction::LocateTemplate, SystemAction::ReadTemplate] + (if vm_type
        == VmType::LookingGlass {
        seq![SystemAction::AwaitUser]
    } else {
        Seq::empty()
    }) + seq![
        SystemAction::CreateMouse,
        SystemAction::WriteDescriptor,
        SystemAction::LimitCpus(CpuUnit::UserSlice),
        SystemAction::LimitCpus(CpuUnit::SystemSlice),
        SystemAction::LimitCpus(CpuUnit::Scope),
        SystemAction::SetGovernor,
        SystemAction::StartVm,
        SystemAction::AnnounceLaunch,
        SystemAction::QueryVm,
    ]
}

/// Does all that the single-user program does to bring the machine up and
/// to see it end: the run of its steps.
pub fn master(vm_type: VmType) -> (run: Launch)
    ensures
        run@ == LaunchView::fresh(master_sequence(vm_type)),
        run@.wf(),
{
    let mut steps: Vec<SystemAction> = Vec::new();
    if vm_type.dc_gpu() {
        steps = detach_steps();
    }
    let ghost first = steps@;
    steps.push(SystemAction::LocateTemplate);
    steps.push(SystemAction::ReadTemplate);
    if vm_type.dc_gpu() {
        steps.push(SystemAction::AwaitUser);
    }
    steps.push(SystemAction::CreateMouse);
    steps.push(SystemAction::WriteDescriptor);
    steps.push(SystemAction::LimitCpus(CpuUnit::UserSlice));
    steps.push(SystemAction::LimitCpus(CpuUnit::SystemSlice));
    steps.push(SystemAction::LimitCpus(CpuUnit::Scope));
    steps.push(SystemAction::SetGovernor);
    steps.push(SystemAction::StartVm);
    steps.push(SystemAction::AnnounceLaunch);
    steps.push(SystemAction::QueryVm);
    assert(steps@ =~= master_sequence(vm_type));
    Launch::of(steps)
}

/// Whether the single-user program has to shut the machine down itself:
/// that is so when the last user left before the machine ended.
pub fn vm_close(users_left: bool, machine_ended: bool) -> (shut_down: bool)
    ensures
        shut_down == (users_left && !machine_ended),
{
    users_left && !machine_ended
}

/// The name of the environment variable that tells where the template of
/// the descriptor lies, for a variant of the machine.
pub fn template_variable(vm_type: VmType) -> (name: &'static str)
    ensures
        name@ == match vm_type {
            VmType::LookingGlass => "WINDOWS_LG_XML"@,
            VmType::Spice => "WINDOWS_SPICE_XML"@,
        },
{
    match vm_type {
        VmType::LookingGlass => "WINDOWS_LG_XML",
        VmType::Spice => "WINDOWS_SPICE_XML",
    }
}

/// The fixed place to which the descriptor of the machine is written.
pub fn descriptor_path() -> (path: &'static str)
    ensures
        path@ == "/tmp/windows.xml"@,
{
    "/tmp/windows.xml"
}

/// The file that takes the output of the hypervisor for a machine started
/// at the time that `stamp` tells.
pub fn vm_log_path(stamp: &str) -> (path: String)
    ensures
        path@ == "/var/log/windows/vm/log-"@ + stamp@ + ".txt"@,
{
    let mut path = String::from_str("/var/log/windows/vm/log-");
    path.append(stamp);
    path.append(".txt");
    path
}

/// The file that takes the output of the hypervisor for a machine started
/// now: the name carries the time of the call.
pub fn new_vm_log_path() -> (path: String)
    ensures
        exists|stamp: Seq<char>| path@ == "/var/log/windows/vm/log-"@ + stamp + ".txt"@,
{
    let stamp = timestamp();
    vm_log_path(stamp.as_str())
}

} // verus!
