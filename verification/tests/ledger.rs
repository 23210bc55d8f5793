use windows_launcher::cleanup::cleanup;
use windows_launcher::commands::{
    audio_arguments, audio_sockets, audio_verb, command_for, unit_method,
};
use windows_launcher::gpu::{detach_steps, gpu_is_in_use, rc_gpu, Advance};
use windows_launcher::launch::{
    dc_gpu, descriptor_path, launch_vm, master, setup_pc, setup_steps, start_vm,
    template_variable, vm_close, vm_log_path, wait_on_vm, Launch,
};
use windows_launcher::launcher::{
    failure_of, removal_was_refused, CpuUnit, KernelModule, LauncherError, LauncherErrorKind,
    PciDevice, Report, SystemAction, SystemState, VmType,
};

fn ok() -> Report {
    Report::done()
}

fn ran(success: bool, output: &str) -> Report {
    Report::Ran { success, output: output.as_bytes().to_vec() }
}

fn gave(text: &str) -> Report {
    Report::Gave(String::from(text))
}

fn failed(reason: &str) -> Report {
    Report::Failed(String::from(reason))
}

fn error(kind: LauncherErrorKind, subject: &str, detail: &str) -> LauncherError {
    LauncherError { kind, subject: String::from(subject), detail: String::from(detail) }
}

/// Drives a run with one report for each action asked for, and gives the
/// actions in the order in which they were asked for, with the last answer.
fn drive(run: &mut Launch, state: &mut SystemState, reports: Vec<Report>) -> (Vec<SystemAction>, Advance) {
    let mut asked = Vec::new();
    let mut last = Advance::Finished;
    for report in reports {
        let action = run.next_action().expect("an action is due");
        asked.push(action);
        last = run.record(state, &report);
        match &last {
            Advance::Do(next) => assert_eq!(run.next_action(), Some(*next)),
            Advance::Retry(again) => assert_eq!(run.next_action(), Some(*again)),
            Advance::Finished => assert_eq!(run.next_action(), None),
            Advance::Aborted(_) => return (asked, last),
        }
    }
    (asked, last)
}

#[test]
fn new_ledger_is_untouched() {
    let state = SystemState::new();
    assert_eq!(state, SystemState::default());
    assert!(!state.vm_launched && !state.dp_stopped && !state.pw_stopped && !state.vfio_loaded);
    assert_eq!(state.cpus_limited, (false, false, false));
    assert_eq!(state.nvidia_unloaded, (false, false, false, false));
    assert_eq!(state.gpu_dettached, (false, false));
    assert!(rc_gpu(&state).is_empty());
    assert_eq!(cleanup(&state).next_action(), None);
}

#[test]
fn revert_clears_every_flag() {
    let mut state = SystemState {
        cpus_limited: (true, true, true),
        performance_governor: true,
        virtual_mouse_create: true,
        vm_launched: true,
        dp_stopped: true,
        pw_stopped: true,
        nvidia_unloaded: (true, true, true, true),
        gpu_dettached: (true, true),
        vfio_loaded: true,
    };
    state.revert();
    assert_eq!(state, SystemState::new());
}

#[test]
fn record_sets_the_flag_of_the_action() {
    let mut state = SystemState::new();
    state.record(SystemAction::UnloadModule(KernelModule::NvidiaDrm));
    assert_eq!(state.nvidia_unloaded, (false, true, false, false));
    state.record(SystemAction::DetachPci(PciDevice::GpuAudio));
    assert_eq!(state.gpu_dettached, (false, true));
    state.record(SystemAction::LimitCpus(CpuUnit::SystemSlice));
    assert_eq!(state.cpus_limited, (false, true, false));
    state.record(SystemAction::StopAudio);
    assert!(state.pw_stopped);
    state.record(SystemAction::StartAudio);
    assert!(!state.pw_stopped);
    let before = state;
    state.record(SystemAction::CheckGpuProcesses);
    state.record(SystemAction::QueryVm);
    state.record(SystemAction::LoadModule(KernelModule::Nvidia));
    assert_eq!(state, before);
}

#[test]
fn detach_runs_all_steps_in_order() {
    let mut state = SystemState::new();
    let mut run = dc_gpu();
    let reports = (0..12).map(|_| ok()).collect();
    let (asked, last) = drive(&mut run, &mut state, reports);
    assert_eq!(asked, detach_steps());
    assert_eq!(asked[0], SystemAction::StopDisplayManager);
    assert_eq!(asked[11], SystemAction::StartDisplayManager);
    assert_eq!(last, Advance::Finished);
    assert_eq!(state, SystemState {
        nvidia_unloaded: (true, true, true, true),
        gpu_dettached: (true, true),
        vfio_loaded: true,
        ..SystemState::new()
    });
}

#[test]
fn detach_failing_at_the_second_module_leaves_a_precise_ledger() {
    let mut state = SystemState::new();
    let mut run = dc_gpu();
    let reports = vec![
        ok(),
        ok(),
        ran(true, "  PID TTY          TIME CMD\n    1 ?        00:00:01 systemd\n"),
        ran(true, ""),
        ran(false, "modprobe: FATAL: Module nvidia_drm is in use.\n"),
    ];
    let (asked, last) = drive(&mut run, &mut state, reports);
    assert_eq!(asked.len(), 5);
    assert_eq!(asked[4], SystemAction::UnloadModule(KernelModule::NvidiaDrm));
    assert_eq!(last, Advance::Aborted(error(
        LauncherErrorKind::ModprobeRemoveReturnedErr,
        "nvidia_drm",
        "modprobe: FATAL: Module nvidia_drm is in use.\n",
    )));
    assert_eq!(state.nvidia_unloaded, (true, false, false, false));
    assert_eq!(state.gpu_dettached, (false, false));
    assert!(!state.vfio_loaded);
    assert!(state.dp_stopped && state.pw_stopped);
    let plan = rc_gpu(&state);
    assert_eq!(plan, vec![
        SystemAction::LoadModule(KernelModule::NvidiaUvm),
        SystemAction::StartDisplayManager,
        SystemAction::StartAudio,
    ]);
    assert!(!plan.iter().any(|a| matches!(a, SystemAction::ReattachPci(_))));
}

#[test]
fn detach_failing_at_any_step_changes_the_ledger_no_further() {
    for failing in 0..12usize {
        let mut state = SystemState::new();
        let mut run = dc_gpu();
        let mut reports: Vec<Report> = (0..failing).map(|_| ok()).collect();
        reports.push(failed("boom"));
        let mut reference = SystemState::new();
        for action in detach_steps().into_iter().take(failing) {
            reference.record(action);
        }
        let (asked, last) = drive(&mut run, &mut state, reports);
        assert_eq!(asked.len(), failing + 1);
        assert!(matches!(last, Advance::Aborted(_)));
        assert_eq!(state, reference);
        assert_eq!(run.next_action(), Some(detach_steps()[failing]));
    }
}

#[test]
fn a_missing_module_is_no_failure() {
    assert!(!removal_was_refused(b""));
    assert!(!removal_was_refused(b"modprobe: FATAL: Module nvidia_uvm not found.\n"));
    assert!(removal_was_refused(b"modprobe: ERROR: could not remove\n"));
    assert!(removal_was_refused(b"not foun"));
    let action = SystemAction::UnloadModule(KernelModule::NvidiaUvm);
    assert_eq!(failure_of(action, &ran(false, "Module nvidia_uvm not found")), None);
    assert_eq!(
        failure_of(action, &failed("No such file or directory")),
        Some(error(
            LauncherErrorKind::FailedToUnloadKernelModule,
            "nvidia_uvm",
            "No such file or directory"
        ))
    );
}

#[test]
fn stderr_that_is_no_text_is_shown_with_replacements() {
    let report = Report::Ran { success: false, output: vec![b'a', 0xff, b'b'] };
    let made = failure_of(SystemAction::UnloadModule(KernelModule::VfioPci), &report).unwrap();
    assert_eq!(made.kind, LauncherErrorKind::ModprobeRemoveReturnedErr);
    assert_eq!(made.subject, "vfio-pci");
    assert_eq!(made.detail, "a\u{fffd}b");
}

#[test]
fn audio_failures_are_errors_of_their_own() {
    assert_eq!(
        failure_of(SystemAction::StartAudio, &failed("x")),
        Some(error(LauncherErrorKind::FailedToStartAudio, "", "x"))
    );
    assert_eq!(
        failure_of(SystemAction::RestartAudio, &failed("x")),
        Some(error(LauncherErrorKind::FailedToRestartAudio, "", "x"))
    );
    assert_eq!(
        failure_of(SystemAction::StopAudio, &failed("x")),
        Some(error(LauncherErrorKind::FailedToGetUsers, "", "x"))
    );
    assert_eq!(failure_of(SystemAction::StopDisplayManager, &ok()), None);
    assert_eq!(failure_of(SystemAction::StartAudio, &ok()), None);
}

#[test]
fn a_failed_start_of_the_audio_sockets_stops_the_detach() {
    let mut state = SystemState::new();
    let mut run = dc_gpu();
    let mut reports: Vec<Report> = (0..10).map(|_| ok()).collect();
    reports.push(failed("no session bus"));
    let (asked, last) = drive(&mut run, &mut state, reports);
    assert_eq!(asked.len(), 11);
    assert_eq!(asked[10], SystemAction::StartAudio);
    assert_eq!(
        last,
        Advance::Aborted(error(LauncherErrorKind::FailedToStartAudio, "", "no session bus"))
    );
    assert!(state.pw_stopped);
    assert!(state.dp_stopped);
    assert!(state.vfio_loaded);
    assert_eq!(run.next_action(), Some(SystemAction::StartAudio));
    let plan = rc_gpu(&state);
    assert!(plan.contains(&SystemAction::StartAudio));
    assert!(plan.contains(&SystemAction::StartDisplayManager));
}

#[test]
fn one_failed_reversal_gives_one_error() {
    let ledger = SystemState { pw_stopped: true, ..SystemState::new() };
    assert_eq!(rc_gpu(&ledger), vec![SystemAction::StartAudio]);
    let mut undo = cleanup(&ledger);
    assert_eq!(undo.next_action(), Some(SystemAction::StartAudio));
    assert_eq!(undo.record(&failed("no session bus")), Advance::Finished);
    let mut left = ledger;
    assert_eq!(
        undo.finish(&mut left),
        vec![error(LauncherErrorKind::FailedToStartAudio, "", "no session bus")]
    );
    assert_eq!(left, SystemState::new());
}

#[test]
fn a_command_that_exits_without_success_has_failed() {
    assert_eq!(
        failure_of(SystemAction::StartVm, &ran(false, "error: Failed to create domain")),
        Some(error(LauncherErrorKind::FailedToLaunchVM, "", "error: Failed to create domain"))
    );
    assert_eq!(
        failure_of(SystemAction::DetachPci(PciDevice::Gpu), &ran(false, "busy")),
        Some(error(LauncherErrorKind::FailedToDisconnectGPU, "pci_0000_01_00_0", "busy"))
    );
    assert_eq!(
        failure_of(SystemAction::LoadModule(KernelModule::Nvidia), &ran(false, "")),
        Some(error(LauncherErrorKind::FailedToLoadKernelModule, "nvidia", ""))
    );
    assert_eq!(failure_of(SystemAction::StartVm, &ran(true, "Domain created")), None);
    assert_eq!(failure_of(SystemAction::QueryVm, &ran(false, "no domain")), None);
    assert_eq!(failure_of(SystemAction::QueryVm, &ran(true, "running")), None);
    assert_eq!(failure_of(SystemAction::CreateMouse, &gave("/dev/input/event21")), None);
    let mut state = SystemState::new();
    let mut run = start_vm();
    assert_eq!(run.record(&mut state, &ok()), Advance::Do(SystemAction::StartVm));
    assert_eq!(
        run.record(&mut state, &ran(false, "no such file")),
        Advance::Aborted(error(LauncherErrorKind::FailedToLaunchVM, "", "no such file"))
    );
    assert!(!state.vm_launched);
    let ledger = SystemState { vm_launched: true, ..SystemState::new() };
    let mut undo = cleanup(&ledger);
    assert_eq!(undo.record(&ran(false, "not running")), Advance::Do(SystemAction::QueryVm));
    assert_eq!(undo.record(&ran(false, "")), Advance::Finished);
    let mut left = ledger;
    assert_eq!(
        undo.finish(&mut left),
        vec![error(LauncherErrorKind::FailedToShutdownVm, "", "not running")]
    );
}

#[test]
fn every_failing_action_has_its_kind() {
    let cases = [
        (SystemAction::StopDisplayManager, LauncherErrorKind::FailedToStopDP, ""),
        (SystemAction::CheckGpuProcesses, LauncherErrorKind::FailedToGetProcesses, ""),
        (
            SystemAction::DetachPci(PciDevice::Gpu),
            LauncherErrorKind::FailedToDisconnectGPU,
            "pci_0000_01_00_0",
        ),
        (
            SystemAction::LoadModule(KernelModule::VfioPci),
            LauncherErrorKind::FailedToLoadKernelModule,
            "vfio-pci",
        ),
        (SystemAction::StartDisplayManager, LauncherErrorKind::FailedToStartDP, ""),
        (SystemAction::StartAudio, LauncherErrorKind::FailedToStartAudio, ""),
        (SystemAction::RestartAudio, LauncherErrorKind::FailedToRestartAudio, ""),
        (SystemAction::StopAudio, LauncherErrorKind::FailedToGetUsers, ""),
        (SystemAction::LimitCpus(CpuUnit::Scope), LauncherErrorKind::FailedToSetCPUs, ""),
        (SystemAction::SetGovernor, LauncherErrorKind::FailedToReadCPUDir, ""),
        (SystemAction::CreateMouse, LauncherErrorKind::FailedToCreateMouse, ""),
        (SystemAction::LocateTemplate, LauncherErrorKind::FailedToGetXmlPath, ""),
        (SystemAction::ReadTemplate, LauncherErrorKind::FailedToReadXmlPath, ""),
        (SystemAction::WriteDescriptor, LauncherErrorKind::FailedToCreateXmlFile, ""),
        (SystemAction::AwaitUser, LauncherErrorKind::ServerError, ""),
        (SystemAction::OpenVmLog, LauncherErrorKind::FailedtoCreateLogFile, ""),
        (SystemAction::StartVm, LauncherErrorKind::FailedToLaunchVM, ""),
        (SystemAction::AnnounceLaunch, LauncherErrorKind::FailedToLockData, ""),
        (SystemAction::ShutdownVm, LauncherErrorKind::FailedToShutdownVm, ""),
        (SystemAction::QueryVm, LauncherErrorKind::FailedToGetVmState, ""),
        (SystemAction::DestroyVm, LauncherErrorKind::FailedToDestroyVm, ""),
        (SystemAction::DestroyMouse, LauncherErrorKind::FailedToStopVirtualMouse, ""),
        (SystemAction::RestoreGovernor, LauncherErrorKind::FailedToReadCPUDir, ""),
        (SystemAction::RestoreCpus(CpuUnit::UserSlice), LauncherErrorKind::FailedToSetCPUs, ""),
        (
            SystemAction::ReattachPci(PciDevice::GpuAudio),
            LauncherErrorKind::FailedToConnectGPU,
            "pci_0000_01_00_1",
        ),
        (SystemAction::RestartDisplayManager, LauncherErrorKind::FailedToRestartDP, ""),
    ];
    for (action, kind, subject) in cases {
        assert_eq!(failure_of(action, &failed("why")), Some(error(kind, subject, "why")));
        assert_eq!(failure_of(action, &ok()), None);
    }
}

#[test]
fn busy_card_is_waited_for_twenty_times() {
    assert!(gpu_is_in_use(b"  900 ?  00:00:00 sddm-helper\n"));
    assert!(gpu_is_in_use(b"  901 tty1  00:00:03 Xorg\n"));
    assert!(!gpu_is_in_use(b"    1 ?  00:00:01 systemd\n"));
    assert!(!gpu_is_in_use(b""));
    let mut state = SystemState::new();
    let mut run = dc_gpu();
    let mut reports = vec![ok(), ok()];
    for _ in 0..19 {
        reports.push(ran(true, "  901 tty1  00:00:03 Xorg\n"));
    }
    let (asked, last) = drive(&mut run, &mut state, reports);
    assert_eq!(asked.len(), 21);
    assert_eq!(last, Advance::Retry(SystemAction::CheckGpuProcesses));
    let end = run.record(&mut state, &ran(true, "sddm"));
    assert_eq!(end, Advance::Aborted(error(LauncherErrorKind::ProcessesDidNotExit, "", "")));
    assert_eq!(state, SystemState { dp_stopped: true, pw_stopped: true, ..SystemState::new() });
}

#[test]
fn a_card_that_is_released_lets_the_detach_go_on() {
    let mut state = SystemState::new();
    let mut run = dc_gpu();
    let reports = vec![ok(), ok(), ran(true, "Xorg"), ran(true, "Xorg"), ran(true, "bash")];
    let (_, last) = drive(&mut run, &mut state, reports);
    assert_eq!(last, Advance::Do(SystemAction::UnloadModule(KernelModule::NvidiaUvm)));
    assert_eq!(
        run.record(&mut state, &failed("spawn")),
        Advance::Aborted(error(LauncherErrorKind::FailedToUnloadKernelModule, "nvidia_uvm", "spawn"))
    );
}

#[test]
fn reattach_plan_of_a_full_detach_that_was_interrupted() {
    let state = SystemState {
        dp_stopped: true,
        pw_stopped: true,
        nvidia_unloaded: (true, true, true, true),
        gpu_dettached: (true, true),
        vfio_loaded: true,
        ..SystemState::new()
    };
    assert_eq!(rc_gpu(&state), vec![
        SystemAction::UnloadModule(KernelModule::VfioPci),
        SystemAction::ReattachPci(PciDevice::Gpu),
        SystemAction::ReattachPci(PciDevice::GpuAudio),
        SystemAction::LoadModule(KernelModule::Nvidia),
        SystemAction::LoadModule(KernelModule::NvidiaModeset),
        SystemAction::LoadModule(KernelModule::NvidiaDrm),
        SystemAction::LoadModule(KernelModule::NvidiaUvm),
        SystemAction::StartDisplayManager,
        SystemAction::StartAudio,
    ]);
}

#[test]
fn reattach_plan_restarts_what_runs() {
    let state = SystemState { vfio_loaded: true, ..SystemState::new() };
    assert_eq!(rc_gpu(&state), vec![
        SystemAction::UnloadModule(KernelModule::VfioPci),
        SystemAction::RestartAudio,
        SystemAction::RestartDisplayManager,
    ]);
    let state = SystemState { gpu_dettached: (false, true), dp_stopped: true, ..SystemState::new() };
    assert_eq!(rc_gpu(&state), vec![
        SystemAction::ReattachPci(PciDevice::GpuAudio),
        SystemAction::StartDisplayManager,
        SystemAction::RestartAudio,
    ]);
    let state = SystemState { dp_stopped: true, pw_stopped: true, ..SystemState::new() };
    assert_eq!(rc_gpu(&state), vec![SystemAction::StartDisplayManager, SystemAction::StartAudio]);
}

fn ledger_from_bits(bits: u32) -> SystemState {
    let b = |i: u32| bits & (1 << i) != 0;
    SystemState {
        cpus_limited: (b(0), b(1), b(2)),
        performance_governor: b(3),
        virtual_mouse_create: b(4),
        vm_launched: b(5),
        dp_stopped: b(6),
        pw_stopped: b(7),
        nvidia_unloaded: (b(8), b(9), b(10), b(11)),
        gpu_dettached: (b(12), b(13)),
        vfio_loaded: b(14),
    }
}

fn reversals(state: &SystemState) -> Vec<SystemAction> {
    let mut wanted = Vec::new();
    if state.vm_launched {
        wanted.push(SystemAction::ShutdownVm);
        wanted.push(SystemAction::QueryVm);
    }
    if state.virtual_mouse_create {
        wanted.push(SystemAction::DestroyMouse);
    }
    if state.performance_governor {
        wanted.push(SystemAction::RestoreGovernor);
    }
    if state.cpus_limited.0 {
        wanted.push(SystemAction::RestoreCpus(CpuUnit::UserSlice));
    }
    if state.cpus_limited.1 {
        wanted.push(SystemAction::RestoreCpus(CpuUnit::SystemSlice));
    }
    if state.cpus_limited.2 {
        wanted.push(SystemAction::RestoreCpus(CpuUnit::Scope));
    }
    if state.vfio_loaded {
        wanted.push(SystemAction::UnloadModule(KernelModule::VfioPci));
    }
    if state.gpu_dettached.0 {
        wanted.push(SystemAction::ReattachPci(PciDevice::Gpu));
    }
    if state.gpu_dettached.1 {
        wanted.push(SystemAction::ReattachPci(PciDevice::GpuAudio));
    }
    if state.nvidia_unloaded.3 {
        wanted.push(SystemAction::LoadModule(KernelModule::Nvidia));
    }
    if state.nvidia_unloaded.2 {
        wanted.push(SystemAction::LoadModule(KernelModule::NvidiaModeset));
    }
    if state.nvidia_unloaded.1 {
        wanted.push(SystemAction::LoadModule(KernelModule::NvidiaDrm));
    }
    if state.nvidia_unloaded.0 {
        wanted.push(SystemAction::LoadModule(KernelModule::NvidiaUvm));
    }
    if state.dp_stopped {
        wanted.push(SystemAction::StartDisplayManager);
    }
    if state.pw_stopped {
        wanted.push(SystemAction::StartAudio);
    }
    wanted
}

#[test]
fn cleanup_attempts_every_flag_and_counts_every_failure() {
    let mut seed: u64 = 88172645463325252;
    for bits in (0..(1u32 << 15)).step_by(37) {
        let mut state = ledger_from_bits(bits);
        let wanted = reversals(&state);
        let mut run = cleanup(&state);
        let mut attempted = Vec::new();
        let mut injected = 0usize;
        while let Some(action) = run.next_action() {
            attempted.push(action);
            seed ^= seed << 13;
            seed ^= seed >> 7;
            seed ^= seed << 17;
            let report = if seed % 3 == 0 {
                injected += 1;
                failed("injected")
            } else if action == SystemAction::QueryVm {
                ran(false, "error: failed to get domain 'windows'")
            } else {
                ok()
            };
            run.record(&report);
            assert!(attempted.len() < 64);
        }
        for action in &wanted {
            assert!(attempted.contains(action), "{:?} was not attempted for {:?}", action, state);
        }
        for action in &attempted {
            assert!(
                wanted.contains(action)
                    || matches!(
                        action,
                        SystemAction::DestroyVm
                            | SystemAction::RestartAudio
                            | SystemAction::RestartDisplayManager
                    ),
                "{:?} was attempted without cause",
                action
            );
        }
        let errors = run.finish(&mut state);
        assert_eq!(errors.len(), injected);
        assert_eq!(state, SystemState::new());
    }
}

#[test]
fn cleanup_goes_on_past_failures_and_keeps_their_order() {
    let mut state = SystemState {
        virtual_mouse_create: true,
        performance_governor: true,
        cpus_limited: (true, false, true),
        gpu_dettached: (true, false),
        ..SystemState::new()
    };
    let mut run = cleanup(&state);
    let mut asked = Vec::new();
    while let Some(action) = run.next_action() {
        asked.push(action);
        run.record(&failed(&format!("no {}", asked.len())));
    }
    assert_eq!(asked, vec![
        SystemAction::DestroyMouse,
        SystemAction::RestoreGovernor,
        SystemAction::RestoreCpus(CpuUnit::UserSlice),
        SystemAction::RestoreCpus(CpuUnit::Scope),
        SystemAction::ReattachPci(PciDevice::Gpu),
        SystemAction::RestartAudio,
        SystemAction::RestartDisplayManager,
    ]);
    let errors = run.finish(&mut state);
    assert_eq!(errors, vec![
        error(LauncherErrorKind::FailedToStopVirtualMouse, "", "no 1"),
        error(LauncherErrorKind::FailedToReadCPUDir, "", "no 2"),
        error(LauncherErrorKind::FailedToSetCPUs, "", "no 3"),
        error(LauncherErrorKind::FailedToSetCPUs, "", "no 4"),
        error(LauncherErrorKind::FailedToConnectGPU, "pci_0000_01_00_0", "no 5"),
        error(LauncherErrorKind::FailedToRestartAudio, "", "no 6"),
        error(LauncherErrorKind::FailedToRestartDP, "", "no 7"),
    ]);
    assert_eq!(state, SystemState::new());
}

#[test]
fn cleanup_waits_for_the_machine_before_it_destroys_it() {
    let state = SystemState { vm_launched: true, ..SystemState::new() };
    let mut run = cleanup(&state);
    assert_eq!(run.next_action(), Some(SystemAction::ShutdownVm));
    assert_eq!(run.record(&ok()), Advance::Do(SystemAction::QueryVm));
    for _ in 0..29 {
        assert_eq!(run.record(&ran(true, "running")), Advance::Retry(SystemAction::QueryVm));
    }
    assert_eq!(run.record(&ran(true, "running")), Advance::Do(SystemAction::DestroyVm));
    assert_eq!(run.record(&ok()), Advance::Finished);
    let mut ledger = state;
    assert!(run.finish(&mut ledger).is_empty());
}

#[test]
fn cleanup_spares_a_machine_that_has_stopped() {
    let state = SystemState { vm_launched: true, virtual_mouse_create: true, ..SystemState::new() };
    let mut run = cleanup(&state);
    assert_eq!(run.record(&failed("no virsh")), Advance::Do(SystemAction::QueryVm));
    assert_eq!(run.record(&ran(true, "running")), Advance::Retry(SystemAction::QueryVm));
    assert_eq!(run.record(&ran(false, "")), Advance::Do(SystemAction::DestroyMouse));
    assert_eq!(run.record(&ok()), Advance::Finished);
    let mut ledger = state;
    assert_eq!(run.finish(&mut ledger), vec![error(
        LauncherErrorKind::FailedToShutdownVm,
        "",
        "no virsh"
    )]);
}

#[test]
fn cleanup_destroys_a_machine_that_cannot_be_asked_after() {
    let state = SystemState { vm_launched: true, ..SystemState::new() };
    let mut run = cleanup(&state);
    run.record(&ok());
    assert_eq!(run.record(&failed("gone")), Advance::Do(SystemAction::DestroyVm));
    assert_eq!(run.record(&failed("still gone")), Advance::Finished);
    let mut ledger = state;
    assert_eq!(run.finish(&mut ledger), vec![
        error(LauncherErrorKind::FailedToGetVmState, "", "gone"),
        error(LauncherErrorKind::FailedToDestroyVm, "", "still gone"),
    ]);
}

#[test]
fn setup_keeps_what_the_actions_yield() {
    let mut state = SystemState::new();
    let mut run = setup_pc();
    let reports = vec![
        ok(),
        ok(),
        ok(),
        ok(),
        gave("/dev/input/event21"),
        gave("/etc/windows/lg.xml"),
        gave("<input dev='VIRTUAL_MOUSE_EVENT_PATH'/><a>VIRTUAL_MOUSE_EVENT_PATH</a>"),
    ];
    let (asked, last) = drive(&mut run, &mut state, reports);
    assert_eq!(asked, setup_steps()[..7].to_vec());
    assert_eq!(last, Advance::Do(SystemAction::WriteDescriptor));
    assert_eq!(run.template_path(), "/etc/windows/lg.xml");
    assert_eq!(
        run.descriptor(),
        "<input dev='/dev/input/event21'/><a>/dev/input/event21</a>"
    );
    assert_eq!(run.record(&mut state, &ok()), Advance::Finished);
    assert_eq!(state, SystemState {
        cpus_limited: (true, true, true),
        performance_governor: true,
        virtual_mouse_create: true,
        ..SystemState::new()
    });
}

#[test]
fn a_template_that_cannot_be_read_is_named() {
    let mut state = SystemState::new();
    let mut run = setup_pc();
    let reports = vec![
        ok(),
        ok(),
        ok(),
        ok(),
        gave("/dev/input/event21"),
        gave("/etc/windows/lg.xml"),
        failed("permission denied"),
    ];
    let (_, last) = drive(&mut run, &mut state, reports);
    assert_eq!(last, Advance::Aborted(error(
        LauncherErrorKind::FailedToReadXmlPath,
        "/etc/windows/lg.xml",
        "permission denied"
    )));
    assert!(state.virtual_mouse_create);
}

#[test]
fn setup_that_fails_at_the_second_group_has_limited_one() {
    let mut state = SystemState::new();
    let mut run = setup_pc();
    let (_, last) = drive(&mut run, &mut state, vec![ok(), failed("timeout")]);
    assert_eq!(last, Advance::Aborted(error(LauncherErrorKind::FailedToSetCPUs, "", "timeout")));
    assert_eq!(state.cpus_limited, (true, false, false));
    let mut undo = cleanup(&state);
    assert_eq!(undo.next_action(), Some(SystemAction::RestoreCpus(CpuUnit::UserSlice)));
    assert_eq!(undo.record(&ok()), Advance::Finished);
}

#[test]
fn starting_and_watching_the_machine() {
    let mut state = SystemState::new();
    let mut run = start_vm();
    let (asked, last) = drive(&mut run, &mut state, vec![ok(), ok()]);
    assert_eq!(asked, vec![SystemAction::OpenVmLog, SystemAction::StartVm]);
    assert_eq!(last, Advance::Finished);
    assert!(state.vm_launched);
    let mut watch = wait_on_vm();
    for _ in 0..100 {
        assert_eq!(
            watch.record(&mut state, &ran(true, "running")),
            Advance::Retry(SystemAction::QueryVm)
        );
        assert!(state.vm_launched);
    }
    assert_eq!(watch.record(&mut state, &ran(false, "")), Advance::Finished);
    assert!(!state.vm_launched);
}

#[test]
fn a_launch_of_each_variant() {
    let mut spice = launch_vm(VmType::Spice);
    assert_eq!(spice.next_action(), Some(SystemAction::AwaitUser));
    let mut state = SystemState::new();
    let mut asked = Vec::new();
    while let Some(action) = spice.next_action() {
        asked.push(action);
        let report = if action == SystemAction::QueryVm { ran(false, "") } else { ok() };
        spice.record(&mut state, &report);
    }
    let mut expected = vec![SystemAction::AwaitUser];
    expected.extend(setup_steps());
    expected.extend([
        SystemAction::OpenVmLog,
        SystemAction::StartVm,
        SystemAction::AnnounceLaunch,
        SystemAction::QueryVm,
    ]);
    assert_eq!(asked, expected);
    assert!(!state.vm_launched);
    assert!(state.virtual_mouse_create);

    let mut lg = launch_vm(VmType::LookingGlass);
    let mut state = SystemState::new();
    let mut asked = Vec::new();
    while let Some(action) = lg.next_action() {
        asked.push(action);
        if action == SystemAction::AwaitUser {
            break;
        }
        lg.record(&mut state, &ok());
    }
    let mut expected = detach_steps();
    expected.push(SystemAction::AwaitUser);
    assert_eq!(asked, expected);
    assert_eq!(
        lg.record(&mut state, &failed("Could not lock ServerData")),
        Advance::Aborted(error(LauncherErrorKind::ServerError, "", "Could not lock ServerData"))
    );
}

#[test]
fn names_and_places() {
    assert_eq!(template_variable(VmType::LookingGlass), "WINDOWS_LG_XML");
    assert_eq!(template_variable(VmType::Spice), "WINDOWS_SPICE_XML");
    assert_eq!(descriptor_path(), "/tmp/windows.xml");
    assert_eq!(vm_log_path("2024-05-01 10:00:00"), "/var/log/windows/vm/log-2024-05-01 10:00:00.txt");
    assert_eq!(KernelModule::NvidiaUvm.name_text(), "nvidia_uvm");
    assert_eq!(KernelModule::NvidiaDrm.name_text(), "nvidia_drm");
    assert_eq!(KernelModule::NvidiaModeset.name_text(), "nvidia_modeset");
    assert_eq!(KernelModule::Nvidia.name_text(), "nvidia");
    assert_eq!(KernelModule::VfioPci.name_text(), "vfio-pci");
    assert_eq!(PciDevice::Gpu.name_text(), "pci_0000_01_00_0");
    assert_eq!(PciDevice::GpuAudio.name_text(), "pci_0000_01_00_1");
    assert_eq!(CpuUnit::UserSlice.path_text(), "/org/freedesktop/systemd1/unit/user_2eslice");
    assert_eq!(CpuUnit::SystemSlice.path_text(), "/org/freedesktop/systemd1/unit/system_2eslice");
    assert_eq!(CpuUnit::Scope.path_text(), "/org/freedesktop/systemd1/unit/unit_2escope");
    assert!(VmType::LookingGlass.dc_gpu());
    assert!(!VmType::Spice.dc_gpu());
    assert_eq!(VmType::default(), VmType::LookingGlass);
}

#[test]
fn launcher_error_messages() {
    assert_eq!(
        error(LauncherErrorKind::FailedToSetCPUs, "", "denied").to_string(),
        "Could not set AllowedCPUs with err: denied"
    );
    assert_eq!(
        error(LauncherErrorKind::FailedToLockData, "ignored", "ignored").to_string(),
        "Could not lock ServerData"
    );
    assert_eq!(
        error(LauncherErrorKind::ProcessesDidNotExit, "", "").to_string(),
        "Waited 2 seconds, but processes that use the gpu did not close after stopping the display manager and pipewire"
    );
    assert_eq!(
        error(LauncherErrorKind::FailedToUnloadKernelModule, "nvidia", "busy").to_string(),
        "Failed to unload kernel module nvidia, with err: busy"
    );
    assert_eq!(
        error(LauncherErrorKind::ModprobeRemoveReturnedErr, "nvidia_drm", "in use").to_string(),
        "Modprobe returned err while unloading nvidia_drm, with stderr: in use"
    );
    assert_eq!(
        error(LauncherErrorKind::FailedToReadXmlPath, "/a.xml", "missing").to_string(),
        "Could not read the xml path: /a.xml, with err: missing"
    );
    assert_eq!(
        error(LauncherErrorKind::FailedToConnectGPU, "pci_0000_01_00_1", "x").to_string(),
        "Failed to reconnect gpu: pci_0000_01_00_1, with err: x"
    );
    assert_eq!(
        error(LauncherErrorKind::FailedToGetVmState, "", "x").to_string(),
        "failed to get vm state from virsh: x"
    );
    assert_eq!(error(LauncherErrorKind::ServerError, "", "Could not lock ServerData").to_string(), "Could not lock ServerData");
    assert_eq!(
        LauncherError::new(LauncherErrorKind::FailedToStartDP, "no").to_string(),
        "Failed to start display-manager.service with err: no"
    );
    assert_eq!(
        LauncherError::about(LauncherErrorKind::FailedToDisconnectGPU, "pci", "no").to_string(),
        "Failed to disconnect pci pci, with err: no"
    );
    assert_eq!(
        LauncherError::from_server(&windows_launcher::server::ServerError::CouldNotLockServerData),
        error(LauncherErrorKind::ServerError, "", "Could not lock ServerData")
    );
}

#[test]
fn the_commands_behind_the_actions() {
    assert_eq!(command_for(SystemAction::CheckGpuProcesses), Some(vec!["ps", "-u", "root"]));
    assert_eq!(
        command_for(SystemAction::UnloadModule(KernelModule::NvidiaModeset)),
        Some(vec!["modprobe", "-f", "-r", "nvidia_modeset"])
    );
    assert_eq!(
        command_for(SystemAction::LoadModule(KernelModule::VfioPci)),
        Some(vec!["modprobe", "vfio-pci"])
    );
    assert_eq!(
        command_for(SystemAction::DetachPci(PciDevice::Gpu)),
        Some(vec!["virsh", "nodedev-detach", "pci_0000_01_00_0"])
    );
    assert_eq!(
        command_for(SystemAction::ReattachPci(PciDevice::GpuAudio)),
        Some(vec!["virsh", "nodedev-reattach", "pci_0000_01_00_1"])
    );
    assert_eq!(
        command_for(SystemAction::StartVm),
        Some(vec!["virsh", "-cqemu:///system", "create", "/tmp/windows.xml"])
    );
    assert_eq!(
        command_for(SystemAction::QueryVm),
        Some(vec!["virsh", "-cqemu:///system", "domstate", "windows"])
    );
    assert_eq!(
        command_for(SystemAction::ShutdownVm),
        Some(vec!["virsh", "-cqemu:///windows", "shutdown", "windows"])
    );
    assert_eq!(
        command_for(SystemAction::DestroyVm),
        Some(vec!["virsh", "-cqemu:///windows", "destroy", "windows"])
    );
    assert_eq!(command_for(SystemAction::StopDisplayManager), None);
    assert_eq!(command_for(SystemAction::CreateMouse), None);
    assert_eq!(unit_method(SystemAction::StopDisplayManager), Some("StopUnit"));
    assert_eq!(unit_method(SystemAction::StartDisplayManager), Some("StartUnit"));
    assert_eq!(unit_method(SystemAction::RestartDisplayManager), Some("RestartUnit"));
    assert_eq!(unit_method(SystemAction::StopAudio), None);
    assert_eq!(audio_verb(SystemAction::StopAudio), Some("stop"));
    assert_eq!(audio_verb(SystemAction::StartAudio), Some("start"));
    assert_eq!(audio_verb(SystemAction::RestartAudio), Some("restart"));
    assert_eq!(audio_verb(SystemAction::QueryVm), None);
    assert_eq!(audio_sockets(), ["pipewire.socket", "pipewire-pulse.socket"]);
    assert_eq!(audio_arguments("stop", 1000, "pipewire.socket"), vec![
        "--user",
        "--machine=1000@",
        "stop",
        "pipewire.socket"
    ]);
}

#[test]
fn the_single_user_launch() {
    let mut spice = master(VmType::Spice);
    let mut state = SystemState::new();
    let mut asked = Vec::new();
    while let Some(action) = spice.next_action() {
        asked.push(action);
        let report = if action == SystemAction::QueryVm { ran(false, "") } else { gave("x") };
        spice.record(&mut state, &report);
    }
    assert_eq!(asked, vec![
        SystemAction::LocateTemplate,
        SystemAction::ReadTemplate,
        SystemAction::CreateMouse,
        SystemAction::WriteDescriptor,
        SystemAction::LimitCpus(CpuUnit::UserSlice),
        SystemAction::LimitCpus(CpuUnit::SystemSlice),
        SystemAction::LimitCpus(CpuUnit::Scope),
        SystemAction::SetGovernor,
        SystemAction::StartVm,
        SystemAction::AnnounceLaunch,
        SystemAction::QueryVm,
    ]);
    let mut lg = master(VmType::LookingGlass);
    assert_eq!(lg.next_action(), Some(SystemAction::StopDisplayManager));
    let mut count = 0;
    while let Some(action) = lg.next_action() {
        count += 1;
        let report = if action == SystemAction::QueryVm { ran(false, "") } else { ok() };
        lg.record(&mut state, &report);
    }
    assert_eq!(count, 12 + 12);
    assert!(vm_close(true, false));
    assert!(!vm_close(true, true));
    assert!(!vm_close(false, false));
    assert!(!vm_close(false, true));
}

#[test]
fn a_run_that_is_through_takes_no_more_reports() {
    let mut state = SystemState::new();
    let mut run = wait_on_vm();
    assert_eq!(run.record(&mut state, &ran(false, "")), Advance::Finished);
    let before = state;
    assert_eq!(run.record(&mut state, &failed("late")), Advance::Finished);
    assert_eq!(run.next_action(), None);
    assert_eq!(state, before);
    let ledger = SystemState { virtual_mouse_create: true, ..SystemState::new() };
    let mut undo = cleanup(&ledger);
    assert_eq!(undo.record(&ok()), Advance::Finished);
    assert_eq!(undo.record(&failed("late")), Advance::Finished);
    let mut left = ledger;
    assert!(undo.finish(&mut left).is_empty());
    assert_eq!(left, SystemState::new());
}

#[test]
fn a_cleanup_that_is_ended_early_keeps_the_ledger() {
    let ledger = SystemState { virtual_mouse_create: true, vfio_loaded: true, ..SystemState::new() };
    let mut undo = cleanup(&ledger);
    assert_eq!(undo.record(&failed("no bus")), Advance::Do(SystemAction::UnloadModule(KernelModule::VfioPci)));
    let mut left = ledger;
    let errors = undo.finish(&mut left);
    assert_eq!(errors, vec![error(LauncherErrorKind::FailedToStopVirtualMouse, "", "no bus")]);
    assert_eq!(left, ledger);
}
