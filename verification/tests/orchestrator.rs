use windows_launcher::launcher::{LauncherError, LauncherErrorKind, VmState, VmType};
use windows_launcher::orchestrator::{launcher, Directive, Event, Orchestrator, Phase};
use windows_launcher::server::{ServerData, ServerError};

fn fault(kind: LauncherErrorKind, detail: &str) -> LauncherError {
    LauncherError { kind, subject: String::new(), detail: String::from(detail) }
}

fn activated() -> (Orchestrator, ServerData) {
    let mut data = ServerData::new();
    data.request_launch(VmType::LookingGlass, String::from("/dev/input/event4")).unwrap();
    let mut orchestrator = Orchestrator::new();
    assert!(matches!(launcher(&mut orchestrator, &mut data, Event::Activated), Directive::Launch));
    assert_eq!(orchestrator.phase(), Phase::Launching);
    (orchestrator, data)
}

#[test]
fn the_loop_starts_idle() {
    let orchestrator = Orchestrator::new();
    assert_eq!(orchestrator.phase(), Phase::Idle);
}

#[test]
fn a_full_round_returns_to_idle() {
    let (mut orchestrator, mut data) = activated();
    data.connect_user();
    data.mark_launched(String::from("/dev/input/event21"));
    let next = launcher(&mut orchestrator, &mut data, Event::LaunchSucceeded);
    assert!(matches!(next, Directive::Cleanup));
    assert_eq!(orchestrator.phase(), Phase::CleaningUp);
    assert_eq!(*data.vm_state.get(), VmState::ShuttingDown);
    let next = launcher(&mut orchestrator, &mut data, Event::CleanedUp(vec![]));
    assert!(matches!(next, Directive::AwaitRequest));
    assert_eq!(orchestrator.phase(), Phase::Idle);
    assert_eq!(*data.vm_state.get(), VmState::Inactive);
    assert!(!*data.user_connected.get());
    assert_eq!(data.output_device, "");
    data.request_launch(VmType::Spice, String::from("/dev/input/event5")).unwrap();
    assert!(matches!(launcher(&mut orchestrator, &mut data, Event::Activated), Directive::Launch));
}

#[test]
fn a_shutdown_request_calls_the_launch_off() {
    let (mut orchestrator, mut data) = activated();
    data.request_shutdown();
    let next = launcher(&mut orchestrator, &mut data, Event::ShutdownRequested);
    assert!(matches!(next, Directive::Cleanup));
    assert_eq!(*data.vm_state.get(), VmState::ShuttingDown);
    let late = launcher(&mut orchestrator, &mut data, Event::LaunchSucceeded);
    assert!(matches!(late, Directive::Continue));
    assert_eq!(orchestrator.phase(), Phase::CleaningUp);
    let next = launcher(&mut orchestrator, &mut data, Event::CleanedUp(vec![]));
    assert!(matches!(next, Directive::AwaitRequest));
}

#[test]
fn a_failed_launch_is_cleaned_up_before_the_loop_ends() {
    let (mut orchestrator, mut data) = activated();
    let cause = fault(LauncherErrorKind::FailedToStopDP, "timeout");
    let next = launcher(&mut orchestrator, &mut data, Event::LaunchFailed(cause.clone()));
    assert!(matches!(next, Directive::Cleanup));
    assert_eq!(*data.vm_state.get(), VmState::ShuttingDown);
    let other = fault(LauncherErrorKind::FailedToRestartDP, "later");
    match launcher(&mut orchestrator, &mut data, Event::CleanedUp(vec![other])) {
        Directive::Exit(error) => assert_eq!(error, cause),
        other => panic!("expected the end of the loop, got {:?}", other),
    }
    assert_eq!(orchestrator.phase(), Phase::Stopped);
    assert_eq!(*data.vm_state.get(), VmState::Inactive);
    assert!(matches!(launcher(&mut orchestrator, &mut data, Event::Activated), Directive::Continue));
    assert_eq!(orchestrator.phase(), Phase::Stopped);
}

#[test]
fn the_first_cleanup_error_ends_the_loop() {
    let (mut orchestrator, mut data) = activated();
    launcher(&mut orchestrator, &mut data, Event::LaunchSucceeded);
    let first = fault(LauncherErrorKind::FailedToSetCPUs, "one");
    let second = fault(LauncherErrorKind::FailedToStartDP, "two");
    match launcher(&mut orchestrator, &mut data, Event::CleanedUp(vec![first.clone(), second])) {
        Directive::Exit(error) => assert_eq!(error, first),
        other => panic!("expected the end of the loop, got {:?}", other),
    }
    assert_eq!(orchestrator.phase(), Phase::Stopped);
}

#[test]
fn a_server_failure_while_idle_ends_the_loop_at_once() {
    let mut data = ServerData::new();
    let mut orchestrator = Orchestrator::new();
    match launcher(&mut orchestrator, &mut data, Event::ServerFailed(ServerError::CouldNotLockServerData)) {
        Directive::Exit(error) => {
            assert_eq!(error, fault(LauncherErrorKind::ServerError, "Could not lock ServerData"))
        }
        other => panic!("expected the end of the loop, got {:?}", other),
    }
    assert_eq!(orchestrator.phase(), Phase::Stopped);
    assert_eq!(*data.vm_state.get(), VmState::Inactive);
}

#[test]
fn a_server_failure_during_the_launch_is_cleaned_up_first() {
    let (mut orchestrator, mut data) = activated();
    let next = launcher(
        &mut orchestrator,
        &mut data,
        Event::ServerFailed(ServerError::CouldNotLockServerData),
    );
    assert!(matches!(next, Directive::Cleanup));
    match launcher(&mut orchestrator, &mut data, Event::CleanedUp(vec![])) {
        Directive::Exit(error) => assert_eq!(error.kind, LauncherErrorKind::ServerError),
        other => panic!("expected the end of the loop, got {:?}", other),
    }
}

#[test]
fn events_that_do_not_fit_change_nothing() {
    let mut data = ServerData::new();
    let mut orchestrator = Orchestrator::new();
    for event in [Event::LaunchSucceeded, Event::ShutdownRequested, Event::CleanedUp(vec![])] {
        assert!(matches!(launcher(&mut orchestrator, &mut data, event), Directive::Continue));
        assert_eq!(orchestrator.phase(), Phase::Idle);
        assert_eq!(*data.vm_state.get(), VmState::Inactive);
    }
    let (mut orchestrator, mut data) = activated();
    assert!(matches!(launcher(&mut orchestrator, &mut data, Event::Activated), Directive::Continue));
    assert!(matches!(
        launcher(&mut orchestrator, &mut data, Event::CleanedUp(vec![])),
        Directive::Continue
    ));
    assert_eq!(orchestrator.phase(), Phase::Launching);
    assert_eq!(*data.vm_state.get(), VmState::Activating);
}
