use std::sync::atomic::{AtomicUsize, Ordering};
use std::sync::Arc;
use std::task::{Wake, Waker};
use windows_launcher::hookable::Polled;
use windows_launcher::launcher::{VmState, VmType};
use windows_launcher::server::{
    ServerData, ServerError, UserConnectedFuture, UserReady, UserReadyFuture, VmLaunchFuture,
    VmLaunchedFuture, VmPauseFuture, VmShutdownFinishedFuture, VmShutdownFuture,
};

struct Tally {
    hits: AtomicUsize,
}

impl Wake for Tally {
    fn wake(self: Arc<Self>) {
        self.hits.fetch_add(1, Ordering::SeqCst);
    }
}

fn tally() -> (Arc<Tally>, Waker) {
    let t = Arc::new(Tally { hits: AtomicUsize::new(0) });
    (t.clone(), Waker::from(t))
}

fn count(t: &Arc<Tally>) -> usize {
    t.hits.load(Ordering::SeqCst)
}

fn state(data: &ServerData) -> VmState {
    *data.vm_state.get()
}

fn allowed(from: VmState, to: VmState) -> bool {
    from == to
        || matches!(
            (from, to),
            (VmState::Inactive, VmState::Activating)
                | (VmState::Activating, VmState::Launched)
                | (VmState::Launched, VmState::ShuttingDown)
                | (VmState::ShuttingDown, VmState::Inactive)
                | (VmState::Activating, VmState::ShuttingDown)
        )
}

#[test]
fn new_server_is_inactive() {
    let data = ServerData::new();
    assert_eq!(state(&data), VmState::Inactive);
    assert_eq!(data.vm_type, VmType::LookingGlass);
    assert!(!*data.user_connected.get());
    assert!(!*data.lid_is_closed.get());
    assert_eq!(data.mouse_path, "");
}

#[test]
fn launch_request_on_inactive_activates() {
    let mut data = ServerData::new();
    let (t, w) = tally();
    let mut wait = VmLaunchFuture {};
    assert_eq!(wait.poll(&mut data, &w), Polled::Pending);
    assert_eq!(count(&t), 0);
    let granted = data.request_launch(VmType::LookingGlass, String::from("/dev/input/event4"));
    assert_eq!(granted, Ok(()));
    assert_eq!(state(&data), VmState::Activating);
    assert_eq!(data.vm_type, VmType::LookingGlass);
    assert_eq!(data.mouse_path, "/dev/input/event4");
    assert_eq!(count(&t), 1);
    assert_eq!(wait.poll(&mut data, &w), Polled::Ready(()));
    let again = data.request_launch(VmType::Spice, String::from("/dev/input/event9"));
    assert_eq!(again, Err(ServerError::VmAlreadyLaunched));
    assert_eq!(state(&data), VmState::Activating);
    assert_eq!(data.vm_type, VmType::LookingGlass);
    assert_eq!(data.mouse_path, "/dev/input/event4");
}

#[test]
fn launch_request_is_refused_in_every_other_state() {
    for target in [VmState::Activating, VmState::Launched, VmState::ShuttingDown] {
        let mut data = ServerData::new();
        data.request_launch(VmType::Spice, String::from("/dev/input/event1")).unwrap();
        if target == VmState::Launched {
            assert!(data.mark_launched(String::from("/dev/input/event21")));
        }
        if target == VmState::ShuttingDown {
            assert!(data.request_shutdown());
        }
        assert_eq!(state(&data), target);
        let (t, w) = tally();
        data.vm_state.hook(w.clone());
        data.user_connected.hook(w);
        let refused = data.request_launch(VmType::LookingGlass, String::from("/dev/input/event2"));
        assert_eq!(refused, Err(ServerError::VmAlreadyLaunched));
        assert_eq!(refused.unwrap_err().to_string(), "Vm Already Launched");
        assert_eq!(state(&data), target);
        assert_eq!(data.vm_type, VmType::Spice);
        assert_eq!(data.mouse_path, "/dev/input/event1");
        assert_eq!(count(&t), 0);
        assert_eq!(data.vm_state.pending(), 1);
        assert_eq!(data.user_connected.pending(), 1);
    }
}

#[test]
fn launch_request_resets_the_connected_user() {
    let mut data = ServerData::new();
    data.request_launch(VmType::Spice, String::from("a")).unwrap();
    assert!(data.connect_user());
    assert!(*data.user_connected.get());
    assert!(data.request_shutdown());
    assert!(data.finish_cleanup());
    assert!(!*data.user_connected.get());
    data.request_launch(VmType::LookingGlass, String::from("b")).unwrap();
    assert!(!*data.user_connected.get());
}

#[test]
fn shutdown_request_is_idempotent() {
    let mut data = ServerData::new();
    assert!(!data.request_shutdown());
    assert_eq!(state(&data), VmState::Inactive);
    data.request_launch(VmType::Spice, String::from("a")).unwrap();
    data.mark_launched(String::from("/dev/input/event21"));
    let (t, w) = tally();
    data.vm_state.hook(w.clone());
    assert!(data.request_shutdown());
    assert_eq!(state(&data), VmState::ShuttingDown);
    assert_eq!(count(&t), 1);
    data.vm_state.hook(w);
    assert!(data.request_shutdown());
    assert_eq!(state(&data), VmState::ShuttingDown);
    assert_eq!(count(&t), 1);
    assert_eq!(data.vm_state.pending(), 1);
}

#[test]
fn shutdown_request_calls_off_an_activation() {
    let mut data = ServerData::new();
    data.request_launch(VmType::LookingGlass, String::from("a")).unwrap();
    assert!(data.request_shutdown());
    assert_eq!(state(&data), VmState::ShuttingDown);
    assert!(!data.mark_launched(String::from("/dev/input/event21")));
    assert_eq!(state(&data), VmState::ShuttingDown);
}

#[test]
fn internal_transitions_are_guarded() {
    let mut data = ServerData::new();
    assert!(!data.mark_launched(String::from("/dev/input/event21")));
    assert!(!data.finish_cleanup());
    assert_eq!(state(&data), VmState::Inactive);
    data.request_launch(VmType::Spice, String::from("a")).unwrap();
    assert!(!data.finish_cleanup());
    assert_eq!(state(&data), VmState::Activating);
    assert!(data.mark_launched(String::from("/dev/input/event21")));
    assert!(!data.mark_launched(String::from("/dev/input/event21")));
    assert!(!data.finish_cleanup());
    assert_eq!(state(&data), VmState::Launched);
}

#[test]
fn random_request_sequences_follow_the_edges() {
    let mut seed: u64 = 0x2545_F491_4F6C_DD1D;
    for _ in 0..200 {
        let mut data = ServerData::new();
        for _ in 0..40 {
            seed ^= seed << 13;
            seed ^= seed >> 7;
            seed ^= seed << 17;
            let before = state(&data);
            match seed % 5 {
                0 => {
                    let granted = data.request_launch(VmType::Spice, String::from("p"));
                    assert_eq!(granted.is_ok(), before == VmState::Inactive);
                }
                1 => {
                    let wait = data.request_shutdown();
                    assert_eq!(wait, before != VmState::Inactive);
                }
                2 => {
                    assert_eq!(data.mark_launched(String::from("/dev/input/event21")), before == VmState::Activating);
                }
                3 => {
                    assert_eq!(data.finish_cleanup(), before == VmState::ShuttingDown);
                }
                _ => {
                    assert_eq!(data.connect_user(), before != VmState::Inactive);
                }
            }
            let after = state(&data);
            assert!(allowed(before, after), "{:?} -> {:?}", before, after);
            if (before, after) == (VmState::Activating, VmState::ShuttingDown) {
                assert_eq!(seed % 5, 1);
            }
        }
    }
}

#[test]
fn query_shows_state_and_variant() {
    let mut data = ServerData::new();
    assert_eq!(data.query(), (String::from("Not Running"), String::from("Looking Glass")));
    data.request_launch(VmType::Spice, String::from("a")).unwrap();
    assert_eq!(data.query(), (String::from("Starting up"), String::from("Spice")));
    data.mark_launched(String::from("/dev/input/event21"));
    assert_eq!(data.query().0, "Running");
    data.request_shutdown();
    assert_eq!(data.query().0, "Stopping");
}

#[test]
fn user_connecting_to_an_inactive_server_changes_nothing() {
    let mut data = ServerData::new();
    let (t, w) = tally();
    data.user_connected.hook(w);
    assert!(!data.connect_user());
    assert!(!*data.user_connected.get());
    assert_eq!(count(&t), 0);
}

#[test]
fn user_connecting_wakes_the_launcher() {
    let mut data = ServerData::new();
    data.request_launch(VmType::LookingGlass, String::from("a")).unwrap();
    let (t, w) = tally();
    let mut wait = UserConnectedFuture {};
    assert_eq!(wait.poll(&mut data, &w), Polled::Pending);
    assert!(data.connect_user());
    assert_eq!(count(&t), 1);
    assert_eq!(wait.poll(&mut data, &w), Polled::Ready(()));
    assert_eq!(data.user_connected.pending(), 0);
}

#[test]
fn state_waits_complete_in_their_state_only() {
    let mut data = ServerData::new();
    let (t, w) = tally();
    assert_eq!(VmShutdownFinishedFuture {}.poll(&mut data, &w), Polled::Ready(()));
    assert_eq!(VmLaunchedFuture {}.poll(&mut data, &w), Polled::Pending);
    assert_eq!(VmShutdownFuture {}.poll(&mut data, &w), Polled::Pending);
    assert_eq!(data.vm_state.pending(), 2);
    data.request_launch(VmType::Spice, String::from("a")).unwrap();
    assert_eq!(count(&t), 2);
    assert_eq!(data.vm_state.pending(), 0);
    assert_eq!(VmLaunchedFuture {}.poll(&mut data, &w), Polled::Pending);
    data.mark_launched(String::from("/dev/input/event21"));
    assert_eq!(count(&t), 3);
    assert_eq!(VmLaunchedFuture {}.poll(&mut data, &w), Polled::Ready(()));
    assert_eq!(VmShutdownFinishedFuture {}.poll(&mut data, &w), Polled::Pending);
    data.request_shutdown();
    assert_eq!(VmShutdownFuture {}.poll(&mut data, &w), Polled::Ready(()));
    data.finish_cleanup();
    assert_eq!(VmShutdownFinishedFuture {}.poll(&mut data, &w), Polled::Ready(()));
}

#[test]
fn lid_announcements_of_other_services_are_ignored() {
    let mut data = ServerData::new();
    assert!(!data.lid_changed("org.freedesktop.login1", Some(true)));
    assert!(!*data.lid_is_closed.get());
    assert!(!data.lid_changed("org.freedesktop.UPower", None));
    assert!(!*data.lid_is_closed.get());
    let (t, w) = tally();
    data.lid_is_closed.hook(w);
    assert!(data.lid_changed("org.freedesktop.UPower", Some(true)));
    assert!(*data.lid_is_closed.get());
    assert_eq!(count(&t), 1);
}

#[test]
fn pause_wait_follows_the_lid_while_launched() {
    let mut data = ServerData::new();
    let (t, w) = tally();
    let mut wait = VmPauseFuture { cur_pause_state: true };
    assert_eq!(wait.poll(&mut data, &w), Polled::Pending);
    assert!(!wait.cur_pause_state);
    assert_eq!(data.vm_state.pending(), 1);
    assert_eq!(data.lid_is_closed.pending(), 1);
    data.request_launch(VmType::Spice, String::from("a")).unwrap();
    data.mark_launched(String::from("/dev/input/event21"));
    assert_eq!(count(&t), 1);
    assert_eq!(wait.poll(&mut data, &w), Polled::Pending);
    data.lid_changed("org.freedesktop.UPower", Some(true));
    assert_eq!(wait.poll(&mut data, &w), Polled::Ready(true));
    let mut paused = VmPauseFuture { cur_pause_state: true };
    assert_eq!(paused.poll(&mut data, &w), Polled::Pending);
    assert!(paused.cur_pause_state);
    data.lid_changed("org.freedesktop.UPower", Some(false));
    assert_eq!(paused.poll(&mut data, &w), Polled::Ready(false));
}

#[test]
fn server_error_messages() {
    assert_eq!(
        ServerError::FailedToConnectToSystemBus(String::from("no bus")).to_string(),
        "Could not connect to the system dbus: no bus"
    );
    assert_eq!(
        ServerError::FailedToGetName(String::from("taken")).to_string(),
        "Could not get the name org.cws.WindowsLauncher on the system dbus: taken"
    );
    assert_eq!(ServerError::FailedToFindServerData.to_string(), "Could not find ServerData");
    assert_eq!(ServerError::CouldNotLockServerData.to_string(), "Could not lock ServerData");
    assert_eq!(
        ServerError::FailedToAddSignalHandler(String::from("x")).to_string(),
        "Failed to add UPower property change signal handler: x"
    );
}

#[test]
fn a_user_who_reports_in_learns_device_and_variant_at_the_launch() {
    let mut data = ServerData::new();
    let (t, w) = tally();
    assert!(!data.connect_user());
    data.request_launch(VmType::Spice, String::from("/dev/input/event4")).unwrap();
    assert!(data.connect_user());
    assert!(*data.user_connected.get());
    let mut wait = UserReadyFuture {};
    assert_eq!(wait.poll(&mut data, &w), Polled::Pending);
    assert_eq!(data.output_device, "");
    assert!(data.mark_launched(String::from("/dev/input/event21")));
    assert_eq!(count(&t), 1);
    assert_eq!(
        wait.poll(&mut data, &w),
        Polled::Ready(UserReady {
            output_device: String::from("/dev/input/event21"),
            vm_type: VmType::Spice,
        })
    );
    assert!(!data.mark_launched(String::from("/dev/input/event99")));
    assert_eq!(data.output_device, "/dev/input/event21");
    data.request_shutdown();
    assert_eq!(data.output_device, "/dev/input/event21");
    assert!(data.finish_cleanup());
    assert_eq!(data.output_device, "");
    assert!(!*data.user_connected.get());
}
