use std::sync::atomic::{AtomicUsize, Ordering};
use std::sync::Arc;
use std::task::{Wake, Waker};
use windows_launcher::dbus_server::{
    variant_tag, Communicator, DBusError, NoUserFuture, UserLoginFuture, VmLaunchFuture, NO_MOUSE,
};
use windows_launcher::hookable::Polled;
use windows_launcher::launcher::VmType;

struct Gong {
    strikes: AtomicUsize,
}

impl Wake for Gong {
    fn wake(self: Arc<Self>) {
        self.strikes.fetch_add(1, Ordering::SeqCst);
    }
}

fn gong() -> (Arc<Gong>, Waker) {
    let g = Arc::new(Gong { strikes: AtomicUsize::new(0) });
    (g.clone(), Waker::from(g))
}

fn strikes(g: &Arc<Gong>) -> usize {
    g.strikes.load(Ordering::SeqCst)
}

#[test]
fn a_new_communicator_has_no_user() {
    let mut communicator = Communicator::new();
    assert_eq!(communicator.user_count(), 0);
    let (_g, w) = gong();
    assert_eq!(NoUserFuture {}.poll(&mut communicator, &w), Polled::Ready(()));
    assert_eq!(NO_MOUSE, 10000);
}

#[test]
fn a_ready_user_wakes_the_one_who_waits_for_a_login() {
    let mut communicator = Communicator::new();
    let (g, w) = gong();
    let mut wait = UserLoginFuture {};
    assert_eq!(wait.poll(&mut communicator, &w), Polled::Pending);
    assert_eq!(strikes(&g), 0);
    communicator.user_ready();
    assert_eq!(communicator.user_count(), 1);
    assert_eq!(strikes(&g), 1);
    assert_eq!(wait.poll(&mut communicator, &w), Polled::Ready(()));
    communicator.user_ready();
    assert_eq!(communicator.user_count(), 2);
    assert_eq!(strikes(&g), 1);
}

#[test]
fn a_later_waiter_takes_the_place_of_an_earlier_one() {
    let mut communicator = Communicator::new();
    let (first, w1) = gong();
    let (second, w2) = gong();
    assert_eq!(UserLoginFuture {}.poll(&mut communicator, &w1), Polled::Pending);
    assert_eq!(UserLoginFuture {}.poll(&mut communicator, &w2), Polled::Pending);
    communicator.user_ready();
    assert_eq!(strikes(&first), 0);
    assert_eq!(strikes(&second), 1);
}

#[test]
fn the_last_user_leaving_wakes_the_one_who_waits_for_that() {
    let mut communicator = Communicator::new();
    communicator.user_ready();
    communicator.user_ready();
    let (g, w) = gong();
    let mut wait = NoUserFuture {};
    assert_eq!(wait.poll(&mut communicator, &w), Polled::Pending);
    communicator.user_closed();
    assert_eq!(communicator.user_count(), 1);
    assert_eq!(strikes(&g), 0);
    communicator.user_closed();
    assert_eq!(communicator.user_count(), 0);
    assert_eq!(strikes(&g), 1);
    assert_eq!(wait.poll(&mut communicator, &w), Polled::Ready(()));
    communicator.user_closed();
    assert_eq!(communicator.user_count(), 0);
    assert_eq!(strikes(&g), 1);
}

#[test]
fn the_launch_is_announced_to_everyone_who_waits() {
    let mut communicator = Communicator::new();
    let (a, wa) = gong();
    let (b, wb) = gong();
    assert_eq!(VmLaunchFuture {}.poll(&mut communicator, &wa), Polled::Pending);
    assert_eq!(VmLaunchFuture {}.poll(&mut communicator, &wb), Polled::Pending);
    communicator.inform_users(17);
    assert_eq!(strikes(&a), 1);
    assert_eq!(strikes(&b), 1);
    assert_eq!(VmLaunchFuture {}.poll(&mut communicator, &wa), Polled::Ready(17));
    communicator.inform_users(18);
    assert_eq!(strikes(&a), 1);
    assert_eq!(VmLaunchFuture {}.poll(&mut communicator, &wb), Polled::Ready(18));
}

#[test]
fn variants_as_announced() {
    assert_eq!(variant_tag(VmType::LookingGlass), "lg");
    assert_eq!(variant_tag(VmType::Spice), "spice");
}

#[test]
fn bus_service_error_messages() {
    assert_eq!(
        DBusError::SystemBusLost(String::from("eof")).to_string(),
        "Connection to System Bus was lost: eof"
    );
    assert_eq!(
        DBusError::RequestNameFailed(String::from("taken")).to_string(),
        "Failed to request name from system bus: taken"
    );
    assert_eq!(DBusError::FailedToSendShutdownSignal.to_string(), "Failed to send shutdown signal");
    assert_eq!(
        DBusError::FailedToTurnFilenameIntoString(String::from("\"\\xff\"")).to_string(),
        "Could not convert filename to string: \"\\xff\""
    );
    assert_eq!(
        DBusError::FailedToConnectToSystemBus(String::from("x")).to_string(),
        "Failed to connect to system bus: x"
    );
}
