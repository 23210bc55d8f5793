//! The state that the management interface serves: the state of the virtual
//! machine, who waits for it to change, and the guarded requests that change it.

use crate::hookable::{clone_waker, cloned_waker, Hookable, Polled};
use crate::launcher::{abort_edge, regular_edge, VmState, VmType};
use crate::text::str_eq;
use std::task::Waker;
use vstd::prelude::*;

verus! {

/// The ways in which the management interface can fail. Failures of the bus
/// carry the text that the bus gave for them.
#[derive(Debug, Clone, PartialEq, Eq)]
pub enum ServerError {
    FailedToConnectToSystemBus(String),
    FailedToGetName(String),
    FailedToFindServerData,
    CouldNotLockServerData,
    FailedToAddSignalHandler(String),
    /// A launch was requested while a machine was starting, running or stopping.
    VmAlreadyLaunched,
}

impl ServerError {
    /// The text shown to a user for this error.
    pub open spec fn message(self) -> Seq<char> {
        match self {
            ServerError::FailedToConnectToSystemBus(err) => "Could not connect to the system dbus: "@
                + err@,
            ServerError::FailedToGetName(err) => "Could not get the name org.cws.WindowsLauncher on the system dbus: "@
                + err@,
            ServerError::FailedToFindServerData => "Could not find ServerData"@,
            ServerError::CouldNotLockServerData => "Could not lock ServerData"@,
            ServerError::FailedToAddSignalHandler(err) => "Failed to add UPower property change signal handler: "@
                + err@,
            ServerError::VmAlreadyLaunched => "Vm Already Launched"@,
        }
    }

    /// The text shown to a user for this error.
    pub fn to_string(&self) -> (text: String)
        ensures
            text@ == self.message(),
    {
        match self {
            ServerError::FailedToConnectToSystemBus(err) => String::from_str(
                "Could not connect to the system dbus: ",
            ).concat(err.as_str()),
            ServerError::FailedToGetName(err) => String::from_str(
                "Could not get the name org.cws.WindowsLauncher on the system dbus: ",
            ).concat(err.as_str()),
            ServerError::FailedToFindServerData => String::from_str("Could not find ServerData"),
            ServerError::CouldNotLockServerData => String::from_str("Could not lock ServerData"),
            ServerError::FailedToAddSignalHandler(err) => String::from_str(
                "Failed to add UPower property change signal handler: ",
            ).concat(err.as_str()),
            ServerError::VmAlreadyLaunched => String::from_str("Vm Already Launched"),
        }
    }
}

/// What can happen to the state of the virtual machine.
#[derive(Debug, Clone, Copy, PartialEq, Eq, Structural)]
pub enum VmEvent {
    /// A client asked for a launch.
    LaunchRequested,
    /// The setup is complete and the machine was started.
    Launched,
    /// A client asked for the machine to close, or the machine ended, or the
    /// launch was given up.
    ShutdownRequested,
    /// The system was restored.
    CleanupFinished,
}

/// The state that follows `state` when `event` happens. An event that does not
/// fit the state leaves it as it is.
pub open spec fn next_state(state: VmState, event: VmEvent) -> VmState {
    match (state, event) {
        (VmState::Inactive, VmEvent::LaunchRequested) => VmState::Activating,
        (VmState::Activating, VmEvent::Launched) => VmState::Launched,
        (VmState::Activating, VmEvent::ShutdownRequested) => VmState::ShuttingDown,
        (VmState::Launched, VmEvent::ShutdownRequested) => VmState::ShuttingDown,
        (VmState::ShuttingDown, VmEvent::CleanupFinished) => VmState::Inactive,
        _ => state,
    }
}

/// The state reached from `state` after the events of `events`, in order.
pub open spec fn state_after(state: VmState, events: Seq<VmEvent>) -> VmState
    decreases events.len(),
{
    if events.len() == 0 {
        state
    } else {
        next_state(state_after(state, events.drop_last()), events.last())
    }
}

/// Data held by the server: the state of the system and who waits on it.
#[derive(Debug, Clone)]
pub struct ServerData {
    pub vm_state: Hookable<VmState>,
    pub vm_type: VmType,
    /// Whether a user session has reported in, with those who wait for one.
    pub user_connected: Hookable<bool>,
    /// Path of the input device that the virtual mouse captures.
    pub mouse_path: String,
    /// The identifier of the output device that was allocated for the
    /// virtual mouse; empty while no machine is launched.
    pub output_device: String,
    /// Whether the lid is closed.
    pub lid_is_closed: Hookable<bool>,
}

impl ServerData {
    /// The state of the virtual machine.
    pub open spec fn state(&self) -> VmState {
        self.vm_state@.value
    }

    /// The data of a server that has not been asked for anything yet.
    pub fn new() -> (data: Self)
        ensures
            data.state() == VmState::Inactive,
            data.vm_type == VmType::LookingGlass,
            data.user_connected@.value == false,
            data.lid_is_closed@.value == false,
            data.mouse_path@ == Seq::<char>::empty(),
            data.output_device@ == Seq::<char>::empty(),
            data.vm_state@.waiters.len() == 0,
            data.user_connected@.waiters.len() == 0,
            data.lid_is_closed@.waiters.len() == 0,
    {
        ServerData {
            vm_state: Hookable::new(VmState::Inactive),
            vm_type: VmType::LookingGlass,
            user_connected: Hookable::new(false),
            mouse_path: String::new(),
            output_device: String::new(),
            lid_is_closed: Hookable::new(false),
        }
    }

    /// Asks for a launch of the given variant with the given input device.
    /// Granted only while no machine is active: the request is then recorded,
    /// the state becomes `Activating` and those who wait on the state or on a
    /// user are notified. Otherwise nothing changes.
    pub fn request_launch(&mut self, vm_type: VmType, mouse_path: String) -> (granted: Result<
        (),
        ServerError,
    >)
        ensures
            old(self).state() == VmState::Inactive ==> {
                &&& granted == Ok::<(), ServerError>(())
                &&& final(self).vm_state@ == old(self).vm_state@.set(VmState::Activating)
                &&& final(self).user_connected@ == old(self).user_connected@.set(false)
                &&& final(self).vm_type == vm_type
                &&& final(self).mouse_path@ == mouse_path@
                &&& final(self).output_device@ == Seq::<char>::empty()
                &&& final(self).lid_is_closed == old(self).lid_is_closed
            },
            old(self).state() != VmState::Inactive ==> {
                &&& granted == Err::<(), ServerError>(ServerError::VmAlreadyLaunched)
                &&& *final(self) == *old(self)
            },
            final(self).state() == next_state(old(self).state(), VmEvent::LaunchRequested),
    {
        match self.vm_state.get() {
            VmState::Inactive => {
                self.vm_type = vm_type;
                self.vm_state.set(VmState::Activating);
                self.user_connected.set(false);
                self.mouse_path = mouse_path;
                self.output_device = String::new();
                Ok(())
            },
            _ => Err(ServerError::VmAlreadyLaunched),
        }
    }

    /// Asks for the machine to be shut down. While a machine is starting or
    /// running the state becomes `ShuttingDown` and those who wait on the state
    /// are notified; otherwise nothing changes. The answer tells whether the
    /// caller has to wait for the machine to become inactive.
    pub fn request_shutdown(&mut self) -> (must_wait: bool)
        ensures
            must_wait == (old(self).state() != VmState::Inactive),
            final(self).state() == next_state(old(self).state(), VmEvent::ShutdownRequested),
            old(self).state() == VmState::Inactive || old(self).state() == VmState::ShuttingDown
                ==> *final(self) == *old(self),
            old(self).state() == VmState::Activating || old(self).state() == VmState::Launched
                ==> {
                &&& final(self).vm_state@ == old(self).vm_state@.set(VmState::ShuttingDown)
                &&& final(self).vm_type == old(self).vm_type
                &&& final(self).user_connected == old(self).user_connected
                &&& final(self).mouse_path == old(self).mouse_path
                &&& final(self).output_device == old(self).output_device
                &&& final(self).lid_is_closed == old(self).lid_is_closed
            },
    {
        match self.vm_state.get() {
            VmState::Inactive => false,
            VmState::ShuttingDown => true,
            _ => {
                self.vm_state.set(VmState::ShuttingDown);
                true
            },
        }
    }

    /// The state and the variant as shown to a user.
    pub fn query(&self) -> (shown: (String, String))
        ensures
            shown.0@ == self.state().label(),
            shown.1@ == self.vm_type.label(),
    {
        (self.vm_state.get().to_string(), self.vm_type.to_string())
    }

    /// A user session reports in. While no machine is active there is nothing
    /// to join and nothing changes. Otherwise the session is recorded and
    /// those who wait for a user are notified; the session then has to wait
    /// for the launch, see [`UserReadyFuture`], to learn what to show. The
    /// answer tells whether there is a machine to wait for.
    pub fn connect_user(&mut self) -> (joined: bool)
        ensures
            joined == (old(self).state() != VmState::Inactive),
            old(self).state() == VmState::Inactive ==> *final(self) == *old(self),
            old(self).state() != VmState::Inactive ==> {
                &&& final(self).user_connected@ == old(self).user_connected@.set(true)
                &&& final(self).vm_state == old(self).vm_state
                &&& final(self).vm_type == old(self).vm_type
                &&& final(self).mouse_path == old(self).mouse_path
                &&& final(self).output_device == old(self).output_device
                &&& final(self).lid_is_closed == old(self).lid_is_closed
            },
    {
        match self.vm_state.get() {
            VmState::Inactive => false,
            _ => {
                self.user_connected.set(true);
                true
            },
        }
    }

    /// Records that the machine was started, with the identifier of the
    /// output device that was allocated for the virtual mouse. Takes effect
    /// only while the launch is under way; the answer tells whether it did.
    pub fn mark_launched(&mut self, output_device: String) -> (done: bool)
        ensures
            done == (old(self).state() == VmState::Activating),
            final(self).state() == next_state(old(self).state(), VmEvent::Launched),
            done ==> {
                &&& final(self).vm_state@ == old(self).vm_state@.set(VmState::Launched)
                &&& final(self).output_device@ == output_device@
                &&& final(self).vm_type == old(self).vm_type
                &&& final(self).user_connected == old(self).user_connected
                &&& final(self).mouse_path == old(self).mouse_path
                &&& final(self).lid_is_closed == old(self).lid_is_closed
            },
            !done ==> *final(self) == *old(self),
    {
        match self.vm_state.get() {
            VmState::Activating => {
                self.output_device = output_device;
                self.vm_state.set(VmState::Launched);
                true
            },
            _ => false,
        }
    }

    /// Records that the system was restored after a shutdown: no user counts
    /// as connected any more, no output device is allocated, and the state
    /// returns to `Inactive`. Takes effect only while the machine is shutting
    /// down; the answer tells whether it did.
    pub fn finish_cleanup(&mut self) -> (done: bool)
        ensures
            done == (old(self).state() == VmState::ShuttingDown),
            final(self).state() == next_state(old(self).state(), VmEvent::CleanupFinished),
            done ==> {
                &&& final(self).vm_state@ == old(self).vm_state@.set(VmState::Inactive)
                &&& final(self).user_connected@ == old(self).user_connected@.set(false)
                &&& final(self).output_device@ == Seq::<char>::empty()
                &&& final(self).vm_type == old(self).vm_type
                &&& final(self).mouse_path == old(self).mouse_path
                &&& final(self).lid_is_closed == old(self).lid_is_closed
            },
            !done ==> *final(self) == *old(self),
    {
        match self.vm_state.get() {
            VmState::ShuttingDown => {
                self.user_connected.set(false);
                self.output_device = String::new();
                self.vm_state.set(VmState::Inactive);
                true
            },
            _ => false,
        }
    }

    /// Takes note of a change of properties announced by the power service:
    /// a new lid state is stored, and those who wait on the lid are notified,
    /// when the announcement is of the interface `org.freedesktop.UPower` and
    /// carries one. Any other announcement changes nothing.
    pub fn lid_changed(&mut self, interface: &str, lid_is_closed: Option<bool>) -> (stored: bool)
        ensures
            stored == (interface@ == "org.freedesktop.UPower"@ && lid_is_closed is Some),
            stored ==> {
                &&& final(self).lid_is_closed@ == old(self).lid_is_closed@.set(lid_is_closed->0)
                &&& final(self).vm_state == old(self).vm_state
                &&& final(self).vm_type == old(self).vm_type
                &&& final(self).user_connected == old(self).user_connected
                &&& final(self).mouse_path == old(self).mouse_path
                &&& final(self).output_device == old(self).output_device
            },
            !stored ==> *final(self) == *old(self),
    {
        if !str_eq(interface, "org.freedesktop.UPower") {
            return false;
        }
        match lid_is_closed {
            Some(closed) => {
                self.lid_is_closed.set(closed);
                true
            },
            None => false,
        }
    }
}

impl Default for ServerData {
    /// The data of a server that has not been asked for anything yet.
    fn default() -> (data: Self)
        ensures
            data.state() == VmState::Inactive,
            data.vm_type == VmType::LookingGlass,
            data.user_connected@.value == false,
            data.lid_is_closed@.value == false,
            data.mouse_path@ == Seq::<char>::empty(),
            data.output_device@ == Seq::<char>::empty(),
    {
        ServerData::new()
    }
}

/// Every step of the life cycle stays where it is, follows a regular edge, or
/// takes the shortcut from `Activating` to `ShuttingDown`; and the shortcut is
/// taken exactly when a shutdown is asked for during activation.
pub proof fn lemma_step_follows_edge(state: VmState, event: VmEvent)
    ensures
        next_state(state, event) == state || regular_edge(state, next_state(state, event))
            || abort_edge(state, next_state(state, event)),
        abort_edge(state, next_state(state, event)) <==> (state == VmState::Activating && event
            == VmEvent::ShutdownRequested),
{
}

/// Whatever events arrive in whatever order, each of them moves the state
/// along a regular edge, along the shortcut, or not at all; and as long as no
/// shutdown is asked for during activation, only regular edges are followed.
pub proof fn lemma_run_follows_edges(start: VmState, events: Seq<VmEvent>, i: int)
    requires
        0 <= i < events.len(),
    ensures
        ({
            let before = state_after(start, events.take(i));
            let after = state_after(start, events.take(i + 1));
            &&& after == next_state(before, events[i])
            &&& after == before || regular_edge(before, after) || abort_edge(before, after)
            &&& !(before == VmState::Activating && events[i] == VmEvent::ShutdownRequested)
                ==> after == before || regular_edge(before, after)
        }),
{
    assert(events.take(i + 1).drop_last() =~= events.take(i));
    assert(events.take(i + 1).last() == events[i]);
    lemma_step_follows_edge(state_after(start, events.take(i)), events[i]);
}

/// While a machine is starting, running or stopping, any number of further
/// launch requests leaves the state as it is.
pub proof fn lemma_launch_refused_unless_inactive(state: VmState)
    requires
        state != VmState::Inactive,
    ensures
        next_state(state, VmEvent::LaunchRequested) == state,
{
}

/// One poll of a wait for the machine to reach `target`: complete when the
/// state is `target`, and otherwise a registration of a copy of `waker` with
/// those who wait on the state.
fn poll_state(data: &mut ServerData, target: VmState, waker: &Waker) -> (polled: Polled<()>)
    ensures
        old(data).state() == target ==> polled == Polled::Ready(()) && *final(data) == *old(data),
        old(data).state() != target ==> {
            &&& polled == Polled::<()>::Pending
            &&& final(data).vm_state@ == old(data).vm_state@.hook(cloned_waker(*waker))
            &&& final(data).vm_type == old(data).vm_type
            &&& final(data).user_connected == old(data).user_connected
            &&& final(data).mouse_path == old(data).mouse_path
            &&& final(data).output_device == old(data).output_device
            &&& final(data).lid_is_closed == old(data).lid_is_closed
        },
{
    if *data.vm_state.get() == target {
        Polled::Ready(())
    } else {
        data.vm_state.hook(clone_waker(waker));
        Polled::Pending
    }
}

/// What a wait on the state of the machine leaves behind when it is polled:
/// nothing once `target` is reached, and one more waiter on the state before.
pub open spec fn state_wait(
    before: ServerData,
    after: ServerData,
    target: VmState,
    waker: Waker,
    polled: Polled<()>,
) -> bool {
    if before.state() == target {
        polled == Polled::Ready(()) && after == before
    } else {
        &&& polled == Polled::<()>::Pending
        &&& after.vm_state@ == before.vm_state@.hook(cloned_waker(waker))
        &&& after.vm_type == before.vm_type
        &&& after.user_connected == before.user_connected
        &&& after.mouse_path == before.mouse_path
        &&& after.output_device == before.output_device
        &&& after.lid_is_closed == before.lid_is_closed
    }
}

/// Waits for the virtual machine to be launched.
pub struct VmLaunchedFuture {}

impl VmLaunchedFuture {
    /// Complete once the state is `Launched`; until then the waker is
    /// registered with those who wait on the state.
    pub fn poll(&mut self, data: &mut ServerData, waker: &Waker) -> (polled: Polled<()>)
        ensures
            state_wait(*old(data), *final(data), VmState::Launched, *waker, polled),
    {
        poll_state(data, VmState::Launched, waker)
    }
}

/// Waits for a launch of the virtual machine to be requested.
pub struct VmLaunchFuture {}

impl VmLaunchFuture {
    /// Complete once the state is `Activating`; until then the waker is
    /// registered with those who wait on the state.
    pub fn poll(&mut self, data: &mut ServerData, waker: &Waker) -> (polled: Polled<()>)
        ensures
            state_wait(*old(data), *final(data), VmState::Activating, *waker, polled),
    {
        poll_state(data, VmState::Activating, waker)
    }
}

/// Waits for the shutdown of the virtual machine to be complete.
pub struct VmShutdownFinishedFuture {}

impl VmShutdownFinishedFuture {
    /// Complete once the state is `Inactive`; until then the waker is
    /// registered with those who wait on the state.
    pub fn poll(&mut self, data: &mut ServerData, waker: &Waker) -> (polled: Polled<()>)
        ensures
            state_wait(*old(data), *final(data), VmState::Inactive, *waker, polled),
    {
        poll_state(data, VmState::Inactive, waker)
    }
}

/// Waits for a shutdown of the virtual machine to be requested.
pub struct VmShutdownFuture {}

impl VmShutdownFuture {
    /// Complete once the state is `ShuttingDown`; until then the waker is
    /// registered with those who wait on the state.
    pub fn poll(&mut self, data: &mut ServerData, waker: &Waker) -> (polled: Polled<()>)
        ensures
            state_wait(*old(data), *final(data), VmState::ShuttingDown, *waker, polled),
    {
        poll_state(data, VmState::ShuttingDown, waker)
    }
}

/// What a user session is told once the machine is launched.
#[derive(Debug, Clone, PartialEq, Eq)]
pub struct UserReady {
    /// The identifier of the output device allocated for the virtual mouse.
    pub output_device: String,
    /// The variant as which the machine runs.
    pub vm_type: VmType,
}

/// Waits, on behalf of a user session that has reported in, for the machine
/// to be launched.
pub struct UserReadyFuture {}

impl UserReadyFuture {
    /// Complete once the state is `Launched`, with the identifier of the
    /// output device and the variant together; until then the waker is
    /// registered with those who wait on the state.
    pub fn poll(&mut self, data: &mut ServerData, waker: &Waker) -> (polled: Polled<UserReady>)
        ensures
            old(data).state() == VmState::Launched ==> {
                &&& polled is Ready
                &&& polled->Ready_0.output_device@ == old(data).output_device@
                &&& polled->Ready_0.vm_type == old(data).vm_type
                &&& *final(data) == *old(data)
            },
            old(data).state() != VmState::Launched ==> {
                &&& polled is Pending
                &&& final(data).vm_state@ == old(data).vm_state@.hook(cloned_waker(*waker))
                &&& final(data).vm_type == old(data).vm_type
                &&& final(data).user_connected == old(data).user_connected
                &&& final(data).mouse_path == old(data).mouse_path
                &&& final(data).output_device == old(data).output_device
                &&& final(data).lid_is_closed == old(data).lid_is_closed
            },
    {
        match poll_state(data, VmState::Launched, waker) {
            Polled::Ready(_) => Polled::Ready(
                UserReady { output_device: data.output_device.clone(), vm_type: data.vm_type },
            ),
            Polled::Pending => Polled::Pending,
        }
    }
}

/// Waits for a user session to report in.
pub struct UserConnectedFuture {}

impl UserConnectedFuture {
    /// Complete once a user is connected; until then the waker is registered
    /// with those who wait for one.
    pub fn poll(&mut self, data: &mut ServerData, waker: &Waker) -> (polled: Polled<()>)
        ensures
            old(data).user_connected@.value ==> polled == Polled::Ready(()) && *final(data) == *old(data),
            !old(data).user_connected@.value ==> {
                &&& polled == Polled::<()>::Pending
                &&& final(data).user_connected@ == old(data).user_connected@.hook(
                    cloned_waker(*waker),
                )
                &&& final(data).vm_state == old(data).vm_state
                &&& final(data).vm_type == old(data).vm_type
                &&& final(data).mouse_path == old(data).mouse_path
                &&& final(data).output_device == old(data).output_device
                &&& final(data).lid_is_closed == old(data).lid_is_closed
            },
    {
        if *data.user_connected.get() {
            Polled::Ready(())
        } else {
            data.user_connected.hook(clone_waker(waker));
            Polled::Pending
        }
    }
}

/// Waits for the virtual machine to need pausing or resuming: the machine is
/// to be paused while the lid is closed.
pub struct VmPauseFuture {
    /// Whether the machine is paused at present.
    pub cur_pause_state: bool,
}

impl VmPauseFuture {
    /// Whether a poll finds that the pause state has to change: the machine
    /// is launched and the lid is not as the pause state has it.
    pub open spec fn due(&self, data: &ServerData) -> bool {
        data.state() == VmState::Launched && data.lid_is_closed@.value != self.cur_pause_state
    }

    /// Complete, with the pause state to go to, once the machine is launched
    /// and the lid differs from the current pause state. Until then the waker
    /// is registered both with those who wait on the state and with those who
    /// wait on the lid, and a machine that is not launched counts as not
    /// paused.
    pub fn poll(&mut self, data: &mut ServerData, waker: &Waker) -> (polled: Polled<bool>)
        ensures
            old(self).due(old(data)) ==> {
                &&& polled == Polled::Ready(old(data).lid_is_closed@.value)
                &&& *final(data) == *old(data)
                &&& *final(self) == *old(self)
            },
            !old(self).due(old(data)) ==> {
                &&& polled == Polled::<bool>::Pending
                &&& final(data).vm_state@ == old(data).vm_state@.hook(cloned_waker(*waker))
                &&& final(data).lid_is_closed@ == old(data).lid_is_closed@.hook(
                    cloned_waker(*waker),
                )
                &&& final(data).vm_type == old(data).vm_type
                &&& final(data).user_connected == old(data).user_connected
                &&& final(data).mouse_path == old(data).mouse_path
                &&& final(data).output_device == old(data).output_device
                &&& final(self).cur_pause_state == (old(data).state() == VmState::Launched && old(self).cur_pause_state)
            },
    {
        let launched = match data.vm_state.get() {
            VmState::Launched => true,
            _ => false,
        };
        let lid = *data.lid_is_closed.get();
        if launched && lid != self.cur_pause_state {
            return Polled::Ready(lid);
        }
        data.vm_state.hook(clone_waker(waker));
        data.lid_is_closed.hook(clone_waker(waker));
        if !launched {
            self.cur_pause_state = false;
        }
        Polled::Pending
    }
}

} // verus!
