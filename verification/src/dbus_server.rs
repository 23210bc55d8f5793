//! What the bus service and the main program tell each other: how many user
//! sessions are connected, whether the machine is launched, and who waits
//! for either to change.

use crate::hookable::{clone_waker, cloned_waker, notify, notify_all, Polled};
use crate::launcher::VmType;
use futures::task::AtomicWaker;
use std::task::Waker;
use vstd::prelude::*;

verus! {

/// `futures::task::AtomicWaker`: a cell that holds the waker of one task at
/// most.
#[verifier::external_type_specification]
#[verifier::external_body]
pub struct ExAtomicWaker(AtomicWaker);

/// Whether a waker is registered in the cell.
pub uninterp spec fn registered(cell: AtomicWaker) -> bool;

/// Calls `AtomicWaker::new`, which makes a cell with no waker in it.
#[verifier::external_body]
fn empty_cell() -> (cell: AtomicWaker)
    ensures
        !registered(cell),
{
    AtomicWaker::new()
}

/// Calls `AtomicWaker::register`. While nobody else uses the cell, which
/// the exclusive borrow sees to, the cell holds a waker afterwards: the one
/// given, or the one it held if that wakes the same task.
#[verifier::external_body]
fn register(cell: &mut AtomicWaker, waker: &Waker)
    ensures
        registered(*final(cell)),
{
    cell.register(waker);
}

/// Calls `AtomicWaker::take`. While nobody else uses the cell, the waker
/// that it holds is handed out, if it holds one, and none is left in it.
#[verifier::external_body]
fn take(cell: &mut AtomicWaker) -> (waker: Option<Waker>)
    ensures
        waker is Some == registered(*old(cell)),
        !registered(*final(cell)),
{
    cell.take()
}

/// The identifier of the mouse that stands for "none yet".
pub const NO_MOUSE: u32 = 10000;

/// Used to communicate between the bus service and the main program.
#[derive(Debug)]
pub struct Communicator {
    user_count: u32,
    user_ready_waker: AtomicWaker,
    no_user_waker: AtomicWaker,
    vm_launched: bool,
    mouse_input_id: u32,
    vm_launched_wakers: Vec<Waker>,
}

/// The communicator, as plain values.
pub struct CommunicatorView {
    /// How many user sessions are connected.
    pub user_count: nat,
    /// Whether someone waits for a user to connect.
    pub login_awaited: bool,
    /// Whether someone waits for the last user to leave.
    pub logout_awaited: bool,
    pub vm_launched: bool,
    /// The identifier of the input device behind the virtual mouse.
    pub mouse_input_id: u32,
    /// Those who wait for the machine to be launched, oldest first.
    pub launch_waiters: Seq<Waker>,
}

impl View for Communicator {
    type V = CommunicatorView;

    closed spec fn view(&self) -> CommunicatorView {
        CommunicatorView {
            user_count: self.user_count as nat,
            login_awaited: registered(self.user_ready_waker),
            logout_awaited: registered(self.no_user_waker),
            vm_launched: self.vm_launched,
            mouse_input_id: self.mouse_input_id,
            launch_waiters: self.vm_launched_wakers@,
        }
    }
}

impl Communicator {
    /// A communicator for a machine that is not launched, with no user
    /// connected and nobody waiting.
    pub fn new() -> (communicator: Self)
        ensures
            communicator@ == (CommunicatorView {
                user_count: 0,
                login_awaited: false,
                logout_awaited: false,
                vm_launched: false,
                mouse_input_id: NO_MOUSE,
                launch_waiters: Seq::empty(),
            }),
    {
        Communicator {
            user_count: 0,
            user_ready_waker: empty_cell(),
            no_user_waker: empty_cell(),
            vm_launched: false,
            mouse_input_id: NO_MOUSE,
            vm_launched_wakers: Vec::new(),
        }
    }

    /// How many user sessions are connected.
    pub fn user_count(&self) -> (count: u32)
        ensures
            count == self@.user_count,
    {
        self.user_count
    }

    /// A user session is ready: it is counted, and whoever waits for a user
    /// to connect is notified. The count stops at the largest number that it
    /// can hold.
    pub fn user_ready(&mut self)
        ensures
            final(self)@ == (CommunicatorView {
                user_count: if old(self)@.user_count < u32::MAX {
                    old(self)@.user_count + 1
                } else {
                    old(self)@.user_count
                },
                login_awaited: false,
                ..old(self)@
            }),
    {
        if self.user_count < u32::MAX {
            self.user_count = self.user_count + 1;
        }
        match take(&mut self.user_ready_waker) {
            Some(waker) => {
                notify(&waker);
            },
            None => {},
        }
    }

    /// A user has closed the viewer: the count goes down by one, though not
    /// below zero, and once it is zero whoever waits for the last user to
    /// leave is notified.
    pub fn user_closed(&mut self)
        ensures
            final(self)@ == (CommunicatorView {
                user_count: if old(self)@.user_count > 0 {
                    (old(self)@.user_count - 1) as nat
                } else {
                    0
                },
                logout_awaited: old(self)@.logout_awaited && old(self)@.user_count > 1,
                ..old(self)@
            }),
    {
        if self.user_count > 0 {
            self.user_count = self.user_count - 1;
        }
        if self.user_count == 0 {
            match take(&mut self.no_user_waker) {
                Some(waker) => {
                    notify(&waker);
                },
                None => {},
            }
        }
    }

    /// The machine is launched: the identifier of the mouse is kept for the
    /// users, and everyone who waits for the launch is notified.
    pub fn inform_users(&mut self, input_mouse_id: u32)
        ensures
            final(self)@ == (CommunicatorView {
                vm_launched: true,
                mouse_input_id: input_mouse_id,
                launch_waiters: Seq::empty(),
                ..old(self)@
            }),
    {
        self.mouse_input_id = input_mouse_id;
        self.vm_launched = true;
        let mut due: Vec<Waker> = Vec::new();
        std::mem::swap(&mut self.vm_launched_wakers, &mut due);
        notify_all(&due);
    }
}

/// Waits for the machine to be launched, and yields the identifier of the
/// mouse.
pub struct VmLaunchFuture {}

impl VmLaunchFuture {
    /// Complete, with the identifier of the mouse, once the machine is
    /// launched; until then a copy of the waker joins those who wait for the
    /// launch.
    pub fn poll(&mut self, communicator: &mut Communicator, waker: &Waker) -> (polled: Polled<
        u32,
    >)
        ensures
            old(communicator)@.vm_launched ==> polled == Polled::Ready(
                old(communicator)@.mouse_input_id,
            ) && final(communicator)@ == old(communicator)@,
            !old(communicator)@.vm_launched ==> polled == Polled::<u32>::Pending && final(communicator)@ == (CommunicatorView {
                launch_waiters: old(communicator)@.launch_waiters.push(cloned_waker(*waker)),
                ..old(communicator)@
            }),
    {
        if communicator.vm_launched {
            Polled::Ready(communicator.mouse_input_id)
        } else {
            communicator.vm_launched_wakers.push(clone_waker(waker));
            Polled::Pending
        }
    }
}

/// Waits for a user session to be connected.
pub struct UserLoginFuture {}

impl UserLoginFuture {
    /// Complete once a user is connected; until then the waker takes the
    /// place of whoever waited for a user before.
    pub fn poll(&mut self, communicator: &mut Communicator, waker: &Waker) -> (polled: Polled<()>)
        ensures
            old(communicator)@.user_count > 0 ==> polled == Polled::Ready(()) && final(communicator)@ == old(communicator)@,
            old(communicator)@.user_count == 0 ==> polled == Polled::<()>::Pending && final(communicator)@ == (CommunicatorView { login_awaited: true, ..old(communicator)@ }),
    {
        if communicator.user_count > 0 {
            Polled::Ready(())
        } else {
            register(&mut communicator.user_ready_waker, waker);
            Polled::Pending
        }
    }
}

/// Waits for the last user to leave.
pub struct NoUserFuture {}

impl NoUserFuture {
    /// Complete once no user is connected; until then the waker takes the
    /// place of whoever waited for that before.
    pub fn poll(&mut self, communicator: &mut Communicator, waker: &Waker) -> (polled: Polled<()>)
        ensures
            old(communicator)@.user_count == 0 ==> polled == Polled::Ready(()) && final(communicator)@ == old(communicator)@,
            old(communicator)@.user_count > 0 ==> polled == Polled::<()>::Pending && final(communicator)@ == (CommunicatorView { logout_awaited: true, ..old(communicator)@ }),
    {
        if communicator.user_count == 0 {
            Polled::Ready(())
        } else {
            register(&mut communicator.no_user_waker, waker);
            Polled::Pending
        }
    }
}

/// The ways in which the bus service can fail, each with the reason that
/// the system gave.
#[derive(Debug, Clone, PartialEq, Eq)]
pub enum DBusError {
    SystemBusLost(String),
    MethodCallError(String),
    RequestNameFailed(String),
    FailedToSendShutdownSignal,
    FailedToReadRunUserDir(String),
    FailedToTurnFilenameIntoString(String),
    FailedToOpenUserChannel(String),
    FailedToRegisterUserChannel(String),
    FailedToOpenDBusSession(String),
    FailedToConnectToSystemBus(String),
}

impl DBusError {
    /// The text shown to a user for this error.
    pub open spec fn message(self) -> Seq<char> {
        match self {
            DBusError::SystemBusLost(reason) => "Connection to System Bus was lost: "@ + reason@,
            DBusError::MethodCallError(reason) => "Could not call dbus method: "@ + reason@,
            DBusError::RequestNameFailed(reason) => "Failed to request name from system bus: "@
                + reason@,
            DBusError::FailedToSendShutdownSignal => "Failed to send shutdown signal"@,
            DBusError::FailedToReadRunUserDir(reason) => "Failed to read /run/user directory: "@
                + reason@,
            DBusError::FailedToTurnFilenameIntoString(reason) => "Could not convert filename to string: "@
                + reason@,
            DBusError::FailedToOpenUserChannel(reason) => "Could not open user channel: "@
                + reason@,
            DBusError::FailedToRegisterUserChannel(reason) => "Could not register user channel: "@
                + reason@,
            DBusError::FailedToOpenDBusSession(reason) => "Failed to open dbus session: "@
                + reason@,
            DBusError::FailedToConnectToSystemBus(reason) => "Failed to connect to system bus: "@
                + reason@,
        }
    }

    /// The text shown to a user for this error.
    pub fn to_string(&self) -> (text: String)
        ensures
            text@ == self.message(),
    {
        match self {
            DBusError::SystemBusLost(reason) => {
                let mut text = String::from_str("Connection to System Bus was lost: ");
                text.append(reason.as_str());
                text
            },
            DBusError::MethodCallError(reason) => {
                let mut text = String::from_str("Could not call dbus method: ");
                text.append(reason.as_str());
                text
            },
            DBusError::RequestNameFailed(reason) => {
                let mut text = String::from_str("Failed to request name from system bus: ");
                text.append(reason.as_str());
                text
            },
            DBusError::FailedToSendShutdownSignal => String::from_str("Failed to send shutdown signal"),
            DBusError::FailedToReadRunUserDir(reason) => {
                let mut text = String::from_str("Failed to read /run/user directory: ");
                text.append(reason.as_str());
                text
            },
            DBusError::FailedToTurnFilenameIntoString(reason) => {
                let mut text = String::from_str("Could not convert filename to string: ");
                text.append(reason.as_str());
                text
            },
            DBusError::FailedToOpenUserChannel(reason) => {
                let mut text = String::from_str("Could not open user channel: ");
                text.append(reason.as_str());
                text
            },
            DBusError::FailedToRegisterUserChannel(reason) => {
                let mut text = String::from_str("Could not register user channel: ");
                text.append(reason.as_str());
                text
            },
            DBusError::FailedToOpenDBusSession(reason) => {
                let mut text = String::from_str("Failed to open dbus session: ");
                text.append(reason.as_str());
                text
            },
            DBusError::FailedToConnectToSystemBus(reason) => {
                let mut text = String::from_str("Failed to connect to system bus: ");
                text.append(reason.as_str());
                text
            },
        }
    }
}

/// The name under which a variant of the machine is announced to the
/// sessions of the users.
pub fn variant_tag(vm_type: VmType) -> (tag: &'static str)
    ensures
        tag@ == match vm_type {
            VmType::LookingGlass => "lg"@,
            VmType::Spice => "spice"@,
        },
{
    match vm_type {
        VmType::LookingGlass => "lg",
        VmType::Spice => "spice",
    }
}

} // verus!
