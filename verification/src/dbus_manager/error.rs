//! The errors of the work on the buses.

use crate::text::{decimal, decimal_text};
use vstd::prelude::*;

verus! {

/// The ways in which the work on the buses can fail. An error names the
/// user, address or session concerned and carries the reason that the
/// system gave.
#[derive(Debug, Clone, PartialEq, Eq)]
pub enum DBusError {
    FailedToConnectToSystemBus(String),
    SystemBusLost(String),
    UserBusLost(u32, String),
    MethodCallError(String),
    UserMethodCallError(u32, String),
    PropertyQueryError(String),
    UserPropertyQueryError(u32, String),
    FailedToSetEUID(u32, String),
    FailedToOpenChannel(String, String),
    FailedToRegisterChannel(String, String),
    FailedToConnectToUserBus(u32, String),
    FailedToGetSessions(String),
    FailedToAqcuireConnectionsLock(String),
    FailedToGetSessionClass(String, String),
    FailedToGetSessionDisplay(String, String),
    FailedToGetSessionUser(String, String),
    FailedToGetUserRuntimePath(String, String),
    FailedToGetSystemdEnvironment(u32, String),
    FailedToAddSignalMatchToSystemBus(String),
}

impl DBusError {
    /// The text shown to a user for this error.
    pub open spec fn message(self) -> Seq<char> {
        match self {
            DBusError::FailedToConnectToSystemBus(reason) => "Failed to connect to system bus: "@
                + reason@,
            DBusError::SystemBusLost(reason) => "Connection to System Bus was lost: "@ + reason@,
            DBusError::UserBusLost(uid, reason) => "Connection to the user "@ + decimal(uid as nat)
                + "'s, bus was lost: "@ + reason@,
            DBusError::MethodCallError(reason) => "Could not call dbus method: "@ + reason@,
            DBusError::UserMethodCallError(uid, reason) => "Could not call user dbus method for user "@
                + decimal(uid as nat) + ", with error: "@ + reason@,
            DBusError::PropertyQueryError(reason) => "Failed to Query for property: "@ + reason@,
            DBusError::UserPropertyQueryError(uid, reason) => "Failed to Query for user bus property for user "@
                + decimal(uid as nat) + ", with error: "@ + reason@,
            DBusError::FailedToSetEUID(uid, reason) => "Could not set the effective uid "@
                + decimal(uid as nat) + ", err: "@ + reason@,
            DBusError::FailedToOpenChannel(subject, reason) => "Could not open the channel with address "@
                + subject@ + ", with error: "@ + reason@,
            DBusError::FailedToRegisterChannel(subject, reason) => "Could not register channel with address "@
                + subject@ + ", with error: "@ + reason@,
            DBusError::FailedToConnectToUserBus(uid, reason) => "Connecting to user "@
                + decimal(uid as nat) + "'s bus failed with error: "@ + reason@,
            DBusError::FailedToGetSessions(reason) => "Call to login1 of ListSessions failed: "@
                + reason@,
            DBusError::FailedToAqcuireConnectionsLock(reason) => "Session handler failed to lock the dbus connections mutex: "@
                + reason@,
            DBusError::FailedToGetSessionClass(subject, reason) => "Could not get class from session: "@
                + subject@ + ", with err: "@ + reason@,
            DBusError::FailedToGetSessionDisplay(subject, reason) => "Could not get display from session: "@
                + subject@ + ", with err: "@ + reason@,
            DBusError::FailedToGetSessionUser(subject, reason) => "Could not get user path from session: "@
                + subject@ + ", with err: "@ + reason@,
            DBusError::FailedToGetUserRuntimePath(subject, reason) => "Could not get the runtime path from login1 for user: "@
                + subject@ + ", with error: "@ + reason@,
            DBusError::FailedToGetSystemdEnvironment(uid, reason) => "Could not get environment property from user "@
                + decimal(uid as nat) + "'s, systemd dbus service with err: "@ + reason@,
            DBusError::FailedToAddSignalMatchToSystemBus(reason) => "Failed to add signal match to the system bus: "@
                + reason@,
        }
    }

    /// The text shown to a user for this error.
    pub fn to_string(&self) -> (text: String)
        ensures
            text@ == self.message(),
    {
        match self {
            DBusError::FailedToConnectToSystemBus(reason) => {
                let mut text = String::from_str("Failed to connect to system bus: ");
                text.append(reason.as_str());
                text
            },
            DBusError::SystemBusLost(reason) => {
                let mut text = String::from_str("Connection to System Bus was lost: ");
                text.append(reason.as_str());
                text
            },
            DBusError::UserBusLost(uid, reason) => {
                let mut text = String::from_str("Connection to the user ");
                text.append(decimal_text(*uid).as_str());
                text.append("'s, bus was lost: ");
                text.append(reason.as_str());
                text
            },
            DBusError::MethodCallError(reason) => {
                let mut text = String::from_str("Could not call dbus method: ");
                text.append(reason.as_str());
                text
            },
            DBusError::UserMethodCallError(uid, reason) => {
                let mut text = String::from_str("Could not call user dbus method for user ");
                text.append(decimal_text(*uid).as_str());
                text.append(", with error: ");
                text.append(reason.as_str());
                text
            },
            DBusError::PropertyQueryError(reason) => {
                let mut text = String::from_str("Failed to Query for property: ");
                text.append(reason.as_str());
                text
            },
            DBusError::UserPropertyQueryError(uid, reason) => {
                let mut text = String::from_str("Failed to Query for user bus property for user ");
                text.append(decimal_text(*uid).as_str());
                text.append(", with error: ");
                text.append(reason.as_str());
                text
            },
            DBusError::FailedToSetEUID(uid, reason) => {
                let mut text = String::from_str("Could not set the effective uid ");
                text.append(decimal_text(*uid).as_str());
                text.append(", err: ");
                text.append(reason.as_str());
                text
            },
            DBusError::FailedToOpenChannel(subject, reason) => {
                let mut text = String::from_str("Could not open the channel with address ");
                text.append(subject.as_str());
                text.append(", with error: ");
                text.append(reason.as_str());
                text
            },
            DBusError::FailedToRegisterChannel(subject, reason) => {
                let mut text = String::from_str("Could not register channel with address ");
                text.append(subject.as_str());
                text.append(", with error: ");
                text.append(reason.as_str());
                text
            },
            DBusError::FailedToConnectToUserBus(uid, reason) => {
                let mut text = String::from_str("Connecting to user ");
                text.append(decimal_text(*uid).as_str());
                text.append("'s bus failed with error: ");
                text.append(reason.as_str());
                text
            },
            DBusError::FailedToGetSessions(reason) => {
                let mut text = String::from_str("Call to login1 of ListSessions failed: ");
                text.append(reason.as_str());
                text
            },
            DBusError::FailedToAqcuireConnectionsLock(reason) => {
                let mut text = String::from_str("Session handler failed to lock the dbus connections mutex: ");
                text.append(reason.as_str());
                text
            },
            DBusError::FailedToGetSessionClass(subject, reason) => {
                let mut text = String::from_str("Could not get class from session: ");
                text.append(subject.as_str());
                text.append(", with err: ");
                text.append(reason.as_str());
                text
            },
            DBusError::FailedToGetSessionDisplay(subject, reason) => {
                let mut text = String::from_str("Could not get display from session: ");
                text.append(subject.as_str());
                text.append(", with err: ");
                text.append(reason.as_str());
                text
            },
            DBusError::FailedToGetSessionUser(subject, reason) => {
                let mut text = String::from_str("Could not get user path from session: ");
                text.append(subject.as_str());
                text.append(", with err: ");
                text.append(reason.as_str());
                text
            },
            DBusError::FailedToGetUserRuntimePath(subject, reason) => {
                let mut text = String::from_str("Could not get the runtime path from login1 for user: ");
                text.append(subject.as_str());
                text.append(", with error: ");
                text.append(reason.as_str());
                text
            },
            DBusError::FailedToGetSystemdEnvironment(uid, reason) => {
                let mut text = String::from_str("Could not get environment property from user ");
                text.append(decimal_text(*uid).as_str());
                text.append("'s, systemd dbus service with err: ");
                text.append(reason.as_str());
                text
            },
            DBusError::FailedToAddSignalMatchToSystemBus(reason) => {
                let mut text = String::from_str("Failed to add signal match to the system bus: ");
                text.append(reason.as_str());
                text
            },
        }
    }
}

} // verus!
