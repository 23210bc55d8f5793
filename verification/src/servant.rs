//! The client that runs for each user who logs in while the machine is up:
//! it turns the real mouse off, shows the viewer, and turns the mouse on
//! again when the viewer closes or the machine shuts down.

use crate::launcher::VmType;
use crate::text::str_eq;
use vstd::prelude::*;

verus! {

/// Whether the client is through: the viewer has closed or the server has
/// signalled the shutdown of the machine.
pub fn check_futures(viewer_closed: bool, shutdown_signalled: bool) -> (through: bool)
    ensures
        through == (viewer_closed || shutdown_signalled),
{
    viewer_closed || shutdown_signalled
}

/// The variant whose viewer the client shows, given the name under which
/// the server announced the machine: Looking Glass for `lg`, and the Spice
/// viewer for anything else.
pub fn announced_variant(tag: &str) -> (vm_type: VmType)
    ensures
        vm_type == if tag@ == "lg"@ {
            VmType::LookingGlass
        } else {
            VmType::Spice
        },
{
    if str_eq(tag, "lg") {
        VmType::LookingGlass
    } else {
        VmType::Spice
    }
}

/// The ways in which the client of a user can fail.
#[derive(Debug, Clone, PartialEq, Eq)]
pub enum ServantError {
    FailedToConnectToSystemBus(String),
    FailedToCallDBusMethod(String),
    FailedToCallXInputList(String),
    FailedToParseDataFromXInput,
    FailedToToggleMouse(String),
    FailedToStartLookingGlass(String),
    FailedToStartVirtViewer(String),
    LostConnectionToDBus(String),
    FailedToConvertOutputToString(String),
    FailedToFindMouseIDFromXInput,
}

impl ServantError {
    /// The text shown to a user for this error.
    pub open spec fn message(self) -> Seq<char> {
        match self {
            ServantError::FailedToConnectToSystemBus(reason) => "Failed to connect to the system dbus: "@
                + reason@,
            ServantError::FailedToCallDBusMethod(reason) => "Failed to call the UserReady method on the system bus: "@
                + reason@,
            ServantError::FailedToCallXInputList(reason) => "Call to xinput list failed: "@
                + reason@,
            ServantError::FailedToParseDataFromXInput => "Parsing data from xinput failed, unknown cause"@,
            ServantError::FailedToToggleMouse(reason) => "Using xinput to toggle mouse failed: "@
                + reason@,
            ServantError::FailedToStartLookingGlass(reason) => "Failed to start looking glass client: "@
                + reason@,
            ServantError::FailedToStartVirtViewer(reason) => "Failed to start virt viewer: "@
                + reason@,
            ServantError::LostConnectionToDBus(reason) => "Connection to system bus was dropped: "@
                + reason@,
            ServantError::FailedToConvertOutputToString(reason) => "could not convert output of xinput list to a string: "@
                + reason@,
            ServantError::FailedToFindMouseIDFromXInput => "Could not find the correct mouse id from xinput"@,
        }
    }

    /// The text shown to a user for this error.
    pub fn to_string(&self) -> (text: String)
        ensures
            text@ == self.message(),
    {
        match self {
            ServantError::FailedToConnectToSystemBus(reason) => {
                let mut text = String::from_str("Failed to connect to the system dbus: ");
                text.append(reason.as_str());
                text
            },
            ServantError::FailedToCallDBusMethod(reason) => {
                let mut text = String::from_str("Failed to call the UserReady method on the system bus: ");
                text.append(reason.as_str());
                text
            },
            ServantError::FailedToCallXInputList(reason) => {
                let mut text = String::from_str("Call to xinput list failed: ");
                text.append(reason.as_str());
                text
            },
            ServantError::FailedToParseDataFromXInput => String::from_str("Parsing data from xinput failed, unknown cause"),
            ServantError::FailedToToggleMouse(reason) => {
                let mut text = String::from_str("Using xinput to toggle mouse failed: ");
                text.append(reason.as_str());
                text
            },
            ServantError::FailedToStartLookingGlass(reason) => {
                let mut text = String::from_str("Failed to start looking glass client: ");
                text.append(reason.as_str());
                text
            },
            ServantError::FailedToStartVirtViewer(reason) => {
                let mut text = String::from_str("Failed to start virt viewer: ");
                text.append(reason.as_str());
                text
            },
            ServantError::LostConnectionToDBus(reason) => {
                let mut text = String::from_str("Connection to system bus was dropped: ");
                text.append(reason.as_str());
                text
            },
            ServantError::FailedToConvertOutputToString(reason) => {
                let mut text = String::from_str("could not convert output of xinput list to a string: ");
                text.append(reason.as_str());
                text
            },
            ServantError::FailedToFindMouseIDFromXInput => String::from_str("Could not find the correct mouse id from xinput"),
        }
    }
}

} // verus!
