//! What the virtual mouse needs decided: which event device is which, how
//! the real mouse is found among the pointers of a display, how the input
//! device is opened, and which button events are due.

use crate::text::{
    contains_bytes, decimal, decimal_text, has_prefix, occurs, parse_u32, parsed_u32, strip_prefix,
    text_views,
};
use vstd::prelude::*;

verus! {

/// The interface through which the input library opens devices.
#[derive(Debug, Default, Clone, Copy, PartialEq, Eq)]
pub struct Interface;

impl Interface {
    /// Whether a device is to be opened for reading and for writing, given
    /// the flags of the request and the values that the system has for
    /// read-only, write-only and read-write access.
    pub fn access(flags: i32, read_only: i32, write_only: i32, read_write: i32) -> (modes: (
        bool,
        bool,
    ))
        ensures
            modes.0 == ((flags & read_only != 0) || (flags & read_write != 0)),
            modes.1 == ((flags & write_only != 0) || (flags & read_write != 0)),
    {
        (
            (flags & read_only != 0) || (flags & read_write != 0),
            (flags & write_only != 0) || (flags & read_write != 0),
        )
    }
}

/// The name of the event device with the given number.
pub open spec fn event_name(id: u32) -> Seq<char> {
    "event"@ + decimal(id as nat)
}

/// The name of the event device with the given number.
pub fn event_name_text(id: u32) -> (name: String)
    ensures
        name@ == event_name(id),
{
    String::from_str("event").concat(decimal_text(id).as_str())
}

/// What stands behind `event` in a name that begins so.
pub open spec fn behind_event(name: Seq<char>) -> Seq<char> {
    name.subrange("event"@.len() as int, name.len() as int)
}

/// The number of the input device, from the name that the system gives it:
/// the name has to be `event` with a number behind it.
pub fn event_id(sysname: &str) -> (id: Result<u32, MouseError>)
    ensures
        !has_prefix(sysname@, "event"@) ==> id == Err::<u32, MouseError>(
            MouseError::FailedToStripEventFromSysname,
        ),
        has_prefix(sysname@, "event"@) && parsed_u32(behind_event(sysname@)) is Some ==> id == Ok::<
            u32,
            MouseError,
        >(parsed_u32(behind_event(sysname@))->0),
        has_prefix(sysname@, "event"@) && parsed_u32(behind_event(sysname@)) is None ==> id matches Err(
            MouseError::FailedToParseSysnameForID(_),
        ),
{
    match strip_prefix(sysname, "event") {
        None => Err(MouseError::FailedToStripEventFromSysname),
        Some(rest) => match parse_u32(rest.as_str()) {
            Ok(id) => Ok(id),
            Err(reason) => Err(MouseError::FailedToParseSysnameForID(reason)),
        },
    }
}

/// The first of `names` that begins with `event`, if any does.
pub open spec fn first_event_entry(names: Seq<Seq<char>>) -> Option<Seq<char>>
    decreases names.len(),
{
    if names.len() == 0 {
        None
    } else if has_prefix(names[0], "event"@) {
        Some(names[0])
    } else {
        first_event_entry(names.drop_first())
    }
}

/// The number of the output device, from the names of the entries in the
/// directory that the system keeps for the virtual mouse: the first entry
/// that begins with `event` has to carry the number.
pub fn output_event_id(names: &Vec<String>) -> (id: Result<u32, MouseError>)
    ensures
        first_event_entry(text_views(names@)) is None ==> id == Err::<u32, MouseError>(
            MouseError::FailedToFindEventFileInOutputSyspath,
        ),
        first_event_entry(text_views(names@)) is Some && parsed_u32(
            behind_event(first_event_entry(text_views(names@))->0),
        ) is Some ==> id == Ok::<u32, MouseError>(
            parsed_u32(behind_event(first_event_entry(text_views(names@))->0))->0,
        ),
        first_event_entry(text_views(names@)) is Some && parsed_u32(
            behind_event(first_event_entry(text_views(names@))->0),
        ) is None ==> id matches Err(MouseError::FailedToParseEventFileForOutputID(_)),
{
    let mut i: usize = 0;
    proof {
        assert(text_views(names@).skip(0) =~= text_views(names@));
    }
    while i < names.len()
        invariant
            i <= names@.len(),
            first_event_entry(text_views(names@)) == first_event_entry(
                text_views(names@).skip(i as int),
            ),
        decreases names@.len() - i,
    {
        proof {
            let rest = text_views(names@).skip(i as int);
            assert(rest[0] == names@[i as int]@);
            assert(rest.drop_first() =~= text_views(names@).skip(i + 1));
        }
        match strip_prefix(names[i].as_str(), "event") {
            Some(number) => {
                return match parse_u32(number.as_str()) {
                    Ok(id) => Ok(id),
                    Err(reason) => Err(MouseError::FailedToParseEventFileForOutputID(reason)),
                };
            },
            None => {},
        }
        i += 1;
    }
    Err(MouseError::FailedToFindEventFileInOutputSyspath)
}

/// Whether the properties that a display lists for a pointer name the event
/// device with the given number: such a pointer is the real mouse.
pub open spec fn names_device(properties: Seq<u8>, input_id: u32) -> bool {
    occurs(properties, vstd::utf8::encode_utf8(event_name(input_id)))
}

/// Whether the properties that a display lists for a pointer name the event
/// device with the given number.
pub fn mouse_matches(properties: &[u8], input_id: u32) -> (found: bool)
    ensures
        found == names_device(properties@, input_id),
{
    let name = event_name_text(input_id);
    contains_bytes(properties, name.as_str().as_bytes())
}

/// The flag that turns a pointer of a display on or off.
pub fn toggle_flag(enable: bool) -> (flag: &'static str)
    ensures
        flag@ == if enable {
            "--enable"@
        } else {
            "--disable"@
        },
{
    if enable {
        "--enable"
    } else {
        "--disable"
    }
}

/// The buttons of the mouse.
#[derive(Debug, Clone, Copy, PartialEq, Eq, Structural)]
pub enum Button {
    Left,
    Right,
    Middle,
}

impl Button {
    /// The button that the system knows under the code `code`, if it is one
    /// of the three.
    pub open spec fn of_code(code: u32) -> Option<Button> {
        if code == 272 {
            Some(Button::Left)
        } else if code == 273 {
            Some(Button::Right)
        } else if code == 274 {
            Some(Button::Middle)
        } else {
            None
        }
    }

    /// The button that the system knows under the code `code`.
    pub fn from_code(code: u32) -> (button: Option<Button>)
        ensures
            button == Button::of_code(code),
    {
        if code == 272 {
            Some(Button::Left)
        } else if code == 273 {
            Some(Button::Right)
        } else if code == 274 {
            Some(Button::Middle)
        } else {
            None
        }
    }
}

/// What happened to the buttons of the mouse since events were last sent
/// on: for each button 1 if it was pressed last, 0 if it was released last,
/// and nothing if it was not touched.
#[derive(Debug, Default, Clone, Copy, PartialEq, Eq)]
pub struct ButtonState {
    pub left_button_event: Option<i32>,
    pub right_button_event: Option<i32>,
    pub middle_button_event: Option<i32>,
}

/// The value that stands for a button being pressed or released.
pub open spec fn button_value(pressed: bool) -> i32 {
    if pressed {
        1
    } else {
        0
    }
}

/// The one event `(button, value)` if `value` is there, and nothing else.
pub open spec fn button_event(button: Button, value: Option<i32>) -> Seq<(Button, i32)> {
    match value {
        Some(value) => seq![(button, value)],
        None => Seq::empty(),
    }
}

impl ButtonState {
    /// Takes note of a button event of the real mouse. Codes other than
    /// those of the three buttons are passed over.
    pub fn process_event(&mut self, code: u32, pressed: bool)
        ensures
            *final(self) == match Button::of_code(code) {
                Some(Button::Left) => ButtonState {
                    left_button_event: Some(button_value(pressed)),
                    ..*old(self)
                },
                Some(Button::Right) => ButtonState {
                    right_button_event: Some(button_value(pressed)),
                    ..*old(self)
                },
                Some(Button::Middle) => ButtonState {
                    middle_button_event: Some(button_value(pressed)),
                    ..*old(self)
                },
                None => *old(self),
            },
    {
        let value: i32 = if pressed {
            1
        } else {
            0
        };
        match Button::from_code(code) {
            Some(Button::Left) => {
                self.left_button_event = Some(value);
            },
            Some(Button::Right) => {
                self.right_button_event = Some(value);
            },
            Some(Button::Middle) => {
                self.middle_button_event = Some(value);
            },
            None => {},
        }
    }

    /// Hands out the button events that are due, left before right before
    /// middle, and forgets them.
    pub fn get_output_events(&mut self) -> (events: Vec<(Button, i32)>)
        ensures
            events@ == button_event(Button::Left, old(self).left_button_event) + button_event(
                Button::Right,
                old(self).right_button_event,
            ) + button_event(Button::Middle, old(self).middle_button_event),
            *final(self) == (ButtonState {
                left_button_event: None,
                right_button_event: None,
                middle_button_event: None,
            }),
    {
        let mut events: Vec<(Button, i32)> = Vec::new();
        match self.left_button_event.take() {
            Some(value) => {
                events.push((Button::Left, value));
            },
            None => {},
        }
        let ghost first = events@;
        match self.right_button_event.take() {
            Some(value) => {
                events.push((Button::Right, value));
            },
            None => {},
        }
        let ghost second = events@;
        match self.middle_button_event.take() {
            Some(value) => {
                events.push((Button::Middle, value));
            },
            None => {},
        }
        proof {
            assert(first =~= button_event(Button::Left, old(self).left_button_event));
            assert(second =~= first + button_event(Button::Right, old(self).right_button_event));
            assert(events@ =~= second + button_event(
                Button::Middle,
                old(self).middle_button_event,
            ));
        }
        events
    }
}

/// Errors that the driver of the virtual mouse can meet.
#[derive(Debug, Clone, PartialEq, Eq)]
pub enum MouseError {
    FailedToAddPathToLibinput,
    FailedToStripEventFromSysname,
    FailedToParseSysnameForID(String),
    FailedToOpenMouseDevice(String),
    FailedToTurnDeviceIntoStream(String),
    FailedToCreateDeviceBuilder(String),
    FailedToAddRelativeAxes(String),
    FailedToAddKeys(String),
    FailedToBuildVirtualMouse(String),
    FailedToGetOutputSyspath(String),
    FailedToReadOutputSyspath(String),
    FailedToFindEventFileInOutputSyspath,
    FailedToParseEventFileForOutputID(String),
    FailedToGetEventFromTestStream(String),
    FailedToDispatchLibinput(String),
    FailedToEmitMouseEvents(String),
    FailedToCallXInputList(String),
    FailedToConvertOutputToString(String),
    FailedToFindMouseIDFromXInput,
    FailedToToggleMouse(String),
    FailedToAddSignalMatchToSystemBus(String),
    FailedToGetCurrentSessions(String),
    FailedToGetSessionDisplay(String, String),
    FailedToAqcuireSessionListLock(String),
}

impl MouseError {
    /// The text shown to a user for this error.
    pub open spec fn message(self) -> Seq<char> {
        match self {
            MouseError::FailedToAddPathToLibinput => "Could not add mouse input path to libinput context"@,
            MouseError::FailedToStripEventFromSysname => "Stripping event prefix from input sysname failed"@,
            MouseError::FailedToParseSysnameForID(reason) => "Could not parse stripped sysname for input id: "@
                + reason@,
            MouseError::FailedToOpenMouseDevice(reason) => "Failed to open mouse input as a device: "@
                + reason@,
            MouseError::FailedToTurnDeviceIntoStream(reason) => "Failed to convert mouse input device to event stream: "@
                + reason@,
            MouseError::FailedToCreateDeviceBuilder(reason) => "Could not create VirtualDeviceBuilder: "@
                + reason@,
            MouseError::FailedToAddRelativeAxes(reason) => "Ccould not add relative axes to virtual device builder: "@
                + reason@,
            MouseError::FailedToAddKeys(reason) => "Could not add keys to virtual device builder: "@
                + reason@,
            MouseError::FailedToBuildVirtualMouse(reason) => "Could not build virtual device: "@
                + reason@,
            MouseError::FailedToGetOutputSyspath(reason) => "Failed to get syspath of mouse output: "@
                + reason@,
            MouseError::FailedToReadOutputSyspath(reason) => "Could not read syspath dir of mouse output: "@
                + reason@,
            MouseError::FailedToFindEventFileInOutputSyspath => "Could not find event file/folder in syspath of mouse output"@,
            MouseError::FailedToParseEventFileForOutputID(reason) => "Could not parse event file of mouse output syspath for output id: "@
                + reason@,
            MouseError::FailedToGetEventFromTestStream(reason) => "Failed to get an event from the test stream: "@
                + reason@,
            MouseError::FailedToDispatchLibinput(reason) => "Could not dispath libinput context: "@
                + reason@,
            MouseError::FailedToEmitMouseEvents(reason) => "Could not emit mouse events on virtual device: "@
                + reason@,
            MouseError::FailedToCallXInputList(reason) => "Call to xinput list failed: "@ + reason@,
            MouseError::FailedToConvertOutputToString(reason) => "Could not convert xinput list output to string: "@
                + reason@,
            MouseError::FailedToFindMouseIDFromXInput => "Finding mouse id from xinput list failed"@,
            MouseError::FailedToToggleMouse(reason) => "Toggling mouse with xinput --enable/disable failed: "@
                + reason@,
            MouseError::FailedToAddSignalMatchToSystemBus(reason) => "Could not add signal match for SessionNew on the system bus: "@
                + reason@,
            MouseError::FailedToGetCurrentSessions(reason) => "Failed to call ListSession on login1: "@
                + reason@,
            MouseError::FailedToGetSessionDisplay(subject, reason) => "Could not get display from session "@
                + subject@ + ", with err "@ + reason@,
            MouseError::FailedToAqcuireSessionListLock(reason) => "Could not lock the session list: "@
                + reason@,
        }
    }

    /// The text shown to a user for this error.
    pub fn to_string(&self) -> (text: String)
        ensures
            text@ == self.message(),
    {
        match self {
            MouseError::FailedToAddPathToLibinput => String::from_str("Could not add mouse input path to libinput context"),
            MouseError::FailedToStripEventFromSysname => String::from_str("Stripping event prefix from input sysname failed"),
            MouseError::FailedToParseSysnameForID(reason) => {
                let mut text = String::from_str("Could not parse stripped sysname for input id: ");
                text.append(reason.as_str());
                text
            },
            MouseError::FailedToOpenMouseDevice(reason) => {
                let mut text = String::from_str("Failed to open mouse input as a device: ");
                text.append(reason.as_str());
                text
            },
            MouseError::FailedToTurnDeviceIntoStream(reason) => {
                let mut text = String::from_str("Failed to convert mouse input device to event stream: ");
                text.append(reason.as_str());
                text
            },
            MouseError::FailedToCreateDeviceBuilder(reason) => {
                let mut text = String::from_str("Could not create VirtualDeviceBuilder: ");
                text.append(reason.as_str());
                text
            },
            MouseError::FailedToAddRelativeAxes(reason) => {
                let mut text = String::from_str("Ccould not add relative axes to virtual device builder: ");
                text.append(reason.as_str());
                text
            },
            MouseError::FailedToAddKeys(reason) => {
                let mut text = String::from_str("Could not add keys to virtual device builder: ");
                text.append(reason.as_str());
                text
            },
            MouseError::FailedToBuildVirtualMouse(reason) => {
                let mut text = String::from_str("Could not build virtual device: ");
                text.append(reason.as_str());
                text
            },
            MouseError::FailedToGetOutputSyspath(reason) => {
                let mut text = String::from_str("Failed to get syspath of mouse output: ");
                text.append(reason.as_str());
                text
            },
            MouseError::FailedToReadOutputSyspath(reason) => {
                let mut text = String::from_str("Could not read syspath dir of mouse output: ");
                text.append(reason.as_str());
                text
            },
            MouseError::FailedToFindEventFileInOutputSyspath => String::from_str("Could not find event file/folder in syspath of mouse output"),
            MouseError::FailedToParseEventFileForOutputID(reason) => {
                let mut text = String::from_str("Could not parse event file of mouse output syspath for output id: ");
                text.append(reason.as_str());
                text
            },
            MouseError::FailedToGetEventFromTestStream(reason) => {
                let mut text = String::from_str("Failed to get an event from the test stream: ");
                text.append(reason.as_str());
                text
            },
            MouseError::FailedToDispatchLibinput(reason) => {
                let mut text = String::from_str("Could not dispath libinput context: ");
                text.append(reason.as_str());
                text
            },
            MouseError::FailedToEmitMouseEvents(reason) => {
                let mut text = String::from_str("Could not emit mouse events on virtual device: ");
                text.append(reason.as_str());
                text
            },
            MouseError::FailedToCallXInputList(reason) => {
                let mut text = String::from_str("Call to xinput list failed: ");
                text.append(reason.as_str());
                text
            },
            MouseError::FailedToConvertOutputToString(reason) => {
                let mut text = String::from_str("Could not convert xinput list output to string: ");
                text.append(reason.as_str());
                text
            },
            MouseError::FailedToFindMouseIDFromXInput => String::from_str("Finding mouse id from xinput list failed"),
            MouseError::FailedToToggleMouse(reason) => {
                let mut text = String::from_str("Toggling mouse with xinput --enable/disable failed: ");
                text.append(reason.as_str());
                text
            },
            MouseError::FailedToAddSignalMatchToSystemBus(reason) => {
                let mut text = String::from_str("Could not add signal match for SessionNew on the system bus: ");
                text.append(reason.as_str());
                text
            },
            MouseError::FailedToGetCurrentSessions(reason) => {
                let mut text = String::from_str("Failed to call ListSession on login1: ");
                text.append(reason.as_str());
                text
            },
            MouseError::FailedToGetSessionDisplay(subject, reason) => {
                let mut text = String::from_str("Could not get display from session ");
                text.append(subject.as_str());
                text.append(", with err ");
                text.append(reason.as_str());
                text
            },
            MouseError::FailedToAqcuireSessionListLock(reason) => {
                let mut text = String::from_str("Could not lock the session list: ");
                text.append(reason.as_str());
                text
            },
        }
    }
}

} // verus!
