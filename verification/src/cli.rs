//! The commands of the command line: what the user can ask of the servers
//! and how each request travels.

use crate::launcher::VmType;
use crate::text::str_eq;
use vstd::prelude::*;

verus! {

/// The variant of the machine that a command asks for.
pub type LaunchConfig = VmType;

/// All operations supported on the command line.
#[derive(Debug, Clone, PartialEq, Eq)]
pub enum Command {
    /// Launch the machine as the given variant, with the input device at the
    /// given path behind the virtual mouse.
    Start(LaunchConfig, String),
    /// Open the viewer in the session of the caller.
    Open,
    /// Shut the machine down.
    Shutdown,
    /// Ask for the state of the machine.
    Query,
    /// Show how the tool is used.
    Help,
}

/// A command, as plain values.
pub enum CommandView {
    Start(VmType, Seq<char>),
    Open,
    Shutdown,
    Query,
    Help,
}

impl View for Command {
    type V = CommandView;

    open spec fn view(&self) -> CommandView {
        match self {
            Command::Start(vm_type, path) => CommandView::Start(*vm_type, path@),
            Command::Open => CommandView::Open,
            Command::Shutdown => CommandView::Shutdown,
            Command::Query => CommandView::Query,
            Command::Help => CommandView::Help,
        }
    }
}

/// The command that the arguments of the command line stand for. A launch
/// needs the path of the input device behind its flag; without it, as for
/// anything that is not understood, the usage is shown.
pub open spec fn command_of(arguments: Seq<Seq<char>>) -> CommandView {
    if arguments.len() == 0 {
        CommandView::Help
    } else if arguments[0] == "--spice"@ {
        if arguments.len() >= 2 {
            CommandView::Start(VmType::Spice, arguments[1])
        } else {
            CommandView::Help
        }
    } else if arguments[0] == "--lg"@ {
        if arguments.len() >= 2 {
            CommandView::Start(VmType::LookingGlass, arguments[1])
        } else {
            CommandView::Help
        }
    } else if arguments[0] == "--open"@ {
        CommandView::Open
    } else if arguments[0] == "--query"@ {
        CommandView::Query
    } else if arguments[0] == "--shutdown"@ {
        CommandView::Shutdown
    } else {
        CommandView::Help
    }
}

impl Command {
    /// Reads a command from the arguments of the command line.
    pub fn parse(arguments: &Vec<String>) -> (command: Command)
        ensures
            command@ == command_of(crate::text::text_views(arguments@)),
    {
        if arguments.len() == 0 {
            return Command::Help;
        }
        let first = arguments[0].as_str();
        if str_eq(first, "--spice") {
            if arguments.len() >= 2 {
                Command::Start(VmType::Spice, arguments[1].clone())
            } else {
                Command::Help
            }
        } else if str_eq(first, "--lg") {
            if arguments.len() >= 2 {
                Command::Start(VmType::LookingGlass, arguments[1].clone())
            } else {
                Command::Help
            }
        } else if str_eq(first, "--open") {
            Command::Open
        } else if str_eq(first, "--query") {
            Command::Query
        } else if str_eq(first, "--shutdown") {
            Command::Shutdown
        } else {
            Command::Help
        }
    }

    /// The method of the system server that carries the command out, for the
    /// commands that go to the system server.
    pub fn server_method(&self) -> (method: Option<&'static str>)
        ensures
            method is Some == (self@ is Start || self@ is Query || self@ is Shutdown),
            method is Some ==> method->0@ == match self@ {
                CommandView::Start(VmType::LookingGlass, _) => "LaunchLG"@,
                CommandView::Start(VmType::Spice, _) => "LaunchSpice"@,
                CommandView::Query => "Query"@,
                _ => "Shutdown"@,
            },
    {
        match self {
            Command::Start(VmType::LookingGlass, _) => Some("LaunchLG"),
            Command::Start(VmType::Spice, _) => Some("LaunchSpice"),
            Command::Query => Some("Query"),
            Command::Shutdown => Some("Shutdown"),
            Command::Open => None,
            Command::Help => None,
        }
    }

    /// Whether the command ends with the start of the viewer in the session
    /// of the caller: that is so for `Open` and for the launch of the shared
    /// variant, which no login triggers.
    pub fn opens_viewer(&self) -> (opens: bool)
        ensures
            opens == (self@ is Open || self@ matches CommandView::Start(VmType::Spice, _)),
    {
        match self {
            Command::Open => true,
            Command::Start(VmType::Spice, _) => true,
            _ => false,
        }
    }
}

/// The lines that tell how the tool is used.
pub open spec fn usage() -> Seq<Seq<char>> {
    seq![
        "This is the windows vm launcher command line tool"@,
        "Usage:"@,
        "--server: starts the system server, used as a start command for a systemd service"@,
        "--session: start the session server, used as a start command foir a systemd user service"@,
        "--spice: starts the spice vm by starting the spice system service, and then the user service. requires mouse evdev path as second arg"@,
        "--lg: start the looking glass vm by starting the looking glass systemd service. requires mouse evdev path as second arg"@,
        "--open: starts the user session service to open the correct vm viewer"@,
        "--query: returns the state of the vm"@,
        "--shutdown: stops the vm"@,
        "--help: shows this help message"@,
    ]
}

/// The lines that tell how the tool is used.
pub fn help() -> (lines: Vec<&'static str>)
    ensures
        lines@.map_values(|line: &'static str| line@) == usage(),
{
    let mut lines: Vec<&'static str> = Vec::new();
    lines.push("This is the windows vm launcher command line tool");
    lines.push("Usage:");
    lines.push("--server: starts the system server, used as a start command for a systemd service");
    lines.push(
        "--session: start the session server, used as a start command foir a systemd user service",
    );
    lines.push(
        "--spice: starts the spice vm by starting the spice system service, and then the user service. requires mouse evdev path as second arg",
    );
    lines.push(
        "--lg: start the looking glass vm by starting the looking glass systemd service. requires mouse evdev path as second arg",
    );
    lines.push("--open: starts the user session service to open the correct vm viewer");
    lines.push("--query: returns the state of the vm");
    lines.push("--shutdown: stops the vm");
    lines.push("--help: shows this help message");
    assert(lines@.map_values(|line: &'static str| line@) =~= usage());
    lines
}

/// The two lines in which the answer to a query is shown.
pub fn query_lines(state: &str, vm_type: &str) -> (lines: (String, String))
    ensures
        lines.0@ == "VM State: "@ + state@,
        lines.1@ == "VM Type: "@ + vm_type@,
{
    (String::from_str("VM State: ").concat(state), String::from_str("VM Type: ").concat(vm_type))
}

/// The ways in which a command of the command line can fail, each with the
/// reason that the bus gave.
#[derive(Debug, Clone, PartialEq, Eq)]
pub enum CliError {
    FailedToConnectToSystemBus(String),
    FailedToStartUserService(String),
    FailedToQueryState(String),
    FailedToCallShutdown(String),
    FailedToLaunchLG(String),
    FailedToLaunchSpice(String),
    FailedToConnectToSessionBus(String),
}

impl CliError {
    /// The text shown to a user for this error.
    pub open spec fn message(self) -> Seq<char> {
        match self {
            CliError::FailedToConnectToSystemBus(reason) => "Could not connect to the system dbus: "@
                + reason@,
            CliError::FailedToStartUserService(reason) => "DBus session call to start the user windows-launcher.service failed: "@
                + reason@,
            CliError::FailedToQueryState(reason) => "Failed to query the system server for the vm state: "@
                + reason@,
            CliError::FailedToCallShutdown(reason) => "Failed to call shutdown on the system server: "@
                + reason@,
            CliError::FailedToLaunchLG(reason) => "Failed to call LaunchLG on the system server: "@
                + reason@,
            CliError::FailedToLaunchSpice(reason) => "Failed to call LaunchSpice on the system server: "@
                + reason@,
            CliError::FailedToConnectToSessionBus(reason) => "Could not connect to the session dbus: "@
                + reason@,
        }
    }

    /// The text shown to a user for this error.
    pub fn to_string(&self) -> (text: String)
        ensures
            text@ == self.message(),
    {
        match self {
            CliError::FailedToConnectToSystemBus(reason) => {
                let mut text = String::from_str("Could not connect to the system dbus: ");
                text.append(reason.as_str());
                text
            },
            CliError::FailedToStartUserService(reason) => {
                let mut text = String::from_str("DBus session call to start the user windows-launcher.service failed: ");
                text.append(reason.as_str());
                text
            },
            CliError::FailedToQueryState(reason) => {
                let mut text = String::from_str("Failed to query the system server for the vm state: ");
                text.append(reason.as_str());
                text
            },
            CliError::FailedToCallShutdown(reason) => {
                let mut text = String::from_str("Failed to call shutdown on the system server: ");
                text.append(reason.as_str());
                text
            },
            CliError::FailedToLaunchLG(reason) => {
                let mut text = String::from_str("Failed to call LaunchLG on the system server: ");
                text.append(reason.as_str());
                text
            },
            CliError::FailedToLaunchSpice(reason) => {
                let mut text = String::from_str("Failed to call LaunchSpice on the system server: ");
                text.append(reason.as_str());
                text
            },
            CliError::FailedToConnectToSessionBus(reason) => {
                let mut text = String::from_str("Could not connect to the session dbus: ");
                text.append(reason.as_str());
                text
            },
        }
    }
}

} // verus!
