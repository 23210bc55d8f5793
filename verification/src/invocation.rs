//! How the program is invoked: as the system server, as the part of a user
//! session, or as a command of the command line.

use crate::cli::{command_of, CliError, Command, CommandView};
use crate::launcher::LauncherError;
use crate::server::ServerError;
use crate::session::SessionError;
use crate::text::{str_eq, text_views};
use vstd::prelude::*;

verus! {

/// What the program is started as.
#[derive(Debug, Clone, PartialEq, Eq)]
pub enum Invocation {
    /// The system server, which runs the launcher.
    Server,
    /// The part of a user session.
    Session,
    /// A command of the command line.
    Cli(Command),
}

/// What the program is started as, as plain values.
pub enum InvocationView {
    Server,
    Session,
    Cli(CommandView),
}

impl View for Invocation {
    type V = InvocationView;

    open spec fn view(&self) -> InvocationView {
        match self {
            Invocation::Server => InvocationView::Server,
            Invocation::Session => InvocationView::Session,
            Invocation::Cli(command) => InvocationView::Cli(command@),
        }
    }
}

/// What the arguments of the command line, without the name of the
/// program, ask the program to run as, given whether root runs it; nothing
/// if they ask for the system server and root does not run it. Whatever is
/// neither server nor session is a command.
pub open spec fn invocation_of(arguments: Seq<Seq<char>>, is_root: bool) -> Option<
    InvocationView,
> {
    if arguments.len() > 0 && arguments[0] == "--server"@ {
        if is_root {
            Some(InvocationView::Server)
        } else {
            None
        }
    } else if arguments.len() > 0 && arguments[0] == "--session"@ {
        Some(InvocationView::Session)
    } else {
        Some(InvocationView::Cli(command_of(arguments)))
    }
}

/// Whether `decided` is what was to be decided: the invocation if there
/// is one, and the refusal of the server otherwise.
pub open spec fn decided_as(
    decided: Result<Invocation, AppError>,
    wanted: Option<InvocationView>,
) -> bool {
    match wanted {
        Some(invocation) => decided is Ok && decided->Ok_0@ == invocation,
        None => decided == Err::<Invocation, AppError>(AppError::ServerNotRunAsRoot),
    }
}

/// Decides from the arguments of the command line, without the name of the
/// program, what the program is to run as. The system server is refused to
/// anyone but root.
pub fn app(arguments: &Vec<String>, is_root: bool) -> (invocation: Result<Invocation, AppError>)
    ensures
        decided_as(invocation, invocation_of(text_views(arguments@), is_root)),
{
    if arguments.len() == 0 {
        return Ok(Invocation::Cli(Command::parse(arguments)));
    }
    let first = arguments[0].as_str();
    if str_eq(first, "--server") {
        if is_root {
            Ok(Invocation::Server)
        } else {
            Err(AppError::ServerNotRunAsRoot)
        }
    } else if str_eq(first, "--session") {
        Ok(Invocation::Session)
    } else {
        Ok(Invocation::Cli(Command::parse(arguments)))
    }
}

/// Calls `nix::unistd::Uid::effective` and takes the number of the user
/// out of it with `as_raw`. Who runs the process is not known here, so
/// nothing is claimed of the number.
#[verifier::external_body]
fn effective_uid() -> u32 {
    nix::unistd::Uid::effective().as_raw()
}

/// Decides what the program is to run as, from the arguments and from who
/// runs the process: root is the user with the number zero.
pub fn invoked(arguments: &Vec<String>) -> (invocation: Result<Invocation, AppError>)
    ensures
        exists|is_root: bool|
            decided_as(invocation, #[trigger] invocation_of(text_views(arguments@), is_root)),
{
    let is_root = effective_uid() == 0;
    app(arguments, is_root)
}

/// The ways in which the program can fail.
#[derive(Debug, Clone, PartialEq, Eq)]
pub enum AppError {
    MalformedCommand,
    ServerNotRunAsRoot,
    ServerError(ServerError),
    SessionError(SessionError),
    LauncherError(LauncherError),
    CliError(CliError),
}

impl AppError {
    /// The text shown to a user for this error.
    pub open spec fn message(self) -> Seq<char> {
        match self {
            AppError::MalformedCommand => "Command was Malformed"@,
            AppError::ServerNotRunAsRoot => "The Server was not run as root"@,
            AppError::ServerError(error) => "The system server returned with err: "@
                + error.message(),
            AppError::SessionError(error) => "Session server returned with err: "@
                + error.message(),
            AppError::LauncherError(error) => "Launcher failed with err: "@ + error@.message(),
            AppError::CliError(error) => "The command failed with err: "@ + error.message(),
        }
    }

    /// The text shown to a user for this error.
    pub fn to_string(&self) -> (text: String)
        ensures
            text@ == self.message(),
    {
        match self {
            AppError::MalformedCommand => String::from_str("Command was Malformed"),
            AppError::ServerNotRunAsRoot => String::from_str("The Server was not run as root"),
            AppError::ServerError(error) => {
                let mut text = String::from_str("The system server returned with err: ");
                text.append(error.to_string().as_str());
                text
            },
            AppError::SessionError(error) => {
                let mut text = String::from_str("Session server returned with err: ");
                text.append(error.to_string().as_str());
                text
            },
            AppError::LauncherError(error) => {
                let mut text = String::from_str("Launcher failed with err: ");
                text.append(error.to_string().as_str());
                text
            },
            AppError::CliError(error) => {
                let mut text = String::from_str("The command failed with err: ");
                text.append(error.to_string().as_str());
                text
            },
        }
    }
}

} // verus!
