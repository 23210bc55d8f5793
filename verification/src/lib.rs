//! Coordination core of a single-host launcher for a Windows virtual machine
//! that runs with a graphics card passed through or with a shared display.
//!
//! The library holds the decisions; it does no input or output of its own.
//! Bus calls, subprocesses, timers and privilege switches are carried out by
//! the embedding program, which tells the library what happened and is told
//! what to do next.
//!
//! - [`hookable`]: a value whose waiters are notified when it is set.
//! - [`server`]: the state of the machine and the guarded requests that
//!   change it, with the waits on it.
//! - [`launcher`]: the states and variants of the machine, the ledger of
//!   changes made to the system, the actions that change it and their
//!   failures.
//! - [`launch`], [`gpu`], [`cleanup`]: the sequences that bring the machine
//!   up and the plans that restore the system.
//! - [`orchestrator`]: the loop that drives a launch from the request to the
//!   restored system.
//! - [`dbus_manager`]: the registry of login sessions and those who wait for
//!   their displays.
//! - [`dbus_server`], [`system_setup`], [`servant`]: what the single-user
//!   program shares with its clients and keeps of the host.
//! - [`cli`], [`invocation`], [`session`], [`virtual_mouse`], [`commands`],
//!   [`text`]: commands, invocation, the session part, the mouse, command
//!   lines, and helpers on texts.

pub mod cleanup;
pub mod cli;
pub mod commands;
pub mod dbus_manager;
pub mod dbus_server;
pub mod gpu;
pub mod hookable;
pub mod invocation;
pub mod launch;
pub mod launcher;
pub mod orchestrator;
pub mod servant;
pub mod server;
pub mod session;
pub mod system_setup;
pub mod text;
pub mod virtual_mouse;
