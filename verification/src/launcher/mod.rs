//! The life cycle of the virtual machine: its states, the variants it can be
//! launched as, the ledger of system changes made on its behalf, the actions
//! that change the system, and the failures that they can meet.

pub mod action;
pub mod error;
pub mod ledger;
pub mod state;

pub use crate::launcher::action::{
    CpuUnit, KernelModule, PciDevice, Report, ReportView, SystemAction, blame, blame_of,
    failure, failure_of, plain, removal_refused, removal_was_refused,
};
pub use crate::launcher::error::{
    LauncherError, LauncherErrorKind, LauncherErrorView, error_views,
};
pub use crate::launcher::ledger::SystemState;
pub use crate::launcher::state::{VmState, VmType, abort_edge, regular_edge};
