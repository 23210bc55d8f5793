//! The registry of login sessions: which sessions are known, which of them
//! have a display, and who waits for the set of displays to change; with
//! what belongs to it on the buses.

pub mod channel;
pub mod enrichment;
pub mod error;
pub mod notifier;
pub mod registry;
pub mod sessions;
pub mod viewer;

pub use crate::dbus_manager::channel::{
    ChannelAction, ChannelAdvance, ChannelOpening, ChannelPhase, lemma_identity_is_restored,
    new_channel,
};
pub use crate::dbus_manager::enrichment::{
    examined, first_xauthority, is_user_class, last_xauthority, user_bus_address, viewer_xauthority,
    xauthority_of, xauthority_value,
};
pub use crate::dbus_manager::error::DBusError;
pub use crate::dbus_manager::notifier::{
    AnyDisplayFuture, DisplaySessionChangeFuture, NewSignalFuture, lemma_new_displays,
    new_displays, signal_received,
};
pub use crate::dbus_manager::registry::{
    Listed, RefreshPlan, Refreshed, SessionRegistry, active_of, enroll_all, enroll_one,
    is_arrival, is_departure,
    lemma_enroll_new_sessions, lemma_refresh_active_displays, listed_views, listing_has,
    pair_known, path_known, release_all, users_of,
};
pub use crate::dbus_manager::sessions::{
    Session, SessionView, contains_session, distinct_sessions, lemma_session_set_push,
    lemma_session_set_take, session_set, session_views, sessions_without,
};
pub use crate::dbus_manager::viewer::{
    ViewerChanges, ViewerCommand, viewer_args, viewer_changes, viewer_command, viewer_log_path,
};
