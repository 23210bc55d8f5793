//! Opening the private bus of a user, for which the process has to take on
//! the identity of the user for a moment.

use crate::dbus_manager::error::DBusError;
use vstd::prelude::*;

verus! {

/// One thing to do on the way to a bus connection on behalf of a user.
#[derive(Debug, Clone, Copy, PartialEq, Eq, Structural)]
pub enum ChannelAction {
    /// Make this user the effective user of the process.
    SetEffectiveUid(u32),
    /// Open a private channel to the address of the user's bus.
    OpenChannel,
    /// Register the channel with the bus.
    RegisterChannel,
    /// Turn the channel into a connection.
    Connect,
}

/// How far the opening of a user's bus has come.
#[derive(Debug, Clone, Copy, PartialEq, Eq, Structural)]
pub enum ChannelPhase {
    /// The process is to take on the identity of the user.
    Switching,
    /// The channel is to be opened, as the user.
    Opening,
    /// The channel is to be registered, as the user.
    Registering,
    /// The process is to become root again, the channel being ready.
    Restoring,
    /// The process is to become root again, the attempt having failed.
    GivingUp,
    /// The connection is to be made, as root.
    Connecting,
    /// Nothing is left to do.
    Over,
}

/// What is to be done next for a user's bus.
#[derive(Debug, Clone, PartialEq, Eq)]
pub enum ChannelAdvance {
    /// Carry out this action.
    Do(ChannelAction),
    /// The connection stands.
    Opened,
    /// The attempt has failed with this error.
    Failed(DBusError),
    /// The opening was over already; nothing was due.
    Over,
}

/// The opening of a bus connection on behalf of a user: the process takes on
/// the identity of the user for as long as it takes to open and register
/// the channel, and becomes root again whether that worked or not.
#[derive(Debug)]
pub struct ChannelOpening {
    uid: u32,
    address: String,
    phase: ChannelPhase,
    failure: Option<DBusError>,
}

impl ChannelOpening {
    /// The user for whom the bus is opened.
    pub closed spec fn uid(&self) -> u32 {
        self.uid
    }

    /// The address of the user's bus.
    pub closed spec fn address(&self) -> Seq<char> {
        self.address@
    }

    /// How far the opening has come.
    pub closed spec fn phase(&self) -> ChannelPhase {
        self.phase
    }

    /// The message of the error that is kept until the process is root
    /// again, if the attempt has failed.
    pub closed spec fn kept_message(&self) -> Option<Seq<char>> {
        match self.failure {
            Some(error) => Some(error.message()),
            None => None,
        }
    }

    /// What holds of every opening: an error is kept exactly while the
    /// attempt is being given up.
    pub open spec fn wf(&self) -> bool {
        self.kept_message() is Some <==> self.phase() == ChannelPhase::GivingUp
    }

    /// Whether the process runs as the user in a phase.
    pub open spec fn as_user(phase: ChannelPhase) -> bool {
        phase == ChannelPhase::Opening || phase == ChannelPhase::Registering || phase
            == ChannelPhase::Restoring || phase == ChannelPhase::GivingUp
    }

    /// The action that is due in a phase.
    pub open spec fn due(&self) -> Option<ChannelAction> {
        match self.phase() {
            ChannelPhase::Switching => Some(ChannelAction::SetEffectiveUid(self.uid())),
            ChannelPhase::Opening => Some(ChannelAction::OpenChannel),
            ChannelPhase::Registering => Some(ChannelAction::RegisterChannel),
            ChannelPhase::Restoring | ChannelPhase::GivingUp => Some(
                ChannelAction::SetEffectiveUid(0),
            ),
            ChannelPhase::Connecting => Some(ChannelAction::Connect),
            ChannelPhase::Over => None,
        }
    }

    /// The phase that follows when the action that is due has gone well or
    /// badly. A failure while the process runs as the user leads to giving
    /// up, which makes the process root again before anything else.
    pub open spec fn next_phase(phase: ChannelPhase, went_well: bool) -> ChannelPhase {
        match phase {
            ChannelPhase::Switching => if went_well {
                ChannelPhase::Opening
            } else {
                ChannelPhase::Over
            },
            ChannelPhase::Opening => if went_well {
                ChannelPhase::Registering
            } else {
                ChannelPhase::GivingUp
            },
            ChannelPhase::Registering => if went_well {
                ChannelPhase::Restoring
            } else {
                ChannelPhase::GivingUp
            },
            ChannelPhase::Restoring => if went_well {
                ChannelPhase::Connecting
            } else {
                ChannelPhase::Over
            },
            ChannelPhase::GivingUp => ChannelPhase::Over,
            ChannelPhase::Connecting => ChannelPhase::Over,
            ChannelPhase::Over => ChannelPhase::Over,
        }
    }

    /// The message of the error that ends the opening, where it ends with
    /// one: the failure of the step at hand, or, once the process is root
    /// again after a failure, the error that was kept.
    pub open spec fn ending(&self, outcome: Result<(), String>) -> Option<Seq<char>> {
        match (self.phase(), outcome) {
            (ChannelPhase::Switching, Err(reason)) => Some(
                DBusError::FailedToSetEUID(self.uid(), reason).message(),
            ),
            (ChannelPhase::Restoring, Err(reason)) => Some(
                DBusError::FailedToSetEUID(0, reason).message(),
            ),
            (ChannelPhase::GivingUp, _) => self.kept_message(),
            (ChannelPhase::Connecting, Err(reason)) => Some(
                DBusError::FailedToConnectToUserBus(self.uid(), reason).message(),
            ),
            _ => None,
        }
    }

    /// The action that is due, if any is left.
    pub fn next_action(&self) -> (action: Option<ChannelAction>)
        ensures
            action == self.due(),
    {
        match self.phase {
            ChannelPhase::Switching => Some(ChannelAction::SetEffectiveUid(self.uid)),
            ChannelPhase::Opening => Some(ChannelAction::OpenChannel),
            ChannelPhase::Registering => Some(ChannelAction::RegisterChannel),
            ChannelPhase::Restoring => Some(ChannelAction::SetEffectiveUid(0)),
            ChannelPhase::GivingUp => Some(ChannelAction::SetEffectiveUid(0)),
            ChannelPhase::Connecting => Some(ChannelAction::Connect),
            ChannelPhase::Over => None,
        }
    }

    /// Takes the outcome of the action that was due, with the reason if it
    /// failed, and says what is to be done next.
    pub fn record(&mut self, outcome: Result<(), String>) -> (advance: ChannelAdvance)
        requires
            old(self).wf(),
        ensures
            final(self).wf(),
            final(self).uid() == old(self).uid(),
            final(self).address() == old(self).address(),
            final(self).phase() == ChannelOpening::next_phase(old(self).phase(), outcome is Ok),
            final(self).phase() == ChannelPhase::GivingUp ==> final(self).kept_message() == Some(
                if old(self).phase() == ChannelPhase::Opening {
                    "Could not open the channel with address "@ + old(self).address()
                        + ", with error: "@ + outcome->Err_0@
                } else {
                    "Could not register channel with address "@ + old(self).address()
                        + ", with error: "@ + outcome->Err_0@
                },
            ),
            final(self).phase() != ChannelPhase::Over ==> advance == ChannelAdvance::Do(
                final(self).due()->0,
            ),
            old(self).phase() == ChannelPhase::Over ==> advance == ChannelAdvance::Over,
            old(self).phase() != ChannelPhase::Over && final(self).phase() == ChannelPhase::Over
                ==> match old(self).ending(outcome) {
                Some(message) => advance matches ChannelAdvance::Failed(error) && error.message()
                    == message,
                None => advance == ChannelAdvance::Opened,
            },
    {
        match (self.phase, outcome) {
            (ChannelPhase::Switching, Ok(_)) => {
                self.phase = ChannelPhase::Opening;
                ChannelAdvance::Do(ChannelAction::OpenChannel)
            },
            (ChannelPhase::Switching, Err(reason)) => {
                self.phase = ChannelPhase::Over;
                ChannelAdvance::Failed(DBusError::FailedToSetEUID(self.uid, reason))
            },
            (ChannelPhase::Opening, Ok(_)) => {
                self.phase = ChannelPhase::Registering;
                ChannelAdvance::Do(ChannelAction::RegisterChannel)
            },
            (ChannelPhase::Opening, Err(reason)) => {
                self.phase = ChannelPhase::GivingUp;
                self.failure = Some(DBusError::FailedToOpenChannel(self.address.clone(), reason));
                ChannelAdvance::Do(ChannelAction::SetEffectiveUid(0))
            },
            (ChannelPhase::Registering, Ok(_)) => {
                self.phase = ChannelPhase::Restoring;
                ChannelAdvance::Do(ChannelAction::SetEffectiveUid(0))
            },
            (ChannelPhase::Registering, Err(reason)) => {
                self.phase = ChannelPhase::GivingUp;
                self.failure = Some(
                    DBusError::FailedToRegisterChannel(self.address.clone(), reason),
                );
                ChannelAdvance::Do(ChannelAction::SetEffectiveUid(0))
            },
            (ChannelPhase::Restoring, Ok(_)) => {
                self.phase = ChannelPhase::Connecting;
                ChannelAdvance::Do(ChannelAction::Connect)
            },
            (ChannelPhase::Restoring, Err(reason)) => {
                self.phase = ChannelPhase::Over;
                ChannelAdvance::Failed(DBusError::FailedToSetEUID(0, reason))
            },
            (ChannelPhase::GivingUp, _) => {
                self.phase = ChannelPhase::Over;
                match self.failure.take() {
                    Some(error) => ChannelAdvance::Failed(error),
                    None => ChannelAdvance::Opened,
                }
            },
            (ChannelPhase::Connecting, Ok(_)) => {
                self.phase = ChannelPhase::Over;
                ChannelAdvance::Opened
            },
            (ChannelPhase::Connecting, Err(reason)) => {
                self.phase = ChannelPhase::Over;
                ChannelAdvance::Failed(DBusError::FailedToConnectToUserBus(self.uid, reason))
            },
            (ChannelPhase::Over, _) => ChannelAdvance::Over,
        }
    }
}

/// Starts the opening of a bus connection for the user `uid` at `address`.
/// Nobody else may change the identity of the process until the opening is
/// over.
pub fn new_channel(uid: u32, address: String) -> (opening: ChannelOpening)
    ensures
        opening.wf(),
        opening.uid() == uid,
        opening.address() == address@,
        opening.phase() == ChannelPhase::Switching,
{
    ChannelOpening { uid, address, phase: ChannelPhase::Switching, failure: None }
}

/// However the steps of an opening go, the process does not keep the
/// identity of the user: while it runs as the user, the steps that open and
/// register the channel lead on to the return to root and nowhere else, and
/// only the attempt to return to root leads out of the phases in which the
/// process runs as the user. The connection is made only after the return
/// has succeeded.
pub proof fn lemma_identity_is_restored(phase: ChannelPhase, went_well: bool)
    ensures
        phase == ChannelPhase::Opening || phase == ChannelPhase::Registering
            ==> ChannelOpening::as_user(ChannelOpening::next_phase(phase, went_well)),
        ChannelOpening::as_user(phase) && !ChannelOpening::as_user(
            ChannelOpening::next_phase(phase, went_well),
        ) ==> phase == ChannelPhase::Restoring || phase == ChannelPhase::GivingUp,
        phase == ChannelPhase::Restoring || phase == ChannelPhase::GivingUp
            ==> !ChannelOpening::as_user(ChannelOpening::next_phase(phase, went_well)),
        ChannelOpening::next_phase(phase, went_well) == ChannelPhase::Connecting ==> phase
            == ChannelPhase::Restoring && went_well,
{
}

} // verus!
