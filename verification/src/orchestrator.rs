//! The loop that drives a launch from the request to the restored system:
//! it waits for a request, lets the launch run until it ends or is called
//! off, restores the system whatever happened, and starts over.

use crate::launcher::{
    error_views, LauncherError, LauncherErrorKind, LauncherErrorView, VmState,
};
use crate::server::{next_state, ServerData, ServerError, VmEvent};
use vstd::prelude::*;

verus! {

/// Where the loop stands.
#[derive(Debug, Clone, Copy, PartialEq, Eq, Structural)]
pub enum Phase {
    /// No machine is wanted; a request for a launch is waited for.
    Idle,
    /// The launch runs, and a request to shut down may call it off.
    Launching,
    /// The system is being restored.
    CleaningUp,
    /// The loop has ended with an error and does nothing any more.
    Stopped,
}

/// What the embedding program tells the loop.
#[derive(Debug)]
pub enum Event {
    /// A launch was requested: the state of the machine is `Activating`.
    Activated,
    /// The launch ran to its end: the machine was started and has ended.
    LaunchSucceeded,
    /// The launch was given up with this error.
    LaunchFailed(LauncherError),
    /// A shutdown was requested while the launch ran.
    ShutdownRequested,
    /// The cleanup has tried every reversal and met these errors.
    CleanedUp(Vec<LauncherError>),
    /// The state of the server could not be reached.
    ServerFailed(ServerError),
}

/// What the embedding program tells the loop, as plain values.
pub enum EventView {
    Activated,
    LaunchSucceeded,
    LaunchFailed(LauncherErrorView),
    ShutdownRequested,
    CleanedUp(Seq<LauncherErrorView>),
    ServerFailed(Seq<char>),
}

impl View for Event {
    type V = EventView;

    open spec fn view(&self) -> EventView {
        match self {
            Event::Activated => EventView::Activated,
            Event::LaunchSucceeded => EventView::LaunchSucceeded,
            Event::LaunchFailed(error) => EventView::LaunchFailed(error@),
            Event::ShutdownRequested => EventView::ShutdownRequested,
            Event::CleanedUp(errors) => EventView::CleanedUp(error_views(errors@)),
            Event::ServerFailed(error) => EventView::ServerFailed(error.message()),
        }
    }
}

/// What the loop asks of the embedding program.
#[derive(Debug)]
pub enum Directive {
    /// Wait for the state of the machine to become `Activating`.
    AwaitRequest,
    /// Start the launch as a task of its own and wait for its end or for a
    /// request to shut down, whichever comes first.
    Launch,
    /// Restore the system as the ledger asks.
    Cleanup,
    /// Go on with what was asked before; the event changed nothing.
    Continue,
    /// End the process with this error.
    Exit(LauncherError),
}

/// What the loop asks of the embedding program, as plain values.
pub enum DirectiveView {
    AwaitRequest,
    Launch,
    Cleanup,
    Continue,
    Exit(LauncherErrorView),
}

impl View for Directive {
    type V = DirectiveView;

    open spec fn view(&self) -> DirectiveView {
        match self {
            Directive::AwaitRequest => DirectiveView::AwaitRequest,
            Directive::Launch => DirectiveView::Launch,
            Directive::Cleanup => DirectiveView::Cleanup,
            Directive::Continue => DirectiveView::Continue,
            Directive::Exit(error) => DirectiveView::Exit(error@),
        }
    }
}

/// The loop: its phase and the error that ends it once the system has been
/// restored, if there is one.
#[derive(Debug)]
pub struct Orchestrator {
    phase: Phase,
    fatal: Option<LauncherError>,
}

/// The loop, as plain values.
pub struct OrchestratorView {
    pub phase: Phase,
    pub fatal: Option<LauncherErrorView>,
}

impl View for Orchestrator {
    type V = OrchestratorView;

    closed spec fn view(&self) -> OrchestratorView {
        OrchestratorView {
            phase: self.phase,
            fatal: match self.fatal {
                Some(error) => Some(error@),
                None => None,
            },
        }
    }
}

/// The error of the launcher that stands for a failure of the server with
/// the given message.
pub open spec fn server_failure(message: Seq<char>) -> LauncherErrorView {
    LauncherErrorView {
        kind: LauncherErrorKind::ServerError,
        subject: Seq::empty(),
        detail: message,
    }
}

/// What one event does to the loop.
pub struct Turn {
    pub next: OrchestratorView,
    /// What happens to the state of the machine, if anything.
    pub transition: Option<VmEvent>,
    pub directive: DirectiveView,
}

impl OrchestratorView {
    /// The loop at its start.
    pub open spec fn initial() -> OrchestratorView {
        OrchestratorView { phase: Phase::Idle, fatal: None }
    }

    /// The error that ends the loop after a cleanup that met `errors`: the
    /// one that was kept from before, else the first that the cleanup met.
    pub open spec fn verdict(self, errors: Seq<LauncherErrorView>) -> Option<LauncherErrorView> {
        match self.fatal {
            Some(error) => Some(error),
            None => if errors.len() > 0 {
                Some(errors[0])
            } else {
                None
            },
        }
    }

    /// What `event` does to the loop.
    ///
    /// While idle, a request starts the launch, and a failure of the server
    /// ends the loop at once, since nothing is to be restored. While the
    /// launch runs, whatever ends it leads to the cleanup: its own end, its
    /// failure, a request to shut down, or a failure of the server; the
    /// state of the machine becomes `ShuttingDown`, and an error is kept for
    /// later. When the cleanup is through, the state of the machine returns
    /// to `Inactive`; the loop then ends with the error that was kept, or
    /// with the first that the cleanup met, and starts over if there is
    /// none. An event that does not fit the phase changes nothing.
    pub open spec fn turn(self, event: EventView) -> Turn {
        match (self.phase, event) {
            (Phase::Idle, EventView::Activated) => Turn {
                next: OrchestratorView { phase: Phase::Launching, fatal: None },
                transition: None,
                directive: DirectiveView::Launch,
            },
            (Phase::Idle, EventView::ServerFailed(message)) => Turn {
                next: OrchestratorView { phase: Phase::Stopped, fatal: None },
                transition: None,
                directive: DirectiveView::Exit(server_failure(message)),
            },
            (Phase::Launching, EventView::LaunchSucceeded) => Turn {
                next: OrchestratorView { phase: Phase::CleaningUp, fatal: None },
                transition: Some(VmEvent::ShutdownRequested),
                directive: DirectiveView::Cleanup,
            },
            (Phase::Launching, EventView::ShutdownRequested) => Turn {
                next: OrchestratorView { phase: Phase::CleaningUp, fatal: None },
                transition: Some(VmEvent::ShutdownRequested),
                directive: DirectiveView::Cleanup,
            },
            (Phase::Launching, EventView::LaunchFailed(error)) => Turn {
                next: OrchestratorView { phase: Phase::CleaningUp, fatal: Some(error) },
                transition: Some(VmEvent::ShutdownRequested),
                directive: DirectiveView::Cleanup,
            },
            (Phase::Launching, EventView::ServerFailed(message)) => Turn {
                next: OrchestratorView {
                    phase: Phase::CleaningUp,
                    fatal: Some(server_failure(message)),
                },
                transition: Some(VmEvent::ShutdownRequested),
                directive: DirectiveView::Cleanup,
            },
            (Phase::CleaningUp, EventView::CleanedUp(errors)) => match self.verdict(errors) {
                Some(error) => Turn {
                    next: OrchestratorView { phase: Phase::Stopped, fatal: None },
                    transition: Some(VmEvent::CleanupFinished),
                    directive: DirectiveView::Exit(error),
                },
                None => Turn {
                    next: OrchestratorView { phase: Phase::Idle, fatal: None },
                    transition: Some(VmEvent::CleanupFinished),
                    directive: DirectiveView::AwaitRequest,
                },
            },
            _ => Turn { next: self, transition: None, directive: DirectiveView::Continue },
        }
    }
}

impl Orchestrator {
    /// The loop at its start. The first thing to do is to wait for a request.
    pub fn new() -> (orchestrator: Self)
        ensures
            orchestrator@ == OrchestratorView::initial(),
    {
        Orchestrator { phase: Phase::Idle, fatal: None }
    }

    /// Where the loop stands.
    pub fn phase(&self) -> (phase: Phase)
        ensures
            phase == self@.phase,
    {
        self.phase
    }
}

/// The state of the server after the loop has let `transition` happen.
pub open spec fn state_after_turn(state: VmState, transition: Option<VmEvent>) -> VmState {
    match transition {
        Some(event) => next_state(state, event),
        None => state,
    }
}

/// One turn of the loop that handles the whole of a launch: takes what has
/// happened, moves the state of the machine along, and says what is to be
/// done next. Where the launch ends, the state becomes `ShuttingDown` and
/// those who wait on it are notified. Where the cleanup is through, no user
/// counts as connected any more, no output device is allocated, and the
/// state becomes `Inactive`, in this order, so that whoever is woken by the
/// state finds the rest in place.
pub fn launcher(orchestrator: &mut Orchestrator, data: &mut ServerData, event: Event) -> (directive:
    Directive)
    ensures
        final(orchestrator)@ == old(orchestrator)@.turn(event@).next,
        directive@ == old(orchestrator)@.turn(event@).directive,
        final(data).state() == state_after_turn(
            old(data).state(),
            old(orchestrator)@.turn(event@).transition,
        ),
        old(orchestrator)@.turn(event@).transition is None ==> *final(data) == *old(data),
        old(orchestrator)@.turn(event@).transition == Some(VmEvent::ShutdownRequested) ==> {
            &&& final(data).user_connected == old(data).user_connected
            &&& final(data).output_device == old(data).output_device
            &&& if old(data).state() == VmState::Activating || old(data).state()
                == VmState::Launched {
                final(data).vm_state@ == old(data).vm_state@.set(VmState::ShuttingDown)
            } else {
                final(data).vm_state == old(data).vm_state
            }
        },
        old(orchestrator)@.turn(event@).transition == Some(VmEvent::CleanupFinished) ==> {
            if old(data).state() == VmState::ShuttingDown {
                &&& final(data).user_connected@ == old(data).user_connected@.set(false)
                &&& final(data).vm_state@ == old(data).vm_state@.set(VmState::Inactive)
                &&& final(data).output_device@ == Seq::<char>::empty()
            } else {
                *final(data) == *old(data)
            }
        },
        final(data).vm_type == old(data).vm_type,
        final(data).mouse_path == old(data).mouse_path,
        final(data).lid_is_closed == old(data).lid_is_closed,
{
    match (orchestrator.phase, event) {
        (Phase::Idle, Event::Activated) => {
            orchestrator.phase = Phase::Launching;
            orchestrator.fatal = None;
            Directive::Launch
        },
        (Phase::Idle, Event::ServerFailed(error)) => {
            orchestrator.phase = Phase::Stopped;
            orchestrator.fatal = None;
            Directive::Exit(LauncherError::from_server(&error))
        },
        (Phase::Launching, Event::LaunchSucceeded) | (Phase::Launching, Event::ShutdownRequested) => {
            data.request_shutdown();
            orchestrator.phase = Phase::CleaningUp;
            orchestrator.fatal = None;
            Directive::Cleanup
        },
        (Phase::Launching, Event::LaunchFailed(error)) => {
            data.request_shutdown();
            orchestrator.phase = Phase::CleaningUp;
            orchestrator.fatal = Some(error);
            Directive::Cleanup
        },
        (Phase::Launching, Event::ServerFailed(error)) => {
            data.request_shutdown();
            orchestrator.phase = Phase::CleaningUp;
            orchestrator.fatal = Some(LauncherError::from_server(&error));
            Directive::Cleanup
        },
        (Phase::CleaningUp, Event::CleanedUp(errors)) => {
            data.finish_cleanup();
            let mut errors = errors;
            let kept = orchestrator.fatal.take();
            orchestrator.fatal = None;
            let verdict = match kept {
                Some(error) => Some(error),
                None => if errors.len() > 0 {
                    let ghost views = error_views(errors@);
                    let first = errors.remove(0);
                    assert(first@ == views[0]);
                    Some(first)
                } else {
                    None
                },
            };
            match verdict {
                Some(error) => {
                    orchestrator.phase = Phase::Stopped;
                    Directive::Exit(error)
                },
                None => {
                    orchestrator.phase = Phase::Idle;
                    Directive::AwaitRequest
                },
            }
        },
        _ => Directive::Continue,
    }
}

/// Once a launch has begun, whatever ends it leads to the cleanup, and the
/// loop neither waits for a new request nor ends before the cleanup is
/// through.
pub proof fn lemma_launch_is_always_cleaned_up(orchestrator: OrchestratorView, event: EventView)
    ensures
        orchestrator.phase == Phase::Launching ==> {
            ||| orchestrator.turn(event).next == orchestrator
            ||| orchestrator.turn(event).next.phase == Phase::CleaningUp && orchestrator.turn(
                event,
            ).directive is Cleanup
        },
        orchestrator.phase == Phase::CleaningUp ==> {
            ||| orchestrator.turn(event).next == orchestrator
            ||| event is CleanedUp
        },
        orchestrator.turn(event).directive is AwaitRequest ==> orchestrator.phase
            == Phase::CleaningUp && event is CleanedUp && orchestrator.fatal is None && event->CleanedUp_0.len()
            == 0,
        orchestrator.phase == Phase::Stopped ==> orchestrator.turn(event).next == orchestrator,
{
}

/// Whatever ends a launch, once the cleanup that follows is through the
/// machine is inactive again: the state that the launch has reached goes to
/// `ShuttingDown` when the launch ends and to `Inactive` when the cleanup has
/// finished.
pub proof fn lemma_every_launch_ends_inactive(
    orchestrator: OrchestratorView,
    state: VmState,
    ending: EventView,
    errors: Seq<LauncherErrorView>,
)
    requires
        orchestrator.phase == Phase::Launching,
        state != VmState::Inactive,
        ending is LaunchSucceeded || ending is LaunchFailed || ending is ShutdownRequested
            || ending is ServerFailed,
    ensures
        ({
            let ended = orchestrator.turn(ending);
            let cleaned = ended.next.turn(EventView::CleanedUp(errors));
            &&& state_after_turn(state, ended.transition) == VmState::ShuttingDown
            &&& state_after_turn(VmState::ShuttingDown, cleaned.transition) == VmState::Inactive
            &&& cleaned.next.phase == Phase::Idle || cleaned.next.phase == Phase::Stopped
            &&& cleaned.directive is AwaitRequest || cleaned.directive is Exit
        }),
{
}

} // verus!
