//! Waiting for the displays to change: the polls of the waits that the
//! registry serves, and the wait for a signal of the session manager.

use crate::dbus_manager::registry::SessionRegistry;
use crate::dbus_manager::sessions::{
    distinct_sessions, lemma_session_set_push, lemma_session_set_take, session_set,
    sessions_without, Session, SessionView,
};
use crate::hookable::{clone_waker, cloned_waker, notify, Polled};
use std::task::Waker;
use vstd::prelude::*;

verus! {

/// What an await of new displays comes to, given the set of active displays
/// and the snapshot of those that the caller has seen: nothing while every
/// active display is in the snapshot, and otherwise the active displays that
/// are not.
pub open spec fn new_displays(active: Set<SessionView>, snapshot: Set<SessionView>) -> Option<
    Set<SessionView>,
> {
    if active.subset_of(snapshot) {
        None
    } else {
        Some(active.difference(snapshot))
    }
}

/// An await of new displays whose snapshot is the set of active displays does
/// not complete until that set has changed; and when an await completes,
/// what it yields is disjoint from the snapshot, part of the set of active
/// displays, and not empty.
pub proof fn lemma_new_displays(
    seen: Set<SessionView>,
    active: Set<SessionView>,
    snapshot: Set<SessionView>,
)
    ensures
        new_displays(seen, seen) is None,
        new_displays(active, seen) is Some ==> active != seen,
        new_displays(active, snapshot) is Some ==> {
            &&& new_displays(active, snapshot)->0.disjoint(snapshot)
            &&& new_displays(active, snapshot)->0.subset_of(active)
            &&& new_displays(active, snapshot)->0 != Set::<SessionView>::empty()
        },
{
    if new_displays(active, snapshot) is Some {
        let found = active.difference(snapshot);
        let v = choose|v: SessionView| active.contains(v) && !snapshot.contains(v);
        assert(found.contains(v));
    }
}

/// Waits for any session to have a display.
pub struct AnyDisplayFuture {}

impl AnyDisplayFuture {
    /// A wait that has not been polled yet.
    pub fn new() -> Self {
        AnyDisplayFuture {  }
    }

    /// Complete as soon as the registry has an active display; until then the
    /// waker is added to those who wait for the displays to change.
    pub fn poll(&mut self, registry: &mut SessionRegistry, waker: &Waker) -> (polled: Polled<()>)
        requires
            old(registry).wf(),
        ensures
            final(registry).wf(),
            final(registry).sessions() == old(registry).sessions(),
            old(registry).active() != Set::<SessionView>::empty() ==> polled == Polled::Ready(())
                && final(registry).waiters() == old(registry).waiters(),
            old(registry).active() == Set::<SessionView>::empty() ==> polled == Polled::<
                (),
            >::Pending && final(registry).waiters() == old(registry).waiters().push(
                cloned_waker(*waker),
            ),
    {
        let shown = registry.active_displays();
        if shown.len() > 0 {
            proof {
                assert(session_set(shown@).contains(shown@[0]@));
            }
            Polled::Ready(())
        } else {
            proof {
                assert(session_set(shown@) =~= Set::<SessionView>::empty());
            }
            registry.hook_display_waiter(waker);
            Polled::Pending
        }
    }
}

/// Waits for displays that the caller has not seen yet.
pub struct DisplaySessionChangeFuture {
    /// The active displays that the caller has seen.
    pub known_displays: Vec<Session>,
}

impl DisplaySessionChangeFuture {
    /// Complete as soon as an active display is not in the snapshot, with the
    /// active displays that are not in it; until then the waker is added to
    /// those who wait for the displays to change.
    pub fn poll(&mut self, registry: &mut SessionRegistry, waker: &Waker) -> (polled: Polled<
        Vec<Session>,
    >)
        requires
            old(registry).wf(),
        ensures
            final(registry).wf(),
            final(registry).sessions() == old(registry).sessions(),
            final(self).known_displays == old(self).known_displays,
            new_displays(old(registry).active(), session_set(old(self).known_displays@)) is None
                ==> polled is Pending && final(registry).waiters() == old(registry).waiters().push(
                cloned_waker(*waker),
            ),
            new_displays(old(registry).active(), session_set(old(self).known_displays@)) is Some
                ==> {
                &&& polled is Ready
                &&& session_set(polled->Ready_0@) == new_displays(
                    old(registry).active(),
                    session_set(old(self).known_displays@),
                )->0
                &&& distinct_sessions(polled->Ready_0@)
                &&& final(registry).waiters() == old(registry).waiters()
            },
    {
        let shown = registry.active_displays();
        let found = sessions_without(&shown, &self.known_displays);
        if found.len() > 0 {
            proof {
                assert(session_set(found@).contains(found@[0]@));
            }
            Polled::Ready(found)
        } else {
            proof {
                assert(session_set(found@) =~= Set::<SessionView>::empty());
                assert forall|v: SessionView| registry.active().contains(v) implies session_set(
                    self.known_displays@,
                ).contains(v) by {
                    if !session_set(self.known_displays@).contains(v) {
                        assert(session_set(found@).contains(v));
                    }
                }
            }
            registry.hook_display_waiter(waker);
            Polled::Pending
        }
    }

    /// Takes displays that an await has yielded into the snapshot, so that
    /// the next await passes them over.
    pub fn absorb(&mut self, found: &Vec<Session>)
        ensures
            session_set(final(self).known_displays@) == session_set(old(self).known_displays@).union(
                session_set(found@),
            ),
    {
        let mut i: usize = 0;
        proof {
            assert(session_set(found@.take(0)) =~= Set::<SessionView>::empty());
            assert(session_set(self.known_displays@) =~= session_set(old(self).known_displays@).union(
                session_set(found@.take(0)),
            ));
        }
        while i < found.len()
            invariant
                i <= found@.len(),
                session_set(self.known_displays@) == session_set(old(self).known_displays@).union(
                    session_set(found@.take(i as int)),
                ),
            decreases found@.len() - i,
        {
            let copy = found[i].duplicate();
            proof {
                lemma_session_set_push(self.known_displays@, copy);
                lemma_session_set_take(found@, i as int);
            }
            self.known_displays.push(copy);
            proof {
                assert(session_set(self.known_displays@) =~= session_set(
                    old(self).known_displays@,
                ).union(session_set(found@.take(i + 1))));
            }
            i += 1;
        }
        proof {
            assert(found@.take(found@.len() as int) =~= found@);
        }
    }
}

/// Waits for a signal of the session manager: pending at the first poll,
/// which leaves the waker where the signal will find it, and complete at
/// the next.
pub struct NewSignalFuture {
    polled_once: bool,
}

impl NewSignalFuture {
    /// Whether the wait has been polled.
    pub closed spec fn polled(&self) -> bool {
        self.polled_once
    }

    /// A wait that has not been polled yet.
    pub fn new() -> (wait: Self)
        ensures
            !wait.polled(),
    {
        NewSignalFuture { polled_once: false }
    }

    /// The first poll puts a copy of the waker into `slot`, in place of what
    /// was there, and is pending; every later poll is complete and leaves
    /// the slot alone.
    pub fn poll(&mut self, slot: &mut Option<Waker>, waker: &Waker) -> (polled: Polled<()>)
        ensures
            final(self).polled(),
            old(self).polled() ==> polled == Polled::Ready(()) && *final(slot) == *old(slot),
            !old(self).polled() ==> polled == Polled::<()>::Pending && *final(slot) == Some(
                cloned_waker(*waker),
            ),
    {
        if self.polled_once {
            Polled::Ready(())
        } else {
            self.polled_once = true;
            *slot = Some(clone_waker(waker));
            Polled::Pending
        }
    }
}

/// A signal of the session manager has come in: whoever left a waker in
/// `slot` is notified, and the slot is emptied. The answer tells whether
/// there was one.
pub fn signal_received(slot: &mut Option<Waker>) -> (woken: bool)
    ensures
        woken == (*old(slot) is Some),
        *final(slot) == None::<Waker>,
{
    match slot.take() {
        Some(waker) => {
            notify(&waker);
            true
        },
        None => false,
    }
}

} // verus!
