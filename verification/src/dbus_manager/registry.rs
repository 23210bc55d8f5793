//! The registry of login sessions: which sessions are tracked, which of them
//! have a display, and what a refresh against the session manager changes.

use crate::dbus_manager::sessions::{
    contains_session, distinct_sessions, lemma_session_set_push, lemma_session_set_take,
    session_set, session_views, Session, SessionView,
};
use crate::hookable::{clone_waker, cloned_waker, notify_all};
use crate::text::str_eq;
use std::task::Waker;
use vstd::prelude::*;

verus! {

/// A session as the session manager lists it: its object path and its owner.
pub type Listed = (String, u32);

/// The entries of a listing, as plain values.
pub open spec fn listed_views(list: Seq<Listed>) -> Seq<(Seq<char>, u32)> {
    list.map_values(|entry: Listed| (entry.0@, entry.1))
}

/// The sessions of `set` that have a display.
pub open spec fn active_of(set: Set<SessionView>) -> Set<SessionView> {
    Set::new(|v: SessionView| set.contains(v) && v.has_display())
}

/// The users who own a session of `set`.
pub open spec fn users_of(set: Set<SessionView>) -> Set<u32> {
    Set::new(|uid: u32| exists|v: SessionView| set.contains(v) && v.uid == uid)
}

/// Whether a session of `set` has the object path `path`.
pub open spec fn path_known(set: Set<SessionView>, path: Seq<char>) -> bool {
    exists|v: SessionView| set.contains(v) && v.path == path
}

/// Whether a session of `set` has the object path `path` and the owner `uid`.
pub open spec fn pair_known(set: Set<SessionView>, path: Seq<char>, uid: u32) -> bool {
    exists|v: SessionView| set.contains(v) && v.path == path && v.uid == uid
}

/// Whether `pair` is listed and names a session that is not among `set`: a
/// refresh has to look into it.
pub open spec fn is_arrival(
    set: Set<SessionView>,
    listing: Seq<(Seq<char>, u32)>,
    pair: (Seq<char>, u32),
) -> bool {
    listing.contains(pair) && !pair_known(set, pair.0, pair.1)
}

/// Whether `pair` names a session of `set` that is not listed any more: a
/// refresh has to drop it.
pub open spec fn is_departure(
    set: Set<SessionView>,
    listing: Seq<(Seq<char>, u32)>,
    pair: (Seq<char>, u32),
) -> bool {
    pair_known(set, pair.0, pair.1) && !listing.contains(pair)
}

/// `set` with `session` added, unless a session of that path is in it.
pub open spec fn enroll_one(set: Set<SessionView>, session: SessionView) -> Set<SessionView> {
    if path_known(set, session.path) {
        set
    } else {
        set.insert(session)
    }
}

/// `set` with the sessions of `arrivals` added one after the other.
pub open spec fn enroll_all(set: Set<SessionView>, arrivals: Seq<SessionView>) -> Set<SessionView>
    decreases arrivals.len(),
{
    if arrivals.len() == 0 {
        set
    } else {
        enroll_one(enroll_all(set, arrivals.drop_last()), arrivals.last())
    }
}

/// `set` without the sessions whose path and owner are listed in `departures`.
pub open spec fn release_all(set: Set<SessionView>, departures: Seq<(Seq<char>, u32)>) -> Set<
    SessionView,
> {
    Set::new(|v: SessionView| set.contains(v) && !departures.contains((v.path, v.uid)))
}

/// The sessions that the registry tracks, and those who wait for the set of
/// active displays to change.
pub struct SessionRegistry {
    sessions: Vec<Session>,
    display_change_wakers: Vec<Waker>,
}

/// What a refresh did.
pub struct Refreshed {
    /// Whether the set of active displays changed, so that those who waited
    /// for a change were notified.
    pub notified: bool,
    /// The sessions that left the registry.
    pub released: Vec<Session>,
    /// The users who lost their last session: their bus connections are to
    /// be closed.
    pub closed_buses: Vec<u32>,
}

/// What a listing of the session manager asks of a refresh.
pub struct RefreshPlan {
    /// The listed sessions that the registry does not track: they are to be
    /// looked into.
    pub arrivals: Vec<Listed>,
    /// The tracked sessions that are not listed any more.
    pub departures: Vec<Listed>,
}

impl SessionRegistry {
    /// The sessions that the registry tracks.
    pub closed spec fn sessions(&self) -> Set<SessionView> {
        session_set(self.sessions@)
    }

    /// Those who wait for the set of active displays to change, oldest first.
    pub closed spec fn waiters(&self) -> Seq<Waker> {
        self.display_change_wakers@
    }

    /// What holds of every registry: it tracks one session at most for each
    /// object path.
    pub closed spec fn wf(&self) -> bool {
        forall|i: int, j: int|
            0 <= i < j < self.sessions@.len() ==> self.sessions@[i]@.path != self.sessions@[j]@.path
    }

    /// The tracked sessions that have a display.
    pub open spec fn active(&self) -> Set<SessionView> {
        active_of(self.sessions())
    }

    /// In a registry no two sessions share an object path.
    pub proof fn lemma_one_session_for_each_path(&self, a: SessionView, b: SessionView)
        requires
            self.wf(),
            self.sessions().contains(a),
            self.sessions().contains(b),
            a.path == b.path,
        ensures
            a == b,
    {
        let i = choose|i: int| 0 <= i < self.sessions@.len() && self.sessions@[i]@ == a;
        let j = choose|j: int| 0 <= j < self.sessions@.len() && self.sessions@[j]@ == b;
        if i < j {
            assert(self.sessions@[i]@.path != self.sessions@[j]@.path);
        } else if j < i {
            assert(self.sessions@[j]@.path != self.sessions@[i]@.path);
        }
    }

    /// A registry that tracks nothing and has no waiter.
    pub fn new() -> (registry: Self)
        ensures
            registry.wf(),
            registry.sessions() == Set::<SessionView>::empty(),
            registry.waiters() == Seq::<Waker>::empty(),
    {
        let registry = SessionRegistry { sessions: Vec::new(), display_change_wakers: Vec::new() };
        assert(registry.sessions() =~= Set::<SessionView>::empty());
        registry
    }

    /// The place of the session with the path `path`, if one is tracked.
    fn find_path(&self, path: &str) -> (place: Option<usize>)
        ensures
            place is Some == path_known(self.sessions(), path@),
            place is Some ==> place->0 < self.sessions@.len() && self.sessions@[place->0 as int]@.path
                == path@,
    {
        let mut i: usize = 0;
        while i < self.sessions.len()
            invariant
                i <= self.sessions@.len(),
                forall|k: int| 0 <= k < i ==> self.sessions@[k]@.path != path@,
            decreases self.sessions@.len() - i,
        {
            if str_eq(self.sessions[i].path.as_str(), path) {
                assert(self.sessions().contains(self.sessions@[i as int]@));
                return Some(i);
            }
            i += 1;
        }
        assert(!path_known(self.sessions(), path@)) by {
            if path_known(self.sessions(), path@) {
                let v = choose|v: SessionView| self.sessions().contains(v) && v.path == path@;
                let k = choose|k: int| 0 <= k < self.sessions@.len() && self.sessions@[k]@ == v;
                assert(self.sessions@[k]@.path != path@);
            }
        }
        None
    }

    /// Whether a session with this object path is tracked.
    pub fn tracks(&self, path: &str) -> (known: bool)
        ensures
            known == path_known(self.sessions(), path@),
    {
        self.find_path(path).is_some()
    }

    /// Whether a session with this object path and this owner is tracked.
    pub fn tracks_pair(&self, path: &str, uid: u32) -> (known: bool)
        requires
            self.wf(),
        ensures
            known == pair_known(self.sessions(), path@, uid),
    {
        match self.find_path(path) {
            Some(i) => {
                let known = self.sessions[i].uid == uid;
                proof {
                    let found = self.sessions@[i as int]@;
                    assert(self.sessions().contains(found));
                    if pair_known(self.sessions(), path@, uid) {
                        let v = choose|v: SessionView|
                            self.sessions().contains(v) && v.path == path@ && v.uid == uid;
                        self.lemma_one_session_for_each_path(v, found);
                    }
                }
                known
            },
            None => false,
        }
    }

    /// Whether no bus connection is open yet for `uid`, because no known
    /// session belongs to that user.
    pub fn needs_user_bus(&self, uid: u32) -> (needed: bool)
        ensures
            needed == !users_of(self.sessions()).contains(uid),
    {
        let mut i: usize = 0;
        while i < self.sessions.len()
            invariant
                i <= self.sessions@.len(),
                forall|k: int| 0 <= k < i ==> self.sessions@[k]@.uid != uid,
            decreases self.sessions@.len() - i,
        {
            if self.sessions[i].uid == uid {
                assert(self.sessions().contains(self.sessions@[i as int]@));
                return false;
            }
            i += 1;
        }
        assert(!users_of(self.sessions()).contains(uid)) by {
            if users_of(self.sessions()).contains(uid) {
                let v = choose|v: SessionView| self.sessions().contains(v) && v.uid == uid;
                let k = choose|k: int| 0 <= k < self.sessions@.len() && self.sessions@[k]@ == v;
                assert(self.sessions@[k]@.uid != uid);
            }
        }
        true
    }

    /// Takes `session` into the registry, unless a session with its path is
    /// tracked already. The answer tells whether it was taken in.
    pub fn enroll(&mut self, session: Session) -> (enrolled: bool)
        requires
            old(self).wf(),
        ensures
            final(self).wf(),
            enrolled == !path_known(old(self).sessions(), session@.path),
            final(self).sessions() == enroll_one(old(self).sessions(), session@),
            final(self).waiters() == old(self).waiters(),
    {
        if self.find_path(session.path.as_str()).is_some() {
            return false;
        }
        let ghost added = session@;
        self.sessions.push(session);
        proof {
            let before = old(self).sessions@;
            let after = self.sessions@;
            assert(after[before.len() as int]@ == added);
            assert forall|i: int, j: int| 0 <= i < j < after.len() implies after[i]@.path
                != after[j]@.path by {
                if j == before.len() {
                    assert(after[i] == before[i]);
                    assert(old(self).sessions().contains(before[i]@));
                } else {
                    assert(after[i] == before[i] && after[j] == before[j]);
                }
            }
            assert forall|v: SessionView|
                self.sessions().contains(v) <==> old(self).sessions().insert(added).contains(
                    v,
                ) by {
                if self.sessions().contains(v) {
                    let k = choose|k: int| 0 <= k < after.len() && after[k]@ == v;
                    if k < before.len() {
                        assert(before[k]@ == v);
                    }
                }
                if old(self).sessions().contains(v) {
                    let k = choose|k: int| 0 <= k < before.len() && before[k]@ == v;
                    assert(after[k]@ == v);
                }
            }
            assert(self.sessions() =~= old(self).sessions().insert(added));
        }
        true
    }

    /// Drops the session with this object path and this owner from the
    /// registry and hands it out, if it is tracked.
    pub fn release(&mut self, path: &str, uid: u32) -> (released: Option<Session>)
        requires
            old(self).wf(),
        ensures
            final(self).wf(),
            released is Some == pair_known(old(self).sessions(), path@, uid),
            released is Some ==> old(self).sessions().contains(released->0@) && released->0@.path
                == path@ && released->0@.uid == uid,
            final(self).sessions() == release_all(old(self).sessions(), seq![(path@, uid)]),
            final(self).waiters() == old(self).waiters(),
    {
        let ghost gone = seq![(path@, uid)];
        if !self.tracks_pair(path, uid) {
            proof {
                assert forall|v: SessionView|
                    old(self).sessions().contains(v) implies !gone.contains((v.path, v.uid)) by {
                    if gone.contains((v.path, v.uid)) {
                        assert(gone[0] == (v.path, v.uid));
                    }
                }
                assert(self.sessions() =~= release_all(old(self).sessions(), gone));
            }
            return None;
        }
        let place = self.find_path(path).unwrap();
        let ghost before = self.sessions@;
        let session = self.sessions.remove(place);
        proof {
            let after = self.sessions@;
            let p = place as int;
            assert(old(self).sessions().contains(before[p]@));
            let v = choose|v: SessionView|
                old(self).sessions().contains(v) && v.path == path@ && v.uid == uid;
            old(self).lemma_one_session_for_each_path(v, before[p]@);
            assert forall|i: int, j: int| 0 <= i < j < after.len() implies after[i]@.path
                != after[j]@.path by {
                let oi = if i < p { i } else { i + 1 };
                let oj = if j < p { j } else { j + 1 };
                assert(after[i] == before[oi] && after[j] == before[oj]);
            }
            assert(gone[0] == (path@, uid));
            assert forall|w: SessionView|
                self.sessions().contains(w) <==> release_all(old(self).sessions(), gone).contains(
                    w,
                ) by {
                if self.sessions().contains(w) {
                    let k = choose|k: int| 0 <= k < after.len() && after[k]@ == w;
                    let ok = if k < p { k } else { k + 1 };
                    assert(before[ok]@ == w);
                    assert(before[ok]@.path != before[p]@.path);
                    if gone.contains((w.path, w.uid)) {
                        let g = choose|g: int| 0 <= g < gone.len() && gone[g] == (w.path, w.uid);
                        assert(gone[g] == (path@, uid));
                    }
                }
                if old(self).sessions().contains(w) && !gone.contains((w.path, w.uid)) {
                    let k = choose|k: int| 0 <= k < before.len() && before[k]@ == w;
                    assert(k != p);
                    let nk = if k < p { k } else { k - 1 };
                    assert(after[nk]@ == w);
                }
            }
            assert(self.sessions() =~= release_all(old(self).sessions(), gone));
        }
        Some(session)
    }

    /// Holds a listing of the session manager against the registry: which of
    /// the listed sessions are new to it, and which of its sessions are gone.
    pub fn plan_refresh(&self, listing: &Vec<Listed>) -> (plan: RefreshPlan)
        requires
            self.wf(),
        ensures
            forall|pair: (Seq<char>, u32)|
                #![trigger listed_views(plan.arrivals@).contains(pair)]
                #![trigger is_arrival(self.sessions(), listed_views(listing@), pair)]
                listed_views(plan.arrivals@).contains(pair) <==> is_arrival(
                    self.sessions(),
                    listed_views(listing@),
                    pair,
                ),
            listed_views(plan.arrivals@).no_duplicates(),
            forall|pair: (Seq<char>, u32)|
                #![trigger listed_views(plan.departures@).contains(pair)]
                #![trigger is_departure(self.sessions(), listed_views(listing@), pair)]
                listed_views(plan.departures@).contains(pair) <==> is_departure(
                    self.sessions(),
                    listed_views(listing@),
                    pair,
                ),
            listed_views(plan.departures@).no_duplicates(),
    {
        let mut arrivals: Vec<Listed> = Vec::new();
        let mut i: usize = 0;
        while i < listing.len()
            invariant
                self.wf(),
                i <= listing@.len(),
                listed_views(arrivals@).no_duplicates(),
                forall|pair: (Seq<char>, u32)|
                    listed_views(arrivals@).contains(pair) <==> listed_views(listing@.take(i as int)).contains(
                        pair,
                    ) && !pair_known(self.sessions(), pair.0, pair.1),
            decreases listing@.len() - i,
        {
            let uid = listing[i].1;
            let ghost entry = (listing@[i as int].0@, uid);
            let ghost before = listed_views(arrivals@);
            let ghost seen = listed_views(listing@.take(i as int));
            let ghost seen_next = listed_views(listing@.take(i + 1));
            proof {
                assert(seen_next =~= seen.push(entry));
            }
            if !self.tracks_pair(listing[i].0.as_str(), uid) && !listing_has(
                &arrivals,
                listing[i].0.as_str(),
                uid,
            ) {
                arrivals.push((listing[i].0.clone(), uid));
                proof {
                    let after = listed_views(arrivals@);
                    assert(after =~= before.push(entry));
                    assert forall|pair: (Seq<char>, u32)|
                        after.contains(pair) <==> seen_next.contains(pair) && !pair_known(
                            self.sessions(),
                            pair.0,
                            pair.1,
                        ) by {
                        lemma_push_contains(before, entry, pair);
                        lemma_push_contains(seen, entry, pair);
                    }
                }
            } else {
                proof {
                    assert forall|pair: (Seq<char>, u32)|
                        before.contains(pair) <==> seen_next.contains(pair) && !pair_known(
                            self.sessions(),
                            pair.0,
                            pair.1,
                        ) by {
                        lemma_push_contains(seen, entry, pair);
                    }
                }
            }
            i += 1;
        }
        proof {
            assert(listing@.take(listing@.len() as int) =~= listing@);
        }
        let mut departures: Vec<Listed> = Vec::new();
        let mut j: usize = 0;
        while j < self.sessions.len()
            invariant
                self.wf(),
                j <= self.sessions@.len(),
                forall|k: int|
                    0 <= k < departures@.len() ==> exists|o: int|
                        0 <= o < j && #[trigger] listed_views(departures@)[k] == (
                            self.sessions@[o]@.path,
                            self.sessions@[o]@.uid,
                        ),
                listed_views(departures@).no_duplicates(),
                forall|pair: (Seq<char>, u32)|
                    listed_views(departures@).contains(pair) <==> (exists|o: int|
                        0 <= o < j && (#[trigger] self.sessions@[o])@.path == pair.0
                            && self.sessions@[o]@.uid == pair.1) && !listed_views(
                        listing@,
                    ).contains(pair),
            decreases self.sessions@.len() - j,
        {
            let uid = self.sessions[j].uid;
            let ghost entry = (self.sessions@[j as int]@.path, uid);
            let ghost before = listed_views(departures@);
            if !listing_has(listing, self.sessions[j].path.as_str(), uid) {
                departures.push((self.sessions[j].path.clone(), uid));
                proof {
                    let after = listed_views(departures@);
                    assert(after =~= before.push(entry));
                    assert(!before.contains(entry)) by {
                        if before.contains(entry) {
                            let o = choose|o: int|
                                0 <= o < j && (#[trigger] self.sessions@[o])@.path == entry.0
                                    && self.sessions@[o]@.uid == entry.1;
                            assert(self.sessions@[o]@.path != self.sessions@[j as int]@.path);
                        }
                    }
                    assert forall|k: int| 0 <= k < after.len() implies exists|o: int|
                        0 <= o < j + 1 && #[trigger] after[k] == (
                            self.sessions@[o]@.path,
                            self.sessions@[o]@.uid,
                        ) by {
                        if k < before.len() {
                            assert(after[k] == before[k]);
                            let o = choose|o: int|
                                0 <= o < j && before[k] == (
                                    self.sessions@[o]@.path,
                                    self.sessions@[o]@.uid,
                                );
                            assert(after[k] == (self.sessions@[o]@.path, self.sessions@[o]@.uid));
                        } else {
                            assert(after[k] == (
                                self.sessions@[j as int]@.path,
                                self.sessions@[j as int]@.uid,
                            ));
                        }
                    }
                    assert forall|pair: (Seq<char>, u32)|
                        after.contains(pair) <==> (exists|o: int|
                            0 <= o < j + 1 && (#[trigger] self.sessions@[o])@.path == pair.0
                                && self.sessions@[o]@.uid == pair.1) && !listed_views(
                            listing@,
                        ).contains(pair) by {
                        lemma_push_contains(before, entry, pair);
                        if pair == entry {
                            assert(self.sessions@[j as int]@.path == pair.0);
                        }
                        if exists|o: int|
                            0 <= o < j + 1 && (#[trigger] self.sessions@[o])@.path == pair.0
                                && self.sessions@[o]@.uid == pair.1 {
                            let o = choose|o: int|
                                0 <= o < j + 1 && (#[trigger] self.sessions@[o])@.path == pair.0
                                    && self.sessions@[o]@.uid == pair.1;
                            if o < j {
                                assert(self.sessions@[o]@.path == pair.0);
                            }
                        }
                    }
                }
            } else {
                proof {
                    assert forall|pair: (Seq<char>, u32)|
                        before.contains(pair) <==> (exists|o: int|
                            0 <= o < j + 1 && (#[trigger] self.sessions@[o])@.path == pair.0
                                && self.sessions@[o]@.uid == pair.1) && !listed_views(
                            listing@,
                        ).contains(pair) by {
                        if exists|o: int|
                            0 <= o < j + 1 && (#[trigger] self.sessions@[o])@.path == pair.0
                                && self.sessions@[o]@.uid == pair.1 {
                            let o = choose|o: int|
                                0 <= o < j + 1 && (#[trigger] self.sessions@[o])@.path == pair.0
                                    && self.sessions@[o]@.uid == pair.1;
                            if o < j {
                                assert(self.sessions@[o]@.path == pair.0);
                            }
                        }
                        if before.contains(pair) {
                            let o = choose|o: int|
                                0 <= o < j && (#[trigger] self.sessions@[o])@.path == pair.0
                                    && self.sessions@[o]@.uid == pair.1;
                            assert(self.sessions@[o]@.path == pair.0);
                        }
                    }
                }
            }
            j += 1;
        }
        proof {
            assert forall|pair: (Seq<char>, u32)|
                listed_views(departures@).contains(pair) <==> pair_known(
                    self.sessions(),
                    pair.0,
                    pair.1,
                ) && !listed_views(listing@).contains(pair) by {
                if pair_known(self.sessions(), pair.0, pair.1) {
                    let v = choose|v: SessionView|
                        self.sessions().contains(v) && v.path == pair.0 && v.uid == pair.1;
                    let o = choose|o: int| 0 <= o < self.sessions@.len() && self.sessions@[o]@ == v;
                    assert(self.sessions@[o]@.path == pair.0);
                }
                if exists|o: int|
                    0 <= o < j && (#[trigger] self.sessions@[o])@.path == pair.0
                        && self.sessions@[o]@.uid == pair.1 {
                    let o = choose|o: int|
                        0 <= o < j && (#[trigger] self.sessions@[o])@.path == pair.0
                            && self.sessions@[o]@.uid == pair.1;
                    assert(self.sessions().contains(self.sessions@[o]@));
                }
            }
        }
        RefreshPlan { arrivals, departures }
    }

    /// The tracked sessions that have a display.
    pub fn active_displays(&self) -> (shown: Vec<Session>)
        ensures
            session_set(shown@) == self.active(),
            distinct_sessions(shown@),
    {
        let mut shown: Vec<Session> = Vec::new();
        let mut i: usize = 0;
        proof {
            assert(session_set(shown@) =~= active_of(session_set(self.sessions@.take(0))));
        }
        while i < self.sessions.len()
            invariant
                i <= self.sessions@.len(),
                session_set(shown@) == active_of(session_set(self.sessions@.take(i as int))),
                distinct_sessions(shown@),
            decreases self.sessions@.len() - i,
        {
            let ghost before = shown@;
            let ghost seen = session_set(self.sessions@.take(i as int));
            let ghost added = self.sessions@[i as int]@;
            proof {
                lemma_session_set_take(self.sessions@, i as int);
            }
            if self.sessions[i].has_display() && !contains_session(&shown, &self.sessions[i]) {
                let copy = self.sessions[i].duplicate();
                shown.push(copy);
                proof {
                    lemma_session_set_push(before, copy);
                    assert(session_set(shown@) =~= active_of(seen.insert(added)));
                    assert forall|k: int, l: int| 0 <= k < l < shown@.len() implies shown@[k]@
                        != shown@[l]@ by {
                        if l == before.len() {
                            assert(shown@[k] == before[k]);
                            assert(session_set(before).contains(before[k]@));
                        } else {
                            assert(shown@[k] == before[k] && shown@[l] == before[l]);
                        }
                    }
                }
            } else {
                proof {
                    assert(session_set(shown@) =~= active_of(seen.insert(added)));
                }
            }
            i += 1;
        }
        proof {
            assert(self.sessions@.take(self.sessions@.len() as int) =~= self.sessions@);
        }
        shown
    }

    /// Notifies everyone who waits for the set of active displays to change,
    /// oldest first and each once, and leaves no waiter behind.
    pub fn wake_display_waiters(&mut self) -> (woken: usize)
        ensures
            woken == old(self).waiters().len(),
            final(self).waiters() == Seq::<Waker>::empty(),
            final(self).sessions() == old(self).sessions(),
            old(self).wf() ==> final(self).wf(),
    {
        let mut due: Vec<Waker> = Vec::new();
        std::mem::swap(&mut self.display_change_wakers, &mut due);
        notify_all(&due)
    }

    /// Adds `waker` to those who wait for the set of active displays to
    /// change.
    pub(crate) fn hook_display_waiter(&mut self, waker: &Waker)
        ensures
            final(self).waiters() == old(self).waiters().push(cloned_waker(*waker)),
            final(self).sessions() == old(self).sessions(),
            old(self).wf() ==> final(self).wf(),
    {
        self.display_change_wakers.push(clone_waker(waker));
    }

    /// The users among the owners of `released` who have no session left in
    /// the registry, each once.
    pub fn orphaned_users(&self, released: &Vec<Session>) -> (uids: Vec<u32>)
        ensures
            uids@.no_duplicates(),
            forall|uid: u32|
                uids@.contains(uid) <==> users_of(session_set(released@)).contains(uid)
                    && !users_of(self.sessions()).contains(uid),
    {
        let mut uids: Vec<u32> = Vec::new();
        let mut i: usize = 0;
        while i < released.len()
            invariant
                i <= released@.len(),
                uids@.no_duplicates(),
                forall|uid: u32|
                    uids@.contains(uid) <==> (exists|o: int|
                        0 <= o < i && (#[trigger] released@[o])@.uid == uid) && !users_of(
                        self.sessions(),
                    ).contains(uid),
            decreases released@.len() - i,
        {
            let uid = released[i].uid;
            let ghost before = uids@;
            if self.needs_user_bus(uid) && !has_uid(&uids, uid) {
                uids.push(uid);
                proof {
                    assert forall|sought: u32|
                        uids@.contains(sought) <==> (exists|o: int|
                            0 <= o < i + 1 && (#[trigger] released@[o])@.uid == sought)
                            && !users_of(self.sessions()).contains(sought) by {
                        lemma_push_contains(before, uid, sought);
                        if sought == uid {
                            assert(released@[i as int]@.uid == sought);
                        }
                        if exists|o: int|
                            0 <= o < i + 1 && (#[trigger] released@[o])@.uid == sought {
                            let o = choose|o: int|
                                0 <= o < i + 1 && (#[trigger] released@[o])@.uid == sought;
                            if o < i {
                                assert(released@[o]@.uid == sought);
                            }
                        }
                    }
                    lemma_push_contains(before, uid, uid);
                }
            } else {
                proof {
                    assert forall|sought: u32|
                        before.contains(sought) <==> (exists|o: int|
                            0 <= o < i + 1 && (#[trigger] released@[o])@.uid == sought)
                            && !users_of(self.sessions()).contains(sought) by {
                        if exists|o: int|
                            0 <= o < i + 1 && (#[trigger] released@[o])@.uid == sought {
                            let o = choose|o: int|
                                0 <= o < i + 1 && (#[trigger] released@[o])@.uid == sought;
                            if o < i {
                                assert(released@[o]@.uid == sought);
                            }
                        }
                        if before.contains(sought) {
                            let o = choose|o: int|
                                0 <= o < i && (#[trigger] released@[o])@.uid == sought;
                            assert(released@[o]@.uid == sought);
                        }
                    }
                }
            }
            i += 1;
        }
        proof {
            assert forall|uid: u32|
                uids@.contains(uid) <==> users_of(session_set(released@)).contains(uid)
                    && !users_of(self.sessions()).contains(uid) by {
                if users_of(session_set(released@)).contains(uid) {
                    let v = choose|v: SessionView|
                        session_set(released@).contains(v) && v.uid == uid;
                    let o = choose|o: int| 0 <= o < released@.len() && released@[o]@ == v;
                    assert(released@[o]@.uid == uid);
                }
                if exists|o: int| 0 <= o < i && (#[trigger] released@[o])@.uid == uid {
                    let o = choose|o: int| 0 <= o < i && (#[trigger] released@[o])@.uid == uid;
                    assert(session_set(released@).contains(released@[o]@));
                }
            }
        }
        uids
    }

    /// Carries out one refresh: the sessions of `arrivals` are taken in, one
    /// after the other; the sessions listed in `departures` are dropped; and
    /// if either changed the set of active displays, everyone who waits for
    /// such a change is notified, once.
    pub fn refresh(&mut self, arrivals: &Vec<Session>, departures: &Vec<Listed>) -> (done:
        Refreshed)
        requires
            old(self).wf(),
        ensures
            final(self).wf(),
            final(self).sessions() == release_all(
                enroll_all(old(self).sessions(), session_views(arrivals@)),
                listed_views(departures@),
            ),
            done.notified == (active_of(
                enroll_all(old(self).sessions(), session_views(arrivals@)),
            ) != old(self).active() || final(self).active() != active_of(
                enroll_all(old(self).sessions(), session_views(arrivals@)),
            )),
            final(self).waiters() == if done.notified {
                Seq::<Waker>::empty()
            } else {
                old(self).waiters()
            },
            session_set(done.released@) == enroll_all(
                old(self).sessions(),
                session_views(arrivals@),
            ).difference(final(self).sessions()),
            distinct_sessions(done.released@),
            done.closed_buses@.no_duplicates(),
            forall|uid: u32|
                done.closed_buses@.contains(uid) <==> users_of(
                    enroll_all(old(self).sessions(), session_views(arrivals@)),
                ).contains(uid) && !users_of(final(self).sessions()).contains(uid),
    {
        let ghost start = self.sessions();
        let ghost coming = session_views(arrivals@);
        let mut gained = false;
        let ghost mut gain: SessionView = arbitrary();
        let mut i: usize = 0;
        proof {
            assert(coming.take(0) =~= Seq::<SessionView>::empty());
        }
        while i < arrivals.len()
            invariant
                i <= arrivals@.len(),
                coming == session_views(arrivals@),
                self.wf(),
                self.waiters() == old(self).waiters(),
                self.sessions() == enroll_all(start, coming.take(i as int)),
                start.subset_of(self.sessions()),
                gained ==> active_of(self.sessions()).contains(gain) && !start.contains(gain),
                !gained ==> active_of(self.sessions()) == active_of(start),
            decreases arrivals@.len() - i,
        {
            let ghost before = self.sessions();
            let shows = arrivals[i].has_display();
            let enrolled = self.enroll(arrivals[i].duplicate());
            proof {
                assert(coming.take(i + 1).drop_last() =~= coming.take(i as int));
                assert(coming.take(i + 1).last() == arrivals@[i as int]@);
                if enrolled && shows {
                    gain = arrivals@[i as int]@;
                    assert(!before.contains(gain));
                } else if !gained {
                    assert(active_of(self.sessions()) =~= active_of(start));
                }
            }
            if enrolled && shows {
                gained = true;
            }
            i += 1;
        }
        proof {
            assert(coming.take(arrivals@.len() as int) =~= coming);
        }
        let ghost mid = self.sessions();
        let ghost going = listed_views(departures@);
        let mut released: Vec<Session> = Vec::new();
        let mut lost = false;
        let ghost mut loss: SessionView = arbitrary();
        let mut j: usize = 0;
        proof {
            assert(going.take(0) =~= Seq::<(Seq<char>, u32)>::empty());
            assert(self.sessions() =~= release_all(mid, going.take(0)));
            assert(session_set(released@) =~= mid.difference(self.sessions()));
        }
        while j < departures.len()
            invariant
                j <= departures@.len(),
                going == listed_views(departures@),
                self.wf(),
                self.waiters() == old(self).waiters(),
                self.sessions() == release_all(mid, going.take(j as int)),
                session_set(released@) == mid.difference(self.sessions()),
                distinct_sessions(released@),
                lost ==> active_of(mid).contains(loss) && !self.sessions().contains(loss),
                !lost ==> active_of(self.sessions()) == active_of(mid),
            decreases departures@.len() - j,
        {
            let ghost before = self.sessions();
            let ghost handed = released@;
            let ghost holder = *self;
            let ghost pair = going[j as int];
            let gone = self.release(departures[j].0.as_str(), departures[j].1);
            proof {
                assert(going.take(j + 1) =~= going.take(j as int).push(pair));
                assert forall|v: SessionView|
                    self.sessions().contains(v) <==> release_all(mid, going.take(j + 1)).contains(
                        v,
                    ) by {
                    lemma_push_contains(going.take(j as int), pair, (v.path, v.uid));
                    if seq![pair].contains((v.path, v.uid)) {
                        assert(seq![pair][0] == (v.path, v.uid));
                    }
                    if pair == (v.path, v.uid) {
                        assert(seq![pair][0] == (v.path, v.uid));
                    }
                }
                assert(self.sessions() =~= release_all(mid, going.take(j + 1)));
            }
            match gone {
                Some(session) => {
                    let shows = session.has_display();
                    proof {
                        let left = session@;
                        assert(seq![pair][0] == (left.path, left.uid));
                        assert(!self.sessions().contains(left));
                        assert forall|v: SessionView|
                            before.contains(v) && !self.sessions().contains(v) implies v
                            == left by {
                            assert(seq![pair].contains((v.path, v.uid)));
                            assert(seq![pair][0] == (v.path, v.uid));
                            holder.lemma_one_session_for_each_path(v, left);
                        }
                        lemma_session_set_push(handed, session);
                        assert(session_set(handed.push(session)) =~= mid.difference(
                            self.sessions(),
                        ));
                        assert forall|k: int, l: int|
                            0 <= k < l < handed.push(session).len() implies handed.push(
                            session,
                        )[k]@ != handed.push(session)[l]@ by {
                            if l == handed.len() {
                                assert(session_set(handed).contains(handed[k]@));
                            }
                        }
                        if shows {
                            loss = left;
                        } else if !lost {
                            assert(active_of(self.sessions()) =~= active_of(mid));
                        }
                    }
                    if shows {
                        lost = true;
                    }
                    released.push(session);
                },
                None => {
                    proof {
                        assert forall|v: SessionView| before.contains(v) implies self.sessions().contains(
                            v,
                        ) by {
                            if seq![pair].contains((v.path, v.uid)) {
                                assert(seq![pair][0] == (v.path, v.uid));
                            }
                        }
                        assert(self.sessions() =~= before);
                    }
                },
            }
            j += 1;
        }
        proof {
            assert(going.take(departures@.len() as int) =~= going);
        }
        let closed_buses = self.orphaned_users(&released);
        proof {
            assert forall|uid: u32|
                closed_buses@.contains(uid) <==> users_of(mid).contains(uid) && !users_of(
                    self.sessions(),
                ).contains(uid) by {
                if users_of(mid).contains(uid) && !users_of(self.sessions()).contains(uid) {
                    let v = choose|v: SessionView| mid.contains(v) && v.uid == uid;
                    assert(session_set(released@).contains(v));
                }
                if users_of(session_set(released@)).contains(uid) {
                    let v = choose|v: SessionView|
                        session_set(released@).contains(v) && v.uid == uid;
                    assert(mid.contains(v));
                }
            }
        }
        let notified = gained || lost;
        if notified {
            self.wake_display_waiters();
        }
        Refreshed { notified, released, closed_buses }
    }

    /// Drops every session of `uid`, as is due when the bus connection of
    /// the user is lost: the sessions are found anew by the next refresh,
    /// which opens the connection again. Those who wait for the displays to
    /// change are notified if a display went with the sessions.
    pub fn forget_user(&mut self, uid: u32) -> (done: Refreshed)
        requires
            old(self).wf(),
        ensures
            final(self).wf(),
            final(self).sessions() == Set::new(
                |v: SessionView| old(self).sessions().contains(v) && v.uid != uid,
            ),
            session_set(done.released@) == Set::new(
                |v: SessionView| old(self).sessions().contains(v) && v.uid == uid,
            ),
            distinct_sessions(done.released@),
            done.notified == (final(self).active() != old(self).active()),
            final(self).waiters() == if done.notified {
                Seq::<Waker>::empty()
            } else {
                old(self).waiters()
            },
    {
        let mut gone: Vec<Listed> = Vec::new();
        let mut i: usize = 0;
        while i < self.sessions.len()
            invariant
                i <= self.sessions@.len(),
                forall|pair: (Seq<char>, u32)|
                    listed_views(gone@).contains(pair) <==> pair.1 == uid && exists|o: int|
                        0 <= o < i && (#[trigger] self.sessions@[o])@.path == pair.0
                            && self.sessions@[o]@.uid == uid,
            decreases self.sessions@.len() - i,
        {
            let ghost before = listed_views(gone@);
            let ghost entry = (self.sessions@[i as int]@.path, uid);
            if self.sessions[i].uid == uid {
                gone.push((self.sessions[i].path.clone(), uid));
                proof {
                    assert(listed_views(gone@) =~= before.push(entry));
                    assert forall|pair: (Seq<char>, u32)|
                        listed_views(gone@).contains(pair) <==> pair.1 == uid && exists|o: int|
                            0 <= o < i + 1 && (#[trigger] self.sessions@[o])@.path == pair.0
                                && self.sessions@[o]@.uid == uid by {
                        lemma_push_contains(before, entry, pair);
                        if pair == entry {
                            assert(self.sessions@[i as int]@.path == pair.0);
                        }
                        if exists|o: int|
                            0 <= o < i + 1 && (#[trigger] self.sessions@[o])@.path == pair.0
                                && self.sessions@[o]@.uid == uid {
                            let o = choose|o: int|
                                0 <= o < i + 1 && (#[trigger] self.sessions@[o])@.path == pair.0
                                    && self.sessions@[o]@.uid == uid;
                            if o < i {
                                assert(self.sessions@[o]@.path == pair.0);
                            }
                        }
                    }
                }
            } else {
                proof {
                    assert forall|pair: (Seq<char>, u32)|
                        before.contains(pair) <==> pair.1 == uid && exists|o: int|
                            0 <= o < i + 1 && (#[trigger] self.sessions@[o])@.path == pair.0
                                && self.sessions@[o]@.uid == uid by {
                        if exists|o: int|
                            0 <= o < i + 1 && (#[trigger] self.sessions@[o])@.path == pair.0
                                && self.sessions@[o]@.uid == uid {
                            let o = choose|o: int|
                                0 <= o < i + 1 && (#[trigger] self.sessions@[o])@.path == pair.0
                                    && self.sessions@[o]@.uid == uid;
                            if o < i {
                                assert(self.sessions@[o]@.path == pair.0);
                            }
                        }
                        if before.contains(pair) {
                            let o = choose|o: int|
                                0 <= o < i && (#[trigger] self.sessions@[o])@.path == pair.0
                                    && self.sessions@[o]@.uid == uid;
                            assert(self.sessions@[o]@.path == pair.0);
                        }
                    }
                }
            }
            i += 1;
        }
        let nobody: Vec<Session> = Vec::new();
        proof {
            assert(session_views(nobody@) =~= Seq::<SessionView>::empty());
            assert forall|v: SessionView| old(self).sessions().contains(v) implies (listed_views(
                gone@,
            ).contains((v.path, v.uid)) <==> v.uid == uid) by {
                let o = choose|o: int| 0 <= o < self.sessions@.len() && self.sessions@[o]@ == v;
                assert(self.sessions@[o]@.path == v.path);
            }
            assert(release_all(old(self).sessions(), listed_views(gone@)) =~= Set::new(
                |v: SessionView| old(self).sessions().contains(v) && v.uid != uid,
            ));
        }
        let done = self.refresh(&nobody, &gone);
        proof {
            assert(session_set(done.released@) =~= Set::new(
                |v: SessionView| old(self).sessions().contains(v) && v.uid == uid,
            ));
        }
        done
    }
}

/// Whether a listing names the session with this object path and this owner.
pub fn listing_has(listing: &Vec<Listed>, path: &str, uid: u32) -> (found: bool)
    ensures
        found == listed_views(listing@).contains((path@, uid)),
{
    let mut i: usize = 0;
    while i < listing.len()
        invariant
            i <= listing@.len(),
            forall|k: int| 0 <= k < i ==> listed_views(listing@)[k] != (path@, uid),
        decreases listing@.len() - i,
    {
        if listing[i].1 == uid && str_eq(listing[i].0.as_str(), path) {
            assert(listed_views(listing@)[i as int] == (path@, uid));
            return true;
        }
        i += 1;
    }
    false
}

/// Where nothing is known of the sessions of `arrivals` and no two of them
/// share a path, taking them in adds exactly them, in whatever order they come.
pub proof fn lemma_enroll_new_sessions(before: Set<SessionView>, arrivals: Seq<SessionView>)
    requires
        forall|i: int| 0 <= i < arrivals.len() ==> !path_known(before, #[trigger] arrivals[i].path),
        forall|i: int, j: int|
            0 <= i < j < arrivals.len() ==> #[trigger] arrivals[i].path != #[trigger] arrivals[j].path,
    ensures
        enroll_all(before, arrivals) == before.union(arrivals.to_set()),
    decreases arrivals.len(),
{
    if arrivals.len() == 0 {
        assert(before.union(arrivals.to_set()) =~= before);
    } else {
        let front = arrivals.drop_last();
        let last = arrivals.last();
        assert forall|i: int| 0 <= i < front.len() implies !path_known(
            before,
            #[trigger] front[i].path,
        ) by {
            assert(front[i] == arrivals[i]);
        }
        assert forall|i: int, j: int| 0 <= i < j < front.len() implies #[trigger] front[i].path
            != #[trigger] front[j].path by {
            assert(front[i] == arrivals[i] && front[j] == arrivals[j]);
        }
        lemma_enroll_new_sessions(before, front);
        let sofar = before.union(front.to_set());
        assert(!path_known(sofar, last.path)) by {
            if path_known(sofar, last.path) {
                let v = choose|v: SessionView| sofar.contains(v) && v.path == last.path;
                if before.contains(v) {
                    assert(path_known(before, arrivals[arrivals.len() - 1].path));
                } else {
                    let k = choose|k: int| 0 <= k < front.len() && front[k] == v;
                    assert(arrivals[k].path != arrivals[arrivals.len() - 1].path);
                }
            }
        }
        assert forall|v: SessionView|
            sofar.insert(last).contains(v) <==> before.union(arrivals.to_set()).contains(v) by {
            if front.to_set().contains(v) {
                let k = choose|k: int| 0 <= k < front.len() && front[k] == v;
                assert(arrivals[k] == v);
            }
            if arrivals.to_set().contains(v) {
                let k = choose|k: int| 0 <= k < arrivals.len() && arrivals[k] == v;
                if k < front.len() {
                    assert(front[k] == v);
                }
            }
            if v == last {
                assert(arrivals[arrivals.len() - 1] == v);
            }
        }
        assert(sofar.insert(last) =~= before.union(arrivals.to_set()));
    }
}

/// After a refresh the set of active displays is the set from before,
/// joined with the newly seen sessions that have a display, less the
/// departed ones. It depends on which sessions arrive and depart, not on the
/// order in which the arrivals are looked into: any other order of the same
/// arrivals leaves the same sessions in the registry.
pub proof fn lemma_refresh_active_displays(
    before: Set<SessionView>,
    arrivals: Seq<SessionView>,
    reordered: Seq<SessionView>,
    departures: Seq<(Seq<char>, u32)>,
)
    requires
        forall|i: int| 0 <= i < arrivals.len() ==> !path_known(before, #[trigger] arrivals[i].path),
        forall|i: int, j: int|
            0 <= i < j < arrivals.len() ==> #[trigger] arrivals[i].path != #[trigger] arrivals[j].path,
        forall|i: int, j: int|
            0 <= i < j < reordered.len() ==> #[trigger] reordered[i].path
                != #[trigger] reordered[j].path,
        arrivals.to_set() == reordered.to_set(),
    ensures
        active_of(release_all(enroll_all(before, arrivals), departures)) == active_of(before).union(
            active_of(arrivals.to_set()),
        ).difference(
            Set::new(|v: SessionView| v.has_display() && departures.contains((v.path, v.uid))),
        ),
        release_all(enroll_all(before, reordered), departures) == release_all(
            enroll_all(before, arrivals),
            departures,
        ),
{
    lemma_enroll_new_sessions(before, arrivals);
    assert forall|i: int| 0 <= i < reordered.len() implies !path_known(
        before,
        #[trigger] reordered[i].path,
    ) by {
        assert(reordered.to_set().contains(reordered[i]));
        assert(arrivals.to_set().contains(reordered[i]));
        let k = choose|k: int| 0 <= k < arrivals.len() && arrivals[k] == reordered[i];
        assert(!path_known(before, arrivals[k].path));
    }
    lemma_enroll_new_sessions(before, reordered);
    assert(active_of(release_all(enroll_all(before, arrivals), departures)) =~= active_of(
        before,
    ).union(active_of(arrivals.to_set())).difference(
        Set::new(|v: SessionView| v.has_display() && departures.contains((v.path, v.uid))),
    ));
}

/// Whether `uid` is in `uids`.
fn has_uid(uids: &Vec<u32>, uid: u32) -> (found: bool)
    ensures
        found == uids@.contains(uid),
{
    let mut i: usize = 0;
    while i < uids.len()
        invariant
            i <= uids@.len(),
            forall|k: int| 0 <= k < i ==> uids@[k] != uid,
        decreases uids@.len() - i,
    {
        if uids[i] == uid {
            return true;
        }
        i += 1;
    }
    false
}

/// An item is in a list with one more item if it is in the list or is that item.
proof fn lemma_push_contains<T>(list: Seq<T>, last: T, sought: T)
    ensures
        list.push(last).contains(sought) <==> list.contains(sought) || sought == last,
        list.no_duplicates() && !list.contains(last) ==> list.push(last).no_duplicates(),
{
    let longer = list.push(last);
    if list.contains(sought) {
        let i = choose|i: int| 0 <= i < list.len() && list[i] == sought;
        assert(longer[i] == sought);
    }
    if sought == last {
        assert(longer[list.len() as int] == sought);
    }
    if longer.contains(sought) {
        let i = choose|i: int| 0 <= i < longer.len() && longer[i] == sought;
        if i < list.len() {
            assert(list[i] == sought);
        }
    }
}

} // verus!
