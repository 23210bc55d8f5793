//! Login sessions as the registry records them, and lists of sessions read
//! as sets.

use vstd::prelude::*;

verus! {


/// Data representing a login session of an interactive user.
#[derive(Debug, Default, Clone, PartialEq, Eq, Hash)]
pub struct Session {
    /// The object path by which the session manager knows the session.
    pub path: String,
    /// The display of the session; empty if it has none.
    pub display: String,
    /// The authority file that gives access to the display; empty if none
    /// is known.
    pub xauthority_path: String,
    /// The user who owns the session.
    pub uid: u32,
}

/// A login session, as plain values.
pub struct SessionView {
    pub path: Seq<char>,
    pub display: Seq<char>,
    pub xauthority_path: Seq<char>,
    pub uid: u32,
}

impl SessionView {
    /// Whether the session has a display, and so counts as an active display.
    pub open spec fn has_display(self) -> bool {
        self.display.len() > 0
    }
}

impl View for Session {
    type V = SessionView;

    open spec fn view(&self) -> SessionView {
        SessionView {
            path: self.path@,
            display: self.display@,
            xauthority_path: self.xauthority_path@,
            uid: self.uid,
        }
    }
}

impl Session {
    /// A copy of the session.
    pub fn duplicate(&self) -> (copy: Session)
        ensures
            copy@ == self@,
    {
        Session {
            path: self.path.clone(),
            display: self.display.clone(),
            xauthority_path: self.xauthority_path.clone(),
            uid: self.uid,
        }
    }

    /// Whether two sessions agree in every attribute.
    pub fn same(&self, other: &Session) -> (same: bool)
        ensures
            same == (self@ == other@),
    {
        let same = self.uid == other.uid && self.path == other.path && self.display
            == other.display && self.xauthority_path == other.xauthority_path;
        proof {
            if same {
                assert(self@.path =~= other@.path);
                assert(self@.display =~= other@.display);
                assert(self@.xauthority_path =~= other@.xauthority_path);
            }
        }
        same
    }

    /// Whether the session has a display.
    pub fn has_display(&self) -> (shown: bool)
        ensures
            shown == self@.has_display(),
    {
        self.display.as_str().unicode_len() > 0
    }
}

/// The sessions of a list, as a set of plain values.
pub open spec fn session_set(list: Seq<Session>) -> Set<SessionView> {
    Set::new(|v: SessionView| exists|i: int| 0 <= i < list.len() && #[trigger] list[i]@ == v)
}

/// Whether no session occurs twice in a list.
pub open spec fn distinct_sessions(list: Seq<Session>) -> bool {
    forall|i: int, j: int| 0 <= i < j < list.len() ==> list[i]@ != list[j]@
}

/// Whether a session with the attributes of `session` is in `list`.
pub fn contains_session(list: &Vec<Session>, session: &Session) -> (found: bool)
    ensures
        found == session_set(list@).contains(session@),
{
    let mut i: usize = 0;
    while i < list.len()
        invariant
            i <= list@.len(),
            forall|k: int| 0 <= k < i ==> list@[k]@ != session@,
        decreases list@.len() - i,
    {
        if list[i].same(session) {
            return true;
        }
        i += 1;
    }
    false
}

/// The sessions of `list` that are not in `other`, in the order of `list`.
pub fn sessions_without(list: &Vec<Session>, other: &Vec<Session>) -> (rest: Vec<Session>)
    ensures
        session_set(rest@) == session_set(list@).difference(session_set(other@)),
        distinct_sessions(list@) ==> distinct_sessions(rest@),
{
    let mut rest: Vec<Session> = Vec::new();
    let ghost mut origin: Seq<int> = Seq::empty();
    let mut i: usize = 0;
    while i < list.len()
        invariant
            i <= list@.len(),
            origin.len() == rest@.len(),
            forall|k: int|
                0 <= k < rest@.len() ==> 0 <= #[trigger] origin[k] < i && rest@[k]@
                    == list@[origin[k]]@ && !session_set(other@).contains(rest@[k]@),
            forall|k: int, l: int| 0 <= k < l < rest@.len() ==> origin[k] < origin[l],
            forall|k: int|
                0 <= k < i && !session_set(other@).contains(#[trigger] list@[k]@) ==> session_set(
                    rest@,
                ).contains(list@[k]@),
        decreases list@.len() - i,
    {
        if !contains_session(other, &list[i]) {
            let ghost before = rest@;
            rest.push(list[i].duplicate());
            proof {
                origin = origin.push(i as int);
                assert(rest@[rest@.len() - 1]@ == list@[i as int]@);
                assert forall|k: int|
                    0 <= k <= i && !session_set(other@).contains(
                        #[trigger] list@[k]@,
                    ) implies session_set(rest@).contains(list@[k]@) by {
                    if k < i {
                        let w = choose|w: int| 0 <= w < before.len() && before[w]@ == list@[k]@;
                        assert(rest@[w]@ == list@[k]@);
                    }
                }
            }
        }
        i += 1;
    }
    proof {
        assert forall|v: SessionView|
            session_set(rest@).contains(v) <==> session_set(list@).difference(
                session_set(other@),
            ).contains(v) by {
            if session_set(rest@).contains(v) {
                let k = choose|k: int| 0 <= k < rest@.len() && rest@[k]@ == v;
                assert(list@[origin[k]]@ == v);
            }
            if session_set(list@).contains(v) && !session_set(other@).contains(v) {
                let k = choose|k: int| 0 <= k < list@.len() && list@[k]@ == v;
                assert(session_set(rest@).contains(list@[k]@));
            }
        }
        assert(session_set(rest@) =~= session_set(list@).difference(session_set(other@)));
        if distinct_sessions(list@) {
            assert forall|k: int, l: int| 0 <= k < l < rest@.len() implies rest@[k]@
                != rest@[l]@ by {
                assert(origin[k] < origin[l]);
            }
        }
    }
    rest
}

/// The sessions of a list, as plain values, in order.
pub open spec fn session_views(list: Seq<Session>) -> Seq<SessionView> {
    list.map_values(|session: Session| session@)
}

/// The sessions of a list with one more session are those of the list and
/// that session.
pub proof fn lemma_session_set_push(list: Seq<Session>, last: Session)
    ensures
        session_set(list.push(last)) == session_set(list).insert(last@),
{
    let longer = list.push(last);
    assert forall|v: SessionView| session_set(longer).contains(v) <==> session_set(list).insert(
        last@,
    ).contains(v) by {
        if session_set(longer).contains(v) {
            let k = choose|k: int| 0 <= k < longer.len() && longer[k]@ == v;
            if k < list.len() {
                assert(list[k]@ == v);
            }
        }
        if session_set(list).contains(v) {
            let k = choose|k: int| 0 <= k < list.len() && list[k]@ == v;
            assert(longer[k]@ == v);
        }
        if v == last@ {
            assert(longer[list.len() as int]@ == v);
        }
    }
    assert(session_set(longer) =~= session_set(list).insert(last@));
}

/// The sessions among the first `n + 1` of a list are those among the first
/// `n` and the one behind them.
pub proof fn lemma_session_set_take(list: Seq<Session>, n: int)
    requires
        0 <= n < list.len(),
    ensures
        session_set(list.take(n + 1)) == session_set(list.take(n)).insert(list[n]@),
{
    assert(list.take(n + 1) =~= list.take(n).push(list[n]));
    lemma_session_set_push(list.take(n), list[n]);
}

} // verus!
