//! What is made of the answers of the session manager when a new session is
//! looked into.

use crate::dbus_manager::sessions::{Session, SessionView};
use crate::text::{has_prefix, str_eq, strip_prefix, text_views};
use vstd::prelude::*;

verus! {

/// Whether a session of this class is a login session of an interactive
/// user. Sessions of any other class are passed over, and looked at again
/// with every refresh for as long as they are listed.
pub fn is_user_class(class: &str) -> (interactive: bool)
    ensures
        interactive == (class@ == "user"@),
{
    str_eq(class, "user")
}

/// The address of the private bus of a user, given the runtime directory of
/// the user.
pub fn user_bus_address(runtime_path: &str) -> (address: String)
    ensures
        address@ == "unix:path="@ + runtime_path@ + "/bus"@,
{
    let mut address = String::from_str("unix:path=");
    address.append(runtime_path);
    address.append("/bus");
    address
}

/// What stands behind `XAUTHORITY=` in an entry of an environment that
/// begins so.
pub open spec fn xauthority_value(entry: Seq<char>) -> Seq<char> {
    entry.subrange("XAUTHORITY="@.len() as int, entry.len() as int)
}

/// The authority file that an environment names: the value of its first
/// entry for `XAUTHORITY`, and nothing if it has none.
pub open spec fn first_xauthority(env: Seq<Seq<char>>) -> Seq<char>
    decreases env.len(),
{
    if env.len() == 0 {
        Seq::empty()
    } else if has_prefix(env[0], "XAUTHORITY="@) {
        xauthority_value(env[0])
    } else {
        first_xauthority(env.drop_first())
    }
}

/// The authority file that an environment names, with `fallback` for an
/// environment that names none; of several entries the last one counts.
pub open spec fn last_xauthority(env: Seq<Seq<char>>, fallback: Seq<char>) -> Seq<char>
    decreases env.len(),
{
    if env.len() == 0 {
        fallback
    } else if has_prefix(env.last(), "XAUTHORITY="@) {
        xauthority_value(env.last())
    } else {
        last_xauthority(env.drop_last(), fallback)
    }
}

/// The authority file that the environment of a user's service manager
/// names, as the registry records it for a session with a display.
pub fn xauthority_of(env: &Vec<String>) -> (file: String)
    ensures
        file@ == first_xauthority(text_views(env@)),
{
    let mut i: usize = 0;
    proof {
        assert(text_views(env@).skip(0) =~= text_views(env@));
    }
    while i < env.len()
        invariant
            i <= env@.len(),
            first_xauthority(text_views(env@)) == first_xauthority(text_views(env@).skip(i as int)),
        decreases env@.len() - i,
    {
        let ghost rest = text_views(env@).skip(i as int);
        proof {
            assert(rest[0] == env@[i as int]@);
            assert(rest.drop_first() =~= text_views(env@).skip(i + 1));
        }
        match strip_prefix(env[i].as_str(), "XAUTHORITY=") {
            Some(value) => {
                return value;
            },
            None => {},
        }
        i += 1;
    }
    String::new()
}

/// The authority file with which a viewer is started: the one that the
/// environment of the user names now, and the recorded one if it names none.
pub fn viewer_xauthority(env: &Vec<String>, recorded: &str) -> (file: String)
    ensures
        file@ == last_xauthority(text_views(env@), recorded@),
{
    let mut file = String::from_str(recorded);
    let mut i: usize = 0;
    proof {
        assert(text_views(env@).take(0) =~= Seq::<Seq<char>>::empty());
    }
    while i < env.len()
        invariant
            i <= env@.len(),
            file@ == last_xauthority(text_views(env@).take(i as int), recorded@),
        decreases env@.len() - i,
    {
        let ghost seen = text_views(env@).take(i + 1);
        proof {
            assert(seen.last() == env@[i as int]@);
            assert(seen.drop_last() =~= text_views(env@).take(i as int));
        }
        match strip_prefix(env[i].as_str(), "XAUTHORITY=") {
            Some(value) => {
                file = value;
            },
            None => {},
        }
        i += 1;
    }
    proof {
        assert(text_views(env@).take(env@.len() as int) =~= text_views(env@));
    }
    file
}

impl Session {
    /// The record of a session of an interactive user, from what the session
    /// manager tells of it: the authority file is taken from the environment
    /// of the user's service manager if the session has a display, and is
    /// left empty otherwise.
    pub fn enriched(path: String, uid: u32, display: String, env: &Vec<String>) -> (session:
        Session)
        ensures
            session@.path == path@,
            session@.uid == uid,
            session@.display == display@,
            session@.xauthority_path == if display@.len() > 0 {
                first_xauthority(text_views(env@))
            } else {
                Seq::<char>::empty()
            },
    {
        let xauthority_path = if display.as_str().unicode_len() > 0 {
            xauthority_of(env)
        } else {
            String::new()
        };
        Session { path, display, xauthority_path, uid }
    }
}

/// What is made of a newly listed session once the session manager has
/// been asked about it. `class`, `display` and `env` are the answers to the
/// questions after the class of the session, after its display and after
/// the environment of the user's service manager, each with the reason if
/// the question failed or was not asked.
///
/// A session is recorded if it is of an interactive user and its display
/// is known; a session with a display needs the environment too, from which
/// its authority file is taken. Any other session gives nothing: it is
/// left out of this refresh, and looked into again by the next one if it
/// is still listed.
pub fn examined(
    path: String,
    uid: u32,
    class: &Result<String, String>,
    display: &Result<String, String>,
    env: &Result<Vec<String>, String>,
) -> (session: Option<Session>)
    ensures
        session is Some <==> class is Ok && class->Ok_0@ == "user"@ && display is Ok && (
        display->Ok_0@.len() == 0 || env is Ok),
        session is Some ==> session->0@ == (SessionView {
            path: path@,
            display: display->Ok_0@,
            xauthority_path: if display->Ok_0@.len() > 0 {
                first_xauthority(text_views(env->Ok_0@))
            } else {
                Seq::<char>::empty()
            },
            uid,
        }),
{
    let interactive = match class {
        Ok(class) => is_user_class(class.as_str()),
        Err(_) => false,
    };
    if !interactive {
        return None;
    }
    match display {
        Err(_) => None,
        Ok(display) => {
            if display.as_str().unicode_len() == 0 {
                let nothing: Vec<String> = Vec::new();
                Some(Session::enriched(path, uid, display.clone(), &nothing))
            } else {
                match env {
                    Ok(env) => Some(Session::enriched(path, uid, display.clone(), env)),
                    Err(_) => None,
                }
            }
        },
    }
}

} // verus!
