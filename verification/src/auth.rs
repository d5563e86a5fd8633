//! Session authentication events.  A session is considered logged in when
//! the latest auth event tagged with its token is a login.

use vstd::prelude::*;

use crate::return_types::KnownErrors;
use crate::store::{AuthRecord, EventStore};

verus! {

/// One event of the authentication log.
#[derive(Clone, Copy, Debug, PartialEq, Eq, Structural)]
pub enum AuthEvent {
    Login,
    Logout,
}

impl AuthEvent {
    /// Stable wire value of the event kind.
    pub open spec fn spec_code(self) -> i16 {
        match self {
            AuthEvent::Login => 1,
            AuthEvent::Logout => 2,
        }
    }

    pub fn code(&self) -> (r: i16)
        ensures
            r == self.spec_code(),
    {
        match self {
            AuthEvent::Login => 1,
            AuthEvent::Logout => 2,
        }
    }

    /// Append this event to the authentication log; returns the record's
    /// sequence id.
    pub fn push_db(&self, user_id: u128, session_id: &String, store: &mut EventStore) -> (r: u64)
        ensures
            final(store).auth_events@.len() == old(store).auth_events@.len() + 1,
            final(store).auth_events@.drop_last() == old(store).auth_events@,
            final(store).auth_events@.last().user_id == user_id,
            final(store).auth_events@.last().session_id@ == session_id@,
            final(store).auth_events@.last().event == *self,
            final(store).user_events@ == old(store).user_events@,
            final(store).journal_events@ == old(store).journal_events@,
            final(store).domain_events@ == old(store).domain_events@,
            r == old(store).auth_events@.len() + 1,
    {
        let r = store.append_auth_event(user_id, session_id.clone(), *self);
        proof {
            assert(store.auth_events@.drop_last() =~= old(store).auth_events@);
        }
        r
    }
}

/// The latest auth record tagged with session `sid`, if any.
pub open spec fn last_auth(log: Seq<AuthRecord>, sid: Seq<char>) -> Option<AuthRecord>
    decreases log.len(),
{
    if log.len() == 0 {
        None
    } else if log.last().session_id@ == sid {
        Some(log.last())
    } else {
        last_auth(log.drop_last(), sid)
    }
}

/// The user a session is currently authenticated as: the user on the
/// latest auth record for the session, provided that record is a login.
pub open spec fn session_user(log: Seq<AuthRecord>, sid: Seq<char>) -> Option<u128> {
    match last_auth(log, sid) {
        Some(r) => if r.event is Login {
            Some(r.user_id)
        } else {
            None
        },
        None => None,
    }
}

/// Resolve a session token to a user id; a session with no auth record,
/// or whose latest record is a logout, is not logged in.
pub fn get_user_id(session_id: &String, store: &EventStore) -> (r: Result<u128, KnownErrors>)
    ensures
        match session_user(store.auth_events@, session_id@) {
            Some(uid) => r matches Ok(u) && u == uid,
            None => r matches Err(e) && e is NotLoggedIn,
        },
{
    let n = store.auth_events.len();
    proof {
        assert(store.auth_events@.take(n as int) =~= store.auth_events@);
    }
    let mut i: usize = n;
    while i > 0
        invariant
            i <= n,
            n == store.auth_events@.len(),
            last_auth(store.auth_events@, session_id@) == last_auth(
                store.auth_events@.take(i as int),
                session_id@,
            ),
        decreases i,
    {
        i -= 1;
        let rec = &store.auth_events[i];
        let matched = rec.session_id == *session_id;
        proof {
            let log = store.auth_events@;
            assert(log.take(i + 1 as int).drop_last() =~= log.take(i as int));
            assert(log.take(i + 1 as int).last() == log[i as int]);
        }
        if matched {
            if matches!(rec.event, AuthEvent::Login) {
                return Ok(rec.user_id);
            }
            return Err(KnownErrors::NotLoggedIn);
        }
    }
    proof {
        assert(store.auth_events@.take(0) =~= Seq::<AuthRecord>::empty());
    }
    Err(KnownErrors::NotLoggedIn)
}

} // verus!
