//! Queries over the shared domain event log: resolving usernames to user
//! ids and back.  These replay raw domain records, so they are the one
//! place a corrupt payload (one stored under the wrong discriminator)
//! surfaces: the whole projection aborts with a corrupt-event error.

use vstd::prelude::*;

use crate::event::{DomainEvent, EventType};
use crate::return_types::KnownErrors;
use crate::store::{DomainRecord, EventStore};
use crate::user::{user_event_names, user_fold, UserEvent, UserState};

verus! {

/// The record carries a name-bearing user event naming `username`.
pub open spec fn domain_name_match(r: DomainRecord, username: Seq<char>) -> bool {
    &&& (r.event_type == EventType::UserCreated || r.event_type == EventType::UsernameUpdated)
    &&& match r.event {
        DomainEvent::User(u) => user_event_names(u, username),
        _ => false,
    }
}

/// The aggregate id on the latest name-bearing record naming `username`.
pub open spec fn domain_lookup_user_id(log: Seq<DomainRecord>, username: Seq<char>) -> Option<
    u128,
>
    decreases log.len(),
{
    if log.len() == 0 {
        None
    } else if domain_name_match(log.last(), username) {
        Some(log.last().aggregate_id)
    } else {
        domain_lookup_user_id(log.drop_last(), username)
    }
}

/// Resolve a username to a user id over the shared domain log.
pub fn fetch_user_id(username: String, store: &EventStore) -> (r: Result<u128, KnownErrors>)
    ensures
        match domain_lookup_user_id(store.domain_events@, username@) {
            Some(uid) => r == Ok::<u128, KnownErrors>(uid),
            None => (r matches Err(KnownErrors::UsernameNotFound { username: u }) && u@
                == username@),
        },
{
    let n = store.domain_events.len();
    proof {
        assert(store.domain_events@.take(n as int) =~= store.domain_events@);
    }
    let mut i: usize = n;
    while i > 0
        invariant
            i <= n,
            n == store.domain_events@.len(),
            domain_lookup_user_id(store.domain_events@, username@) == domain_lookup_user_id(
                store.domain_events@.take(i as int),
                username@,
            ),
        decreases i,
    {
        i -= 1;
        let rec = &store.domain_events[i];
        let kind_ok = matches!(rec.event_type, EventType::UserCreated)
            || matches!(rec.event_type, EventType::UsernameUpdated);
        let matched = kind_ok && match &rec.event {
            DomainEvent::User(UserEvent::Created { username: u, .. }) => *u == username,
            DomainEvent::User(UserEvent::UsernameUpdated { username: u }) => *u == username,
            _ => false,
        };
        proof {
            let log = store.domain_events@;
            assert(matched == domain_name_match(log[i as int], username@));
            assert(log.take(i + 1 as int).drop_last() =~= log.take(i as int));
            assert(log.take(i + 1 as int).last() == log[i as int]);
        }
        if matched {
            return Ok(rec.aggregate_id);
        }
    }
    proof {
        assert(store.domain_events@.take(0) =~= Seq::<DomainRecord>::empty());
    }
    Err(KnownErrors::UsernameNotFound { username })
}

/// The record belongs to user `id`'s name history.
pub open spec fn username_record_selected(r: DomainRecord, id: u128) -> bool {
    &&& r.aggregate_id == id
    &&& (r.event_type == EventType::UserCreated || r.event_type == EventType::UsernameUpdated)
}

/// The name-history records of user `id`, in log order.
pub open spec fn selected_username_records(log: Seq<DomainRecord>, id: u128) -> Seq<DomainRecord>
    decreases log.len(),
{
    if log.len() == 0 {
        Seq::empty()
    } else {
        let prefix = selected_username_records(log.drop_last(), id);
        if username_record_selected(log.last(), id) {
            prefix.push(log.last())
        } else {
            prefix
        }
    }
}

/// Every record's payload is a user event.
pub open spec fn all_user_payloads(s: Seq<DomainRecord>) -> bool {
    forall|i: int| 0 <= i < s.len() ==> s[i].event is User
}

/// The user events behind a record sequence (meaningful under
/// [`all_user_payloads`]).
pub open spec fn user_payloads(s: Seq<DomainRecord>) -> Seq<UserEvent> {
    s.map_values(
        |r: DomainRecord|
            match r.event {
                DomainEvent::User(u) => u,
                _ => arbitrary(),
            },
    )
}

/// A selection over a prefix of the log is a pointwise prefix of the
/// selection over the whole log.
proof fn lemma_selected_username_prefix(log: Seq<DomainRecord>, id: u128, i: int)
    requires
        0 <= i <= log.len(),
    ensures
        selected_username_records(log.take(i), id).len() <= selected_username_records(
            log,
            id,
        ).len(),
        forall|k: int|
            0 <= k < selected_username_records(log.take(i), id).len()
                ==> selected_username_records(log, id)[k] == selected_username_records(
                log.take(i),
                id,
            )[k],
    decreases log.len() - i,
{
    if i == log.len() {
        assert(log.take(i) =~= log);
    } else {
        assert(log.take(i + 1).drop_last() =~= log.take(i));
        assert(log.take(i + 1).last() == log[i]);
        lemma_selected_username_prefix(log, id, i + 1);
    }
}

/// Resolve a user id to its username by replaying the user's name
/// history out of the shared domain log.  A payload of the wrong shape
/// aborts the projection.
pub fn fetch_username(user_id: u128, store: &EventStore) -> (r: Result<String, KnownErrors>)
    ensures
        ({
            let sel = selected_username_records(store.domain_events@, user_id);
            if all_user_payloads(sel) {
                r matches Ok(u) && u@ == user_fold(user_id, user_payloads(sel)).username
            } else {
                r matches Err(e) && e is CorruptEvent
            }
        }),
{
    let mut state = UserState::new(user_id);
    let n = store.domain_events.len();
    let mut i: usize = 0;
    while i < n
        invariant
            n == store.domain_events@.len(),
            i <= n,
            state.wf(),
            all_user_payloads(selected_username_records(store.domain_events@.take(i as int), user_id)),
            state@ == user_fold(
                user_id,
                user_payloads(selected_username_records(store.domain_events@.take(i as int), user_id)),
            ),
        decreases n - i,
    {
        let rec = &store.domain_events[i];
        let kind_ok = matches!(rec.event_type, EventType::UserCreated)
            || matches!(rec.event_type, EventType::UsernameUpdated);
        let matched = rec.aggregate_id == user_id && kind_ok;
        proof {
            let log = store.domain_events@;
            assert(log.take(i + 1 as int).drop_last() =~= log.take(i as int));
            assert(log.take(i + 1 as int).last() == log[i as int]);
        }
        if matched {
            match &rec.event {
                DomainEvent::User(u) => {
                    state.apply(u);
                    proof {
                        let log = store.domain_events@;
                        let sel = selected_username_records(log.take(i as int), user_id);
                        let sel1 = selected_username_records(log.take(i + 1 as int), user_id);
                        assert(sel1 == sel.push(log[i as int]));
                        assert(user_payloads(sel1) =~= user_payloads(sel).push(*u));
                        assert(user_payloads(sel).push(*u).drop_last() =~= user_payloads(sel));
                    }
                },
                _ => {
                    proof {
                        let log = store.domain_events@;
                        let sel = selected_username_records(log.take(i as int), user_id);
                        let sel1 = selected_username_records(log.take(i + 1 as int), user_id);
                        assert(sel1 == sel.push(log[i as int]));
                        lemma_selected_username_prefix(log, user_id, i + 1 as int);
                        let k = sel.len() as int;
                        assert(sel1[k] == log[i as int]);
                        assert(selected_username_records(log, user_id)[k] == sel1[k]);
                        assert(!(selected_username_records(log, user_id)[k].event is User));
                        assert(!all_user_payloads(selected_username_records(log, user_id)));
                    }
                    return Err(KnownErrors::CorruptEvent);
                },
            }
        }
        i += 1;
    }
    proof {
        assert(store.domain_events@.take(n as int) =~= store.domain_events@);
    }
    Ok(state.username)
}

} // verus!
