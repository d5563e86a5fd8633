//! In-memory event store: durable within the process, ordered, append-only
//! logs, one per aggregate category, mirroring the relational tables the
//! application persists to.  A record's sequence id is its one-based
//! position in its log; the logical timestamp the store assigns equals the
//! sequence id, so replay order, creation order and sequence order agree.

use vstd::prelude::*;

use crate::auth::AuthEvent;
use crate::event::{AggregateType, DomainEvent, EventType};
use crate::journal::{JournalEvent, JournalEventType, JournalEventView};
use crate::user::{UserEvent, UserEventType};

verus! {

/// One row of the user event log.
#[derive(Debug)]
pub struct UserRecord {
    pub user_id: u128,
    pub event: UserEvent,
}

/// One row of the journal event log.
#[derive(Debug)]
pub struct JournalRecord {
    pub journal_id: u128,
    pub event: JournalEvent,
}

/// One row of the authentication log.
#[derive(Debug)]
pub struct AuthRecord {
    pub user_id: u128,
    pub session_id: String,
    pub event: AuthEvent,
}

/// One row of the shared domain event log.  The discriminator column is
/// stored beside the payload, as the table persists it; nothing forces
/// the two to agree, and a reader that finds a payload of the wrong
/// shape under a discriminator fails with a corrupt-event error.
#[derive(Debug)]
pub struct DomainRecord {
    pub aggregate_id: u128,
    pub aggregate_type: AggregateType,
    pub event_type: EventType,
    pub event: DomainEvent,
}

/// The append-only logs.  No update or delete operation exists; reads are
/// always a fresh replay over a filtered log.
#[derive(Debug)]
pub struct EventStore {
    pub user_events: Vec<UserRecord>,
    pub journal_events: Vec<JournalRecord>,
    pub auth_events: Vec<AuthRecord>,
    pub domain_events: Vec<DomainRecord>,
}

/// The events of user `id` whose kind is in `kinds`, in log order.
pub open spec fn selected_user_events(
    log: Seq<UserRecord>,
    id: u128,
    kinds: Seq<UserEventType>,
) -> Seq<UserEvent>
    decreases log.len(),
{
    if log.len() == 0 {
        Seq::empty()
    } else {
        let prefix = selected_user_events(log.drop_last(), id, kinds);
        let r = log.last();
        if r.user_id == id && kinds.contains(r.event.spec_kind()) {
            prefix.push(r.event)
        } else {
            prefix
        }
    }
}

/// The event models of journal `id` whose kind is in `kinds`, in log order.
pub open spec fn selected_journal_events(
    log: Seq<JournalRecord>,
    id: u128,
    kinds: Seq<JournalEventType>,
) -> Seq<JournalEventView>
    decreases log.len(),
{
    if log.len() == 0 {
        Seq::empty()
    } else {
        let prefix = selected_journal_events(log.drop_last(), id, kinds);
        let r = log.last();
        if r.journal_id == id && kinds.contains(r.event.spec_kind()) {
            prefix.push(r.event@)
        } else {
            prefix
        }
    }
}

impl EventStore {
    /// A store with no events at all.
    pub fn new() -> (r: EventStore)
        ensures
            r.user_events@ == Seq::<UserRecord>::empty(),
            r.journal_events@ == Seq::<JournalRecord>::empty(),
            r.auth_events@ == Seq::<AuthRecord>::empty(),
            r.domain_events@ == Seq::<DomainRecord>::empty(),
    {
        EventStore {
            user_events: Vec::new(),
            journal_events: Vec::new(),
            auth_events: Vec::new(),
            domain_events: Vec::new(),
        }
    }

    /// Append one user event; returns the record's sequence id.
    pub fn append_user_event(&mut self, user_id: u128, event: UserEvent) -> (r: u64)
        ensures
            final(self).user_events@ == old(self).user_events@.push(
                UserRecord { user_id, event },
            ),
            final(self).journal_events@ == old(self).journal_events@,
            final(self).auth_events@ == old(self).auth_events@,
            final(self).domain_events@ == old(self).domain_events@,
            r == old(self).user_events@.len() + 1,
    {
        self.user_events.push(UserRecord { user_id, event });
        self.user_events.len() as u64
    }

    /// Append one journal event; returns the record's sequence id.
    pub fn append_journal_event(&mut self, journal_id: u128, event: JournalEvent) -> (r: u64)
        ensures
            final(self).journal_events@ == old(self).journal_events@.push(
                JournalRecord { journal_id, event },
            ),
            final(self).user_events@ == old(self).user_events@,
            final(self).auth_events@ == old(self).auth_events@,
            final(self).domain_events@ == old(self).domain_events@,
            r == old(self).journal_events@.len() + 1,
    {
        self.journal_events.push(JournalRecord { journal_id, event });
        self.journal_events.len() as u64
    }

    /// Append one authentication event; returns the record's sequence id.
    pub fn append_auth_event(&mut self, user_id: u128, session_id: String, event: AuthEvent) -> (r:
        u64)
        ensures
            final(self).auth_events@ == old(self).auth_events@.push(
                AuthRecord { user_id, session_id, event },
            ),
            final(self).user_events@ == old(self).user_events@,
            final(self).journal_events@ == old(self).journal_events@,
            final(self).domain_events@ == old(self).domain_events@,
            r == old(self).auth_events@.len() + 1,
    {
        self.auth_events.push(AuthRecord { user_id, session_id, event });
        self.auth_events.len() as u64
    }

    /// Append one domain event; returns the record's sequence id.
    pub fn append_domain_event(
        &mut self,
        aggregate_id: u128,
        aggregate_type: AggregateType,
        event_type: EventType,
        event: DomainEvent,
    ) -> (r: u64)
        ensures
            final(self).domain_events@ == old(self).domain_events@.push(
                DomainRecord { aggregate_id, aggregate_type, event_type, event },
            ),
            final(self).user_events@ == old(self).user_events@,
            final(self).journal_events@ == old(self).journal_events@,
            final(self).auth_events@ == old(self).auth_events@,
            r == old(self).domain_events@.len() + 1,
    {
        self.domain_events.push(DomainRecord { aggregate_id, aggregate_type, event_type, event });
        self.domain_events.len() as u64
    }
}

/// Membership test over a replay filter.
pub fn user_kinds_contain(kinds: &Vec<UserEventType>, k: UserEventType) -> (r: bool)
    ensures
        r == kinds@.contains(k),
{
    let n = kinds.len();
    let mut i: usize = 0;
    while i < n
        invariant
            n == kinds@.len(),
            i <= n,
            forall|j: int| 0 <= j < i ==> kinds@[j] != k,
        decreases n - i,
    {
        if kinds[i] == k {
            assert(kinds@.contains(k));
            return true;
        }
        i += 1;
    }
    assert(!kinds@.contains(k));
    false
}

/// Membership test over a replay filter.
pub fn journal_kinds_contain(kinds: &Vec<JournalEventType>, k: JournalEventType) -> (r: bool)
    ensures
        r == kinds@.contains(k),
{
    let n = kinds.len();
    let mut i: usize = 0;
    while i < n
        invariant
            n == kinds@.len(),
            i <= n,
            forall|j: int| 0 <= j < i ==> kinds@[j] != k,
        decreases n - i,
    {
        if kinds[i] == k {
            assert(kinds@.contains(k));
            return true;
        }
        i += 1;
    }
    assert(!kinds@.contains(k));
    false
}

} // verus!
