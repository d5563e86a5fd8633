//! User aggregate: events, the projected state, and the pure fold that
//! rebuilds a user snapshot (identity, credentials, journal relationships)
//! from its ordered event stream.

use vstd::prelude::*;

use crate::grants::{
    grant_get, grant_has, grant_seq_insert, grant_seq_remove, id_seq_insert, GrantEntry, GrantMap,
    IdSet,
};
use crate::journal::{JournalTenantInfo, Permissions};
use crate::return_types::KnownErrors;
use crate::store::{selected_user_events, user_kinds_contain, EventStore, UserRecord};

verus! {

/// One event of a user's stream.
#[derive(Debug)]
pub enum UserEvent {
    Created { username: String, hashed_password: String },
    UsernameUpdated { username: String },
    PasswordUpdated { hashed_password: String },
    CreatedJournal { id: u128 },
    InvitedToJournal { id: u128, permissions: Permissions, inviting_user: u128, owner: u128 },
    AcceptedJournalInvite { id: u128 },
    DeclinedJournalInvite { id: u128 },
    RemovedFromJournal { id: u128 },
    SelectedJournal { id: u128 },
    Deleted,
}

/// Discriminator for [`UserEvent`], used to filter replays.
#[derive(Clone, Copy, Debug, PartialEq, Eq, Structural)]
pub enum UserEventType {
    Created,
    UsernameUpdated,
    PasswordUpdated,
    CreatedJournal,
    InvitedToJournal,
    AcceptedJournalInvite,
    DeclinedJournalInvite,
    RemovedFromJournal,
    SelectedJournal,
    Deleted,
}

impl UserEventType {
    /// Stable wire value of the discriminator.
    pub open spec fn spec_code(self) -> i16 {
        match self {
            UserEventType::Created => 1,
            UserEventType::UsernameUpdated => 2,
            UserEventType::PasswordUpdated => 3,
            UserEventType::CreatedJournal => 4,
            UserEventType::InvitedToJournal => 5,
            UserEventType::AcceptedJournalInvite => 6,
            UserEventType::DeclinedJournalInvite => 7,
            UserEventType::RemovedFromJournal => 8,
            UserEventType::SelectedJournal => 9,
            UserEventType::Deleted => 10,
        }
    }

    pub fn code(&self) -> (r: i16)
        ensures
            r == self.spec_code(),
    {
        match self {
            UserEventType::Created => 1,
            UserEventType::UsernameUpdated => 2,
            UserEventType::PasswordUpdated => 3,
            UserEventType::CreatedJournal => 4,
            UserEventType::InvitedToJournal => 5,
            UserEventType::AcceptedJournalInvite => 6,
            UserEventType::DeclinedJournalInvite => 7,
            UserEventType::RemovedFromJournal => 8,
            UserEventType::SelectedJournal => 9,
            UserEventType::Deleted => 10,
        }
    }
}

impl UserEvent {
    /// The discriminator of this event.
    pub open spec fn spec_kind(&self) -> UserEventType {
        match self {
            UserEvent::Created { .. } => UserEventType::Created,
            UserEvent::UsernameUpdated { .. } => UserEventType::UsernameUpdated,
            UserEvent::PasswordUpdated { .. } => UserEventType::PasswordUpdated,
            UserEvent::CreatedJournal { .. } => UserEventType::CreatedJournal,
            UserEvent::InvitedToJournal { .. } => UserEventType::InvitedToJournal,
            UserEvent::AcceptedJournalInvite { .. } => UserEventType::AcceptedJournalInvite,
            UserEvent::DeclinedJournalInvite { .. } => UserEventType::DeclinedJournalInvite,
            UserEvent::RemovedFromJournal { .. } => UserEventType::RemovedFromJournal,
            UserEvent::SelectedJournal { .. } => UserEventType::SelectedJournal,
            UserEvent::Deleted => UserEventType::Deleted,
        }
    }

    /// An exact copy of the event.
    pub fn duplicate(&self) -> (r: UserEvent)
        ensures
            r == *self,
    {
        match self {
            UserEvent::Created { username, hashed_password } => UserEvent::Created {
                username: username.clone(),
                hashed_password: hashed_password.clone(),
            },
            UserEvent::UsernameUpdated { username } => UserEvent::UsernameUpdated {
                username: username.clone(),
            },
            UserEvent::PasswordUpdated { hashed_password } => UserEvent::PasswordUpdated {
                hashed_password: hashed_password.clone(),
            },
            UserEvent::CreatedJournal { id } => UserEvent::CreatedJournal { id: *id },
            UserEvent::InvitedToJournal { id, permissions, inviting_user, owner } => {
                UserEvent::InvitedToJournal {
                    id: *id,
                    permissions: *permissions,
                    inviting_user: *inviting_user,
                    owner: *owner,
                }
            },
            UserEvent::AcceptedJournalInvite { id } => UserEvent::AcceptedJournalInvite {
                id: *id,
            },
            UserEvent::DeclinedJournalInvite { id } => UserEvent::DeclinedJournalInvite {
                id: *id,
            },
            UserEvent::RemovedFromJournal { id } => UserEvent::RemovedFromJournal { id: *id },
            UserEvent::SelectedJournal { id } => UserEvent::SelectedJournal { id: *id },
            UserEvent::Deleted => UserEvent::Deleted,
        }
    }

    pub fn get_type(&self) -> (r: UserEventType)
        ensures
            r == self.spec_kind(),
    {
        match self {
            UserEvent::Created { .. } => UserEventType::Created,
            UserEvent::UsernameUpdated { .. } => UserEventType::UsernameUpdated,
            UserEvent::PasswordUpdated { .. } => UserEventType::PasswordUpdated,
            UserEvent::CreatedJournal { .. } => UserEventType::CreatedJournal,
            UserEvent::InvitedToJournal { .. } => UserEventType::InvitedToJournal,
            UserEvent::AcceptedJournalInvite { .. } => UserEventType::AcceptedJournalInvite,
            UserEvent::DeclinedJournalInvite { .. } => UserEventType::DeclinedJournalInvite,
            UserEvent::RemovedFromJournal { .. } => UserEventType::RemovedFromJournal,
            UserEvent::SelectedJournal { .. } => UserEventType::SelectedJournal,
            UserEvent::Deleted => UserEventType::Deleted,
        }
    }

    /// Append this event to the user's stream; returns the record's
    /// sequence id.
    pub fn push_db(&self, uuid: u128, store: &mut EventStore) -> (r: u64)
        ensures
            final(store).user_events@ == old(store).user_events@.push(
                UserRecord { user_id: uuid, event: *self },
            ),
            final(store).journal_events@ == old(store).journal_events@,
            final(store).auth_events@ == old(store).auth_events@,
            final(store).domain_events@ == old(store).domain_events@,
            r == old(store).user_events@.len() + 1,
    {
        store.append_user_event(uuid, self.duplicate())
    }
}

/// Mathematical model of a projected user state.
pub struct UserView {
    pub id: u128,
    pub username: Seq<char>,
    pub hashed_password: Seq<char>,
    pub pending_journal_invites: Seq<GrantEntry>,
    pub accepted_journal_invites: Seq<GrantEntry>,
    pub owned_journals: Seq<u128>,
    pub selected_journal: u128,
    pub deleted: bool,
}

/// The state every user stream starts from: empty fields, no selected
/// journal (sentinel id 0).
pub open spec fn init_user(id: u128) -> UserView {
    UserView {
        id,
        username: Seq::empty(),
        hashed_password: Seq::empty(),
        pending_journal_invites: Seq::empty(),
        accepted_journal_invites: Seq::empty(),
        owned_journals: Seq::empty(),
        selected_journal: 0,
        deleted: false,
    }
}

/// One step of the user fold.
pub open spec fn user_apply(s: UserView, e: UserEvent) -> UserView {
    match e {
        UserEvent::Created { username, hashed_password } => UserView {
            username: username@,
            hashed_password: hashed_password@,
            ..s
        },
        UserEvent::UsernameUpdated { username } => UserView { username: username@, ..s },
        UserEvent::PasswordUpdated { hashed_password } => UserView {
            hashed_password: hashed_password@,
            ..s
        },
        UserEvent::CreatedJournal { id } => UserView {
            owned_journals: id_seq_insert(s.owned_journals, id),
            ..s
        },
        UserEvent::InvitedToJournal { id, permissions, inviting_user, owner } => UserView {
            pending_journal_invites: grant_seq_insert(
                s.pending_journal_invites,
                id,
                JournalTenantInfo {
                    tenant_permissions: permissions,
                    inviting_user,
                    journal_owner: owner,
                },
            ),
            ..s
        },
        UserEvent::AcceptedJournalInvite { id } => {
            if grant_has(s.pending_journal_invites, id) {
                UserView {
                    pending_journal_invites: grant_seq_remove(s.pending_journal_invites, id),
                    accepted_journal_invites: grant_seq_insert(
                        s.accepted_journal_invites,
                        id,
                        grant_get(s.pending_journal_invites, id),
                    ),
                    ..s
                }
            } else {
                s
            }
        },
        UserEvent::DeclinedJournalInvite { id } => UserView {
            pending_journal_invites: grant_seq_remove(s.pending_journal_invites, id),
            ..s
        },
        UserEvent::RemovedFromJournal { id } => UserView {
            accepted_journal_invites: grant_seq_remove(s.accepted_journal_invites, id),
            ..s
        },
        UserEvent::SelectedJournal { id } => UserView { selected_journal: id, ..s },
        UserEvent::Deleted => UserView { deleted: true, ..s },
    }
}

/// Fold an ordered user event sequence from the initial state.
pub open spec fn user_fold(id: u128, events: Seq<UserEvent>) -> UserView
    decreases events.len(),
{
    if events.len() == 0 {
        init_user(id)
    } else {
        user_apply(user_fold(id, events.drop_last()), events.last())
    }
}

/// Projected snapshot of one user, derived from its event stream and
/// disposable: the stream is the source of truth.
#[derive(Debug)]
pub struct UserState {
    pub id: u128,
    pub username: String,
    pub hashed_password: String,
    pub pending_journal_invites: GrantMap,
    pub accepted_journal_invites: GrantMap,
    pub owned_journals: IdSet,
    pub selected_journal: u128,
    pub deleted: bool,
}

impl View for UserState {
    type V = UserView;

    open spec fn view(&self) -> UserView {
        UserView {
            id: self.id,
            username: self.username@,
            hashed_password: self.hashed_password@,
            pending_journal_invites: self.pending_journal_invites@,
            accepted_journal_invites: self.accepted_journal_invites@,
            owned_journals: self.owned_journals@,
            selected_journal: self.selected_journal,
            deleted: self.deleted,
        }
    }
}

impl UserState {
    pub open spec fn wf(&self) -> bool {
        &&& self.pending_journal_invites.wf()
        &&& self.accepted_journal_invites.wf()
        &&& self.owned_journals.wf()
    }

    /// Fresh state for `id`, before any event is applied.
    pub fn new(id: u128) -> (r: UserState)
        ensures
            r.wf(),
            r@ == init_user(id),
    {
        let r = UserState {
            id,
            username: String::new(),
            hashed_password: String::new(),
            pending_journal_invites: GrantMap::new(),
            accepted_journal_invites: GrantMap::new(),
            owned_journals: IdSet::new(),
            selected_journal: 0,
            deleted: false,
        };
        proof {
            assert(r@ =~= init_user(id));
        }
        r
    }

    /// Apply one event to the snapshot.
    pub fn apply(&mut self, event: &UserEvent)
        requires
            old(self).wf(),
        ensures
            final(self).wf(),
            final(self)@ == user_apply(old(self)@, *event),
    {
        match event {
            UserEvent::Created { username, hashed_password } => {
                self.username = username.clone();
                self.hashed_password = hashed_password.clone();
            },
            UserEvent::UsernameUpdated { username } => {
                self.username = username.clone();
            },
            UserEvent::PasswordUpdated { hashed_password } => {
                self.hashed_password = hashed_password.clone();
            },
            UserEvent::CreatedJournal { id } => {
                self.owned_journals.insert(*id);
            },
            UserEvent::InvitedToJournal { id, permissions, inviting_user, owner } => {
                self.pending_journal_invites.insert(
                    *id,
                    JournalTenantInfo {
                        tenant_permissions: *permissions,
                        inviting_user: *inviting_user,
                        journal_owner: *owner,
                    },
                );
            },
            UserEvent::AcceptedJournalInvite { id } => {
                let tenant_info = self.pending_journal_invites.remove(*id);
                if let Some(info) = tenant_info {
                    self.accepted_journal_invites.insert(*id, info);
                }
            },
            UserEvent::DeclinedJournalInvite { id } => {
                self.pending_journal_invites.remove(*id);
            },
            UserEvent::RemovedFromJournal { id } => {
                self.accepted_journal_invites.remove(*id);
            },
            UserEvent::SelectedJournal { id } => {
                self.selected_journal = *id;
            },
            UserEvent::Deleted => {
                self.deleted = true;
            },
        }
        proof {
            assert(self@ =~= user_apply(old(self)@, *event));
        }
    }

    /// Rebuild a user snapshot by folding an ordered event sequence.
    /// Folding is pure: the result is a function of `id` and the events
    /// alone, so replaying the same sequence twice yields the same state.
    pub fn from_events(id: u128, events: &Vec<UserEvent>) -> (r: UserState)
        ensures
            r.wf(),
            r@ == user_fold(id, events@),
    {
        let mut state = UserState::new(id);
        let n = events.len();
        let mut i: usize = 0;
        while i < n
            invariant
                n == events@.len(),
                i <= n,
                state.wf(),
                state@ == user_fold(id, events@.take(i as int)),
            decreases n - i,
        {
            state.apply(&events[i]);
            proof {
                assert(events@.take(i + 1 as int).drop_last() =~= events@.take(i as int));
                assert(events@.take(i + 1 as int).last() == events@[i as int]);
            }
            i += 1;
        }
        proof {
            assert(events@.take(n as int) =~= events@);
        }
        state
    }

    /// Rebuild a snapshot from the store, replaying the events of `id`
    /// whose kind is in `event_types`, in log order.
    pub fn build(id: u128, event_types: &Vec<UserEventType>, store: &EventStore) -> (r: UserState)
        ensures
            r.wf(),
            r@ == user_fold(
                id,
                selected_user_events(store.user_events@, id, event_types@),
            ),
    {
        let mut state = UserState::new(id);
        let n = store.user_events.len();
        let mut i: usize = 0;
        while i < n
            invariant
                n == store.user_events@.len(),
                i <= n,
                state.wf(),
                state@ == user_fold(
                    id,
                    selected_user_events(store.user_events@.take(i as int), id, event_types@),
                ),
            decreases n - i,
        {
            let rec = &store.user_events[i];
            let matched = rec.user_id == id && user_kinds_contain(event_types, rec.event.get_type());
            if matched {
                state.apply(&rec.event);
            }
            proof {
                let log = store.user_events@;
                assert(log.take(i + 1 as int).drop_last() =~= log.take(i as int));
                assert(log.take(i + 1 as int).last() == log[i as int]);
                if matched {
                    let sel = selected_user_events(log.take(i as int), id, event_types@);
                    assert(selected_user_events(log.take(i + 1 as int), id, event_types@)
                        == sel.push(log[i as int].event));
                    assert(sel.push(log[i as int].event).drop_last() =~= sel);
                }
            }
            i += 1;
        }
        proof {
            assert(store.user_events@.take(n as int) =~= store.user_events@);
        }
        state
    }
}

/// True of the user events that carry `username` as the user's (new) name.
pub open spec fn user_event_names(e: UserEvent, username: Seq<char>) -> bool {
    match e {
        UserEvent::Created { username: u, .. } => u@ == username,
        UserEvent::UsernameUpdated { username: u } => u@ == username,
        _ => false,
    }
}

/// The id of the user whose latest name-bearing event carries `username`.
pub open spec fn lookup_user_id(log: Seq<UserRecord>, username: Seq<char>) -> Option<u128>
    decreases log.len(),
{
    if log.len() == 0 {
        None
    } else if user_event_names(log.last().event, username) {
        Some(log.last().user_id)
    } else {
        lookup_user_id(log.drop_last(), username)
    }
}

/// Resolve a username to the user id it currently names: the id on the
/// latest `Created` or `UsernameUpdated` event carrying that name.
pub fn get_id_from_username(username: &String, store: &EventStore) -> (r: Option<u128>)
    ensures
        r == lookup_user_id(store.user_events@, username@),
{
    let n = store.user_events.len();
    proof {
        assert(store.user_events@.take(n as int) =~= store.user_events@);
    }
    let mut i: usize = n;
    while i > 0
        invariant
            i <= n,
            n == store.user_events@.len(),
            lookup_user_id(store.user_events@, username@) == lookup_user_id(
                store.user_events@.take(i as int),
                username@,
            ),
        decreases i,
    {
        i -= 1;
        let rec = &store.user_events[i];
        let matched = match &rec.event {
            UserEvent::Created { username: u, .. } => *u == *username,
            UserEvent::UsernameUpdated { username: u } => *u == *username,
            _ => false,
        };
        proof {
            let log = store.user_events@;
            assert(matched == user_event_names(log[i as int].event, username@));
            assert(log.take(i + 1 as int).drop_last() =~= log.take(i as int));
            assert(log.take(i + 1 as int).last() == log[i as int]);
        }
        if matched {
            return Some(rec.user_id);
        }
    }
    proof {
        assert(store.user_events@.take(0) =~= Seq::<UserRecord>::empty());
    }
    None
}

/// The filter a username read replays: creation and rename events.
pub fn username_event_types() -> (r: Vec<UserEventType>)
    ensures
        r@ == seq![UserEventType::Created, UserEventType::UsernameUpdated],
{
    let mut v: Vec<UserEventType> = Vec::new();
    v.push(UserEventType::Created);
    v.push(UserEventType::UsernameUpdated);
    proof {
        assert(v@ =~= seq![UserEventType::Created, UserEventType::UsernameUpdated]);
    }
    v
}

/// Resolve a user id to its current username; a user whose projection has
/// an empty username does not exist.
pub fn get_username_from_id(user_id: u128, store: &EventStore) -> (r: Result<String, KnownErrors>)
    ensures
        ({
            let u = user_fold(
                user_id,
                selected_user_events(
                    store.user_events@,
                    user_id,
                    seq![UserEventType::Created, UserEventType::UsernameUpdated],
                ),
            ).username;
            if u.len() > 0 {
                r matches Ok(s) && s@ == u
            } else {
                r matches Err(e) && e is UserDoesntExist
            }
        }),
{
    let kinds = username_event_types();
    let user = UserState::build(user_id, &kinds, store);
    if user.username.as_str().unicode_len() > 0 {
        return Ok(user.username);
    }
    Err(KnownErrors::UserDoesntExist)
}

/// The current (hashed) credential of a user: the hash on the latest
/// credential-bearing event, or empty if there is none.
pub fn get_hashed_pw(user_id: u128, store: &EventStore) -> (r: String)
    ensures
        r@ == user_fold(
            user_id,
            selected_user_events(
                store.user_events@,
                user_id,
                seq![UserEventType::Created, UserEventType::PasswordUpdated],
            ),
        ).hashed_password,
{
    let mut kinds: Vec<UserEventType> = Vec::new();
    kinds.push(UserEventType::Created);
    kinds.push(UserEventType::PasswordUpdated);
    proof {
        assert(kinds@ =~= seq![UserEventType::Created, UserEventType::PasswordUpdated]);
    }
    let user = UserState::build(user_id, &kinds, store);
    user.hashed_password
}

} // verus!
