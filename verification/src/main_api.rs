//! The command layer: one operation per user-facing command.  Every
//! command resolves the acting user from the session, rebuilds the
//! projections it needs from the event store, checks its guards against
//! that snapshot, and on success appends exactly one event per affected
//! aggregate.  There is no optimistic concurrency control: the guards are
//! checked against the snapshot read here, not re-checked at append time,
//! mirroring the store's single-event atomicity and nothing more.

use vstd::prelude::*;

use crate::auth::{session_user, AuthEvent};
use crate::credentials::{bcrypt_digest_parses, bcrypt_matches, hash_password, verify_password};
use crate::grants::{grant_get, grant_has, id_has};
use crate::ids::fresh_id;
use crate::amounts::{parse_amount, parse_amount_spec};
use crate::journal::{
    acct_name_taken, journal_fold, BalanceUpdate, JournalEventType, JournalEventView,
    JournalState, Permissions, ADD_ACCOUNT, APPEND_TRANSACTION, DELETE, INVITE, READ,
};
use crate::return_types::{
    Account, AccountEntryView, AssociatedJournal, AssociatedJournalView, JournalInvite,
    JournalInviteView, Journals, KnownErrors, TransactionWithTimeStamp, TransactionWithUsername,
};
use crate::store::{selected_journal_events, selected_user_events, EventStore, UserRecord};
use crate::user::{
    get_hashed_pw, get_id_from_username, lookup_user_id, user_fold, username_event_types,
    UserEvent, UserEventType, UserState,
};

verus! {

/// Whitespace as the input scrubber treats it: the code points carrying
/// the Unicode white-space property, the same set trimming honours.
pub open spec fn is_space(c: char) -> bool {
    let v = c as int;
    ||| (9 <= v && v <= 13)
    ||| v == 32
    ||| v == 0x85
    ||| v == 0xA0
    ||| v == 0x1680
    ||| (0x2000 <= v && v <= 0x200A)
    ||| v == 0x2028
    ||| v == 0x2029
    ||| v == 0x202F
    ||| v == 0x205F
    ||| v == 0x3000
}

/// The string holds nothing but whitespace; such an input is rejected
/// wherever a name is required.
pub open spec fn is_blank(s: Seq<char>) -> bool {
    forall|i: int| 0 <= i < s.len() ==> is_space(s[i])
}

/// Decide whether a name input is blank.
pub fn check_blank(s: &String) -> (r: bool)
    ensures
        r == is_blank(s@),
{
    let st = s.as_str();
    let n = st.unicode_len();
    let mut i: usize = 0;
    while i < n
        invariant
            st@ == s@,
            n == s@.len(),
            i <= n,
            forall|k: int| 0 <= k < i ==> is_space(s@[k]),
        decreases n - i,
    {
        let c = st.get_char(i);
        let v = c as u32;
        let space = (9 <= v && v <= 13) || v == 32 || v == 0x85 || v == 0xA0 || v == 0x1680 || (
        0x2000 <= v && v <= 0x200A) || v == 0x2028 || v == 0x2029 || v == 0x202F || v == 0x205F
            || v == 0x3000;
        if !space {
            assert(!is_space(s@[i as int]));
            return false;
        }
        i += 1;
    }
    true
}

/// The replay filter for a user's journal relationships.
pub open spec fn relation_kinds() -> Seq<UserEventType> {
    seq![
        UserEventType::CreatedJournal,
        UserEventType::InvitedToJournal,
        UserEventType::AcceptedJournalInvite,
        UserEventType::DeclinedJournalInvite,
        UserEventType::RemovedFromJournal,
    ]
}

/// The replay filter for journal relationships plus the selection pointer.
pub open spec fn relation_kinds_with_selected() -> Seq<UserEventType> {
    relation_kinds().push(UserEventType::SelectedJournal)
}

/// Build the journal-relationship filter.
pub fn relation_event_types() -> (r: Vec<UserEventType>)
    ensures
        r@ == relation_kinds(),
{
    let mut v: Vec<UserEventType> = Vec::new();
    v.push(UserEventType::CreatedJournal);
    v.push(UserEventType::InvitedToJournal);
    v.push(UserEventType::AcceptedJournalInvite);
    v.push(UserEventType::DeclinedJournalInvite);
    v.push(UserEventType::RemovedFromJournal);
    proof {
        assert(v@ =~= relation_kinds());
    }
    v
}

/// Build the journal-relationship filter including the selection pointer.
pub fn relation_event_types_with_selected() -> (r: Vec<UserEventType>)
    ensures
        r@ == relation_kinds_with_selected(),
{
    let mut v = relation_event_types();
    v.push(UserEventType::SelectedJournal);
    proof {
        assert(v@ =~= relation_kinds_with_selected());
    }
    v
}

/// The journal-relationship projection of `uid`.
pub open spec fn relation_state(log: Seq<UserRecord>, uid: u128) -> crate::user::UserView {
    user_fold(uid, selected_user_events(log, uid, relation_kinds()))
}

/// The journal-relationship-and-selection projection of `uid`.
pub open spec fn relation_state_with_selected(log: Seq<UserRecord>, uid: u128)
    -> crate::user::UserView {
    user_fold(uid, selected_user_events(log, uid, relation_kinds_with_selected()))
}

/// Resolve the session to a user id, or fail with the not-logged-in error.
pub fn get_user_id_from_session(session_id: &String, store: &EventStore) -> (r: Result<
    u128,
    KnownErrors,
>)
    ensures
        match session_user(store.auth_events@, session_id@) {
            Some(uid) => r == Ok::<u128, KnownErrors>(uid),
            None => r matches Err(e) && e is NotLoggedIn,
        },
{
    crate::auth::get_user_id(session_id, store)
}

/// Probe whether the session is logged in; the value carries nothing,
/// only the error matters.
pub fn is_logged_in(session_id: &String, store: &EventStore) -> (r: Result<(), KnownErrors>)
    ensures
        match session_user(store.auth_events@, session_id@) {
            Some(_) => r is Ok,
            None => r matches Err(e) && e is NotLoggedIn,
        },
{
    match crate::auth::get_user_id(session_id, store) {
        Ok(_) => Ok(()),
        Err(e) => Err(e),
    }
}

/// Resolve a user id to its current username.
pub fn get_username_from_id(id: u128, store: &EventStore) -> (r: Result<String, KnownErrors>)
    ensures
        ({
            let u = user_fold(
                id,
                selected_user_events(
                    store.user_events@,
                    id,
                    seq![UserEventType::Created, UserEventType::UsernameUpdated],
                ),
            ).username;
            if u.len() > 0 {
                r matches Ok(s) && s@ == u
            } else {
                r matches Err(e) && e is UserDoesntExist
            }
        }),
{
    crate::user::get_username_from_id(id, store)
}

/// Create a new user and log the creating session in as them.  The
/// username must not be blank, the two password fields must agree, and
/// the username must not already resolve to a user.
pub fn create_user(
    store: &mut EventStore,
    session_id: &String,
    username: String,
    password: String,
    confirm_password: String,
) -> (r: Result<(), KnownErrors>)
    ensures
        is_blank(username@) ==> (r matches Err(e) && e is InvalidInput),
        (!is_blank(username@) && password@ != confirm_password@) ==> (r matches Err(
            KnownErrors::SignupPasswordMismatch { username: u },
        ) && u@ == username@),
        (!is_blank(username@) && password@ == confirm_password@ && lookup_user_id(
            old(store).user_events@,
            username@,
        ) is Some) ==> (r matches Err(KnownErrors::UserExists { username: u }) && u@
            == username@),
        r is Err ==> final(store).user_events@ == old(store).user_events@
            && final(store).auth_events@ == old(store).auth_events@,
        r is Err ==> (r matches Err(e) && (e is InvalidInput || e is SignupPasswordMismatch
            || e is UserExists || e is Storage)),
        r matches Err(e) && e is InvalidInput ==> is_blank(username@),
        r matches Err(e) && e is SignupPasswordMismatch ==> !is_blank(username@) && password@
            != confirm_password@,
        r matches Err(e) && e is UserExists ==> !is_blank(username@) && password@
            == confirm_password@ && lookup_user_id(old(store).user_events@, username@) is Some,
        r matches Err(e) && e is Storage ==> !is_blank(username@) && password@
            == confirm_password@ && lookup_user_id(old(store).user_events@, username@) is None,
        r is Ok ==> {
            &&& !is_blank(username@)
            &&& password@ == confirm_password@
            &&& lookup_user_id(old(store).user_events@, username@) is None
            &&& final(store).user_events@.len() == old(store).user_events@.len() + 1
            &&& final(store).user_events@.drop_last() == old(store).user_events@
            &&& (final(store).user_events@.last().event matches UserEvent::Created {
                username: u,
                hashed_password: h,
            } && u@ == username@ && bcrypt_matches(password@, h@))
            &&& final(store).auth_events@.len() == old(store).auth_events@.len() + 1
            &&& final(store).auth_events@.drop_last() == old(store).auth_events@
            &&& final(store).auth_events@.last().user_id
                == final(store).user_events@.last().user_id
            &&& final(store).auth_events@.last().session_id@ == session_id@
            &&& final(store).auth_events@.last().event is Login
        },
        final(store).journal_events@ == old(store).journal_events@,
        final(store).domain_events@ == old(store).domain_events@,
{
    if check_blank(&username) {
        return Err(KnownErrors::InvalidInput);
    }

    if !(password == confirm_password) {
        return Err(KnownErrors::SignupPasswordMismatch { username });
    }

    if get_id_from_username(&username, store).is_none() {
        let uuid = fresh_id();
        let hashed = match hash_password(&password) {
            Ok(h) => h,
            Err(e) => {
                return Err(e);
            },
        };
        UserEvent::Created { username, hashed_password: hashed }.push_db(uuid, store);
        AuthEvent::Login.push_db(uuid, session_id, store);
        Ok(())
    } else {
        Err(KnownErrors::UserExists { username })
    }
}

/// Log a session in as the user a username names, provided the presented
/// password matches the user's stored digest.  On a mismatch the error
/// carries the username and nothing else, and no event is appended.
pub fn login(store: &mut EventStore, session_id: &String, username: String, password: String) -> (r:
    Result<(), KnownErrors>)
    ensures
        lookup_user_id(old(store).user_events@, username@) is None ==> (r matches Err(e)
            && e is UserDoesntExist),
        r is Ok ==> ({
            &&& lookup_user_id(old(store).user_events@, username@) matches Some(uid)
            &&& bcrypt_matches(
                password@,
                user_fold(
                    uid,
                    selected_user_events(
                        old(store).user_events@,
                        uid,
                        seq![UserEventType::Created, UserEventType::PasswordUpdated],
                    ),
                ).hashed_password,
            )
            &&& final(store).auth_events@.len() == old(store).auth_events@.len() + 1
            &&& final(store).auth_events@.drop_last() == old(store).auth_events@
            &&& final(store).auth_events@.last().user_id == uid
            &&& final(store).auth_events@.last().session_id@ == session_id@
            &&& final(store).auth_events@.last().event is Login
        }),
        r matches Err(KnownErrors::LoginFailed { username: u }) ==> ({
            &&& u@ == username@
            &&& lookup_user_id(old(store).user_events@, username@) matches Some(uid)
                && !bcrypt_matches(
                password@,
                user_fold(
                    uid,
                    selected_user_events(
                        old(store).user_events@,
                        uid,
                        seq![UserEventType::Created, UserEventType::PasswordUpdated],
                    ),
                ).hashed_password,
            )
        }),
        r is Err ==> final(store).auth_events@ == old(store).auth_events@,
        r is Err ==> (r matches Err(e) && (e is UserDoesntExist || e is LoginFailed
            || e is Storage)),
        r matches Err(e) && e is UserDoesntExist ==> lookup_user_id(
            old(store).user_events@,
            username@,
        ) is None,
        r matches Err(e) && e is Storage ==> (lookup_user_id(
            old(store).user_events@,
            username@,
        ) matches Some(uid) && !bcrypt_digest_parses(
            user_fold(
                uid,
                selected_user_events(
                    old(store).user_events@,
                    uid,
                    seq![UserEventType::Created, UserEventType::PasswordUpdated],
                ),
            ).hashed_password,
        )),
        final(store).user_events@ == old(store).user_events@,
        final(store).journal_events@ == old(store).journal_events@,
        final(store).domain_events@ == old(store).domain_events@,
{
    let user_id = match get_id_from_username(&username, store) {
        Some(s) => s,
        None => {
            return Err(KnownErrors::UserDoesntExist);
        },
    };

    let hashed_password = get_hashed_pw(user_id, store);

    let matches_digest = match verify_password(&password, &hashed_password) {
        Ok(b) => b,
        Err(e) => {
            return Err(e);
        },
    };

    if matches_digest {
        AuthEvent::Login.push_db(user_id, session_id, store);
    } else {
        return Err(KnownErrors::LoginFailed { username });
    }

    Ok(())
}

/// Log the session's user out by appending a logout event for the session.
pub fn log_out(store: &mut EventStore, session_id: &String) -> (r: Result<(), KnownErrors>)
    ensures
        match session_user(old(store).auth_events@, session_id@) {
            None => (r matches Err(e) && e is NotLoggedIn)
                && final(store).auth_events@ == old(store).auth_events@,
            Some(uid) => {
                &&& r is Ok
                &&& final(store).auth_events@.len() == old(store).auth_events@.len() + 1
                &&& final(store).auth_events@.drop_last() == old(store).auth_events@
                &&& final(store).auth_events@.last().user_id == uid
                &&& final(store).auth_events@.last().session_id@ == session_id@
                &&& final(store).auth_events@.last().event is Logout
            },
        },
        final(store).user_events@ == old(store).user_events@,
        final(store).journal_events@ == old(store).journal_events@,
        final(store).domain_events@ == old(store).domain_events@,
{
    let user_id = match crate::auth::get_user_id(session_id, store) {
        Ok(s) => s,
        Err(e) => {
            return Err(e);
        },
    };

    AuthEvent::Logout.push_db(user_id, session_id, store);
    Ok(())
}

/// Create a journal owned by the session's user.  The name must not be
/// blank.  One event goes to the new journal's stream and one to the
/// owner's stream.
pub fn create_journal(store: &mut EventStore, session_id: &String, journal_name: String) -> (r:
    Result<(), KnownErrors>)
    ensures
        session_user(old(store).auth_events@, session_id@) is None ==> (r matches Err(e)
            && e is NotLoggedIn),
        (session_user(old(store).auth_events@, session_id@) is Some && is_blank(journal_name@))
            ==> (r matches Err(e) && e is InvalidInput),
        r is Err ==> final(store).user_events@ == old(store).user_events@
            && final(store).journal_events@ == old(store).journal_events@,
        r is Err ==> (r matches Err(e) && (e is NotLoggedIn || e is InvalidInput)),
        r matches Err(e) && e is NotLoggedIn ==> session_user(
            old(store).auth_events@,
            session_id@,
        ) is None,
        r matches Err(e) && e is InvalidInput ==> session_user(
            old(store).auth_events@,
            session_id@,
        ) is Some && is_blank(journal_name@),
        r is Ok ==> ({
            &&& session_user(old(store).auth_events@, session_id@) matches Some(uid)
            &&& !is_blank(journal_name@)
            &&& final(store).journal_events@.len() == old(store).journal_events@.len() + 1
            &&& final(store).journal_events@.drop_last() == old(store).journal_events@
            &&& (final(store).journal_events@.last().event@ matches
                crate::journal::JournalEventView::Created { name, owner } && name == journal_name@
                && owner == uid)
            &&& final(store).user_events@.len() == old(store).user_events@.len() + 1
            &&& final(store).user_events@.drop_last() == old(store).user_events@
            &&& final(store).user_events@.last().user_id == uid
            &&& (final(store).user_events@.last().event matches UserEvent::CreatedJournal { id }
                && id == final(store).journal_events@.last().journal_id)
        }),
        final(store).auth_events@ == old(store).auth_events@,
        final(store).domain_events@ == old(store).domain_events@,
{
    let user_id = match crate::auth::get_user_id(session_id, store) {
        Ok(s) => s,
        Err(e) => {
            return Err(e);
        },
    };

    if check_blank(&journal_name) {
        return Err(KnownErrors::InvalidInput);
    }

    let journal_id = fresh_id();

    crate::journal::JournalEvent::Created { name: journal_name, owner: user_id }.push_db(
        journal_id,
        store,
    );

    UserEvent::CreatedJournal { id: journal_id }.push_db(user_id, store);

    Ok(())
}

/// A user may read a journal they own, or one they hold an accepted
/// grant with the read capability for.
pub open spec fn can_read(u: crate::user::UserView, journal_id: u128) -> bool {
    id_has(u.owned_journals, journal_id) || (grant_has(u.accepted_journal_invites, journal_id)
        && grant_get(u.accepted_journal_invites, journal_id).tenant_permissions.spec_contains(
        Permissions { bits: READ },
    ))
}

/// Decide readability against a freshly built relationship snapshot.
fn check_can_read(user_state: &UserState, journal_id: u128) -> (r: bool)
    ensures
        r == can_read(user_state@, journal_id),
{
    if user_state.owned_journals.contains(journal_id) {
        return true;
    }
    let journal = user_state.accepted_journal_invites.get(journal_id);
    match journal {
        Some(info) => info.tenant_permissions.contains(Permissions::from_bits(READ)),
        None => false,
    }
}

/// Point the session's user at a journal: allowed for a journal they can
/// read, and recorded as one event in their own stream.
pub fn select_journal(store: &mut EventStore, session_id: &String, journal_id: u128) -> (r: Result<
    (),
    KnownErrors,
>)
    ensures
        session_user(old(store).auth_events@, session_id@) is None ==> (r matches Err(e)
            && e is NotLoggedIn),
        r is Err ==> final(store).user_events@ == old(store).user_events@,
        match session_user(old(store).auth_events@, session_id@) {
            None => r matches Err(e) && e is NotLoggedIn,
            Some(uid) => {
                if can_read(relation_state(old(store).user_events@, uid), journal_id) {
                    &&& r is Ok
                    &&& final(store).user_events@.len() == old(store).user_events@.len() + 1
                    &&& final(store).user_events@.drop_last() == old(store).user_events@
                    &&& final(store).user_events@.last().user_id == uid
                    &&& final(store).user_events@.last().event == (UserEvent::SelectedJournal {
                        id: journal_id,
                    })
                } else {
                    r matches Err(KnownErrors::PermissionError { required_permissions: p })
                        && p.bits == READ
                }
            },
        },
        final(store).journal_events@ == old(store).journal_events@,
        final(store).auth_events@ == old(store).auth_events@,
        final(store).domain_events@ == old(store).domain_events@,
{
    let user_id = match crate::auth::get_user_id(session_id, store) {
        Ok(s) => s,
        Err(e) => {
            return Err(e);
        },
    };

    let kinds = relation_event_types();
    let user_state = UserState::build(user_id, &kinds, store);

    if !check_can_read(&user_state, journal_id) {
        return Err(
            KnownErrors::PermissionError { required_permissions: Permissions::from_bits(READ) },
        );
    }

    UserEvent::SelectedJournal { id: journal_id }.push_db(user_id, store);

    Ok(())
}

/// Accept or decline a pending invitation.  Only valid while the entry is
/// pending; the recorded event is what later folds move or drop the
/// grant by.
pub fn respond_to_journal_invite(
    store: &mut EventStore,
    session_id: &String,
    journal_id: u128,
    accepted: bool,
) -> (r: Result<(), KnownErrors>)
    ensures
        r is Err ==> final(store).user_events@ == old(store).user_events@,
        match session_user(old(store).auth_events@, session_id@) {
            None => r matches Err(e) && e is NotLoggedIn,
            Some(uid) => {
                if grant_has(
                    user_fold(
                        uid,
                        selected_user_events(old(store).user_events@, uid, invite_kinds()),
                    ).pending_journal_invites,
                    journal_id,
                ) {
                    &&& r is Ok
                    &&& final(store).user_events@.len() == old(store).user_events@.len() + 1
                    &&& final(store).user_events@.drop_last() == old(store).user_events@
                    &&& final(store).user_events@.last().user_id == uid
                    &&& final(store).user_events@.last().event == (if accepted {
                        UserEvent::AcceptedJournalInvite { id: journal_id }
                    } else {
                        UserEvent::DeclinedJournalInvite { id: journal_id }
                    })
                } else {
                    r matches Err(e) && e is NoInvitation
                }
            },
        },
        final(store).journal_events@ == old(store).journal_events@,
        final(store).auth_events@ == old(store).auth_events@,
        final(store).domain_events@ == old(store).domain_events@,
{
    let user_id = match crate::auth::get_user_id(session_id, store) {
        Ok(s) => s,
        Err(e) => {
            return Err(e);
        },
    };

    let kinds = invite_event_types();
    let user_state = UserState::build(user_id, &kinds, store);

    if user_state.pending_journal_invites.contains_key(journal_id) {
        if accepted {
            UserEvent::AcceptedJournalInvite { id: journal_id }.push_db(user_id, store);
        } else {
            UserEvent::DeclinedJournalInvite { id: journal_id }.push_db(user_id, store);
        }
    } else {
        return Err(KnownErrors::NoInvitation);
    }

    Ok(())
}

/// The replay filter for invitation state alone.
pub open spec fn invite_kinds() -> Seq<UserEventType> {
    seq![
        UserEventType::InvitedToJournal,
        UserEventType::AcceptedJournalInvite,
        UserEventType::DeclinedJournalInvite,
        UserEventType::RemovedFromJournal,
    ]
}

/// Build the invitation-state filter.
pub fn invite_event_types() -> (r: Vec<UserEventType>)
    ensures
        r@ == invite_kinds(),
{
    let mut v: Vec<UserEventType> = Vec::new();
    v.push(UserEventType::InvitedToJournal);
    v.push(UserEventType::AcceptedJournalInvite);
    v.push(UserEventType::DeclinedJournalInvite);
    v.push(UserEventType::RemovedFromJournal);
    proof {
        assert(v@ =~= invite_kinds());
    }
    v
}

/// The replay filter for a journal's account table.
pub open spec fn account_kinds() -> Seq<JournalEventType> {
    seq![JournalEventType::CreatedAccount, JournalEventType::DeletedAccount]
}

/// Build the account-table filter.
pub fn account_event_types() -> (r: Vec<JournalEventType>)
    ensures
        r@ == account_kinds(),
{
    let mut v: Vec<JournalEventType> = Vec::new();
    v.push(JournalEventType::CreatedAccount);
    v.push(JournalEventType::DeletedAccount);
    proof {
        assert(v@ =~= account_kinds());
    }
    v
}

/// A user may add accounts to a journal they own, or to one they hold an
/// accepted grant with the add-account capability for.
pub open spec fn can_add_account(u: crate::user::UserView, journal_id: u128) -> bool {
    id_has(u.owned_journals, journal_id) || (grant_has(u.accepted_journal_invites, journal_id)
        && grant_get(u.accepted_journal_invites, journal_id).tenant_permissions.spec_contains(
        Permissions { bits: ADD_ACCOUNT },
    ))
}

/// Add an account to a journal.  The name must not be blank, the acting
/// user needs the add-account capability (or ownership), and the name
/// must not collide with an existing account: the fold assigns fresh
/// identifiers and never deduplicates, so uniqueness is enforced here.
pub fn add_account(
    store: &mut EventStore,
    session_id: &String,
    journal_id: u128,
    account_name: String,
) -> (r: Result<(), KnownErrors>)
    ensures
        r is Err ==> final(store).journal_events@ == old(store).journal_events@,
        match session_user(old(store).auth_events@, session_id@) {
            None => r matches Err(e) && e is NotLoggedIn,
            Some(uid) => {
                if is_blank(account_name@) {
                    r matches Err(e) && e is InvalidInput
                } else if !can_add_account(relation_state(old(store).user_events@, uid),
                journal_id) {
                    r matches Err(KnownErrors::PermissionError { required_permissions: p })
                        && p.bits == ADD_ACCOUNT
                } else if acct_name_taken(
                    journal_fold(
                        journal_id,
                        selected_journal_events(
                            old(store).journal_events@,
                            journal_id,
                            account_kinds(),
                        ),
                    ).accounts,
                    account_name@,
                ) {
                    r matches Err(e) && e is AccountExists
                } else {
                    &&& r is Ok
                    &&& final(store).journal_events@.len() == old(store).journal_events@.len() + 1
                    &&& final(store).journal_events@.drop_last() == old(store).journal_events@
                    &&& final(store).journal_events@.last().journal_id == journal_id
                    &&& (final(store).journal_events@.last().event@ matches
                        JournalEventView::CreatedAccount { account_name: n } && n
                        == account_name@)
                }
            },
        },
        final(store).user_events@ == old(store).user_events@,
        final(store).auth_events@ == old(store).auth_events@,
        final(store).domain_events@ == old(store).domain_events@,
{
    let user_id = match crate::auth::get_user_id(session_id, store) {
        Ok(s) => s,
        Err(e) => {
            return Err(e);
        },
    };

    if check_blank(&account_name) {
        return Err(KnownErrors::InvalidInput);
    }

    let kinds = relation_event_types();
    let user_state = UserState::build(user_id, &kinds, store);

    let allowed = if user_state.owned_journals.contains(journal_id) {
        true
    } else {
        match user_state.accepted_journal_invites.get(journal_id) {
            Some(info) => info.tenant_permissions.contains(Permissions::from_bits(ADD_ACCOUNT)),
            None => false,
        }
    };

    if !allowed {
        return Err(
            KnownErrors::PermissionError {
                required_permissions: Permissions::from_bits(ADD_ACCOUNT),
            },
        );
    }

    let jkinds = account_event_types();
    let state = JournalState::build(journal_id, &jkinds, store);

    if journal_has_account_name(&state, &account_name) {
        return Err(KnownErrors::AccountExists);
    }

    crate::journal::JournalEvent::CreatedAccount { account_name }.push_db(journal_id, store);

    Ok(())
}

/// Decide whether a journal snapshot already holds an account of this
/// display name.
fn journal_has_account_name(state: &JournalState, account_name: &String) -> (r: bool)
    ensures
        r == acct_name_taken(state@.accounts, account_name@),
{
    let n = state.accounts.len();
    let mut i: usize = 0;
    while i < n
        invariant
            n == state.accounts@.len(),
            forall|k: int| 0 <= k < i ==> state@.accounts[k].name != account_name@,
            i <= n,
        decreases n - i,
    {
        if state.accounts[i].name == *account_name {
            assert(state@.accounts[i as int].name == account_name@);
            return true;
        }
        i += 1;
    }
    false
}

/// The candidate already owns, was invited to, or accepted an invite to
/// the journal.
pub open spec fn has_relationship(u: crate::user::UserView, journal_id: u128) -> bool {
    ||| id_has(u.owned_journals, journal_id)
    ||| grant_has(u.accepted_journal_invites, journal_id)
    ||| grant_has(u.pending_journal_invites, journal_id)
}

/// The error payload of a refused delegation: the first capability flag,
/// in bit order, that was requested but not held, or the remaining
/// unheld bits if no single named flag is missing.
pub open spec fn first_missing(req: Permissions, held: Permissions) -> Permissions {
    if req.bits & READ == READ && held.bits & READ != READ {
        Permissions { bits: READ }
    } else if req.bits & ADD_ACCOUNT == ADD_ACCOUNT && held.bits & ADD_ACCOUNT != ADD_ACCOUNT {
        Permissions { bits: ADD_ACCOUNT }
    } else if req.bits & APPEND_TRANSACTION == APPEND_TRANSACTION && held.bits
        & APPEND_TRANSACTION != APPEND_TRANSACTION {
        Permissions { bits: APPEND_TRANSACTION }
    } else if req.bits & INVITE == INVITE && held.bits & INVITE != INVITE {
        Permissions { bits: INVITE }
    } else if req.bits & DELETE == DELETE && held.bits & DELETE != DELETE {
        Permissions { bits: DELETE }
    } else {
        Permissions { bits: req.bits & !held.bits }
    }
}

/// Invite another user to a journal with a permission grant.  The
/// candidate must have no standing relationship to the journal.  The
/// owner may grant any bit-set; a tenant may delegate only with the
/// invite capability and only bits they hold themselves, so a delegated
/// grant is always a subset of the delegator's own.  An inviter with no
/// relationship at all appends nothing and reports success, as the
/// command surface always has.
pub fn invite_to_journal(
    store: &mut EventStore,
    session_id: &String,
    journal_id: u128,
    invitee_username: String,
    permissions: Permissions,
) -> (r: Result<(), KnownErrors>)
    ensures
        r is Err ==> final(store).user_events@ == old(store).user_events@,
        match session_user(old(store).auth_events@, session_id@) {
            None => r matches Err(e) && e is NotLoggedIn,
            Some(own_id) => match lookup_user_id(old(store).user_events@, invitee_username@) {
                None => r matches Err(e) && e is UserDoesntExist,
                Some(invitee_id) => {
                    let inviter = relation_state(old(store).user_events@, own_id);
                    let invitee = relation_state(old(store).user_events@, invitee_id);
                    if has_relationship(invitee, journal_id) {
                        r matches Err(e) && e is UserCanAccessJournal
                    } else if id_has(inviter.owned_journals, journal_id) {
                        &&& r is Ok
                        &&& invited_appended(
                            old(store).user_events@,
                            final(store).user_events@,
                            invitee_id,
                            journal_id,
                            permissions,
                            own_id,
                            own_id,
                        )
                    } else if grant_has(inviter.accepted_journal_invites, journal_id) {
                        let own_grant = grant_get(inviter.accepted_journal_invites, journal_id);
                        if own_grant.tenant_permissions.bits & INVITE != INVITE {
                            r matches Err(KnownErrors::PermissionError {
                                required_permissions: p,
                            }) && p.bits == INVITE
                        } else if !own_grant.tenant_permissions.spec_contains(permissions) {
                            r matches Err(KnownErrors::PermissionError {
                                required_permissions: p,
                            }) && p == first_missing(permissions, own_grant.tenant_permissions)
                        } else {
                            &&& r is Ok
                            &&& own_grant.tenant_permissions.spec_contains(permissions)
                            &&& invited_appended(
                                old(store).user_events@,
                                final(store).user_events@,
                                invitee_id,
                                journal_id,
                                permissions,
                                own_id,
                                own_grant.journal_owner,
                            )
                        }
                    } else {
                        r is Ok && final(store).user_events@ == old(store).user_events@
                    }
                },
            },
        },
        final(store).journal_events@ == old(store).journal_events@,
        final(store).auth_events@ == old(store).auth_events@,
        final(store).domain_events@ == old(store).domain_events@,
{
    let own_id = match crate::auth::get_user_id(session_id, store) {
        Ok(s) => s,
        Err(e) => {
            return Err(e);
        },
    };

    let invitee_id = match get_id_from_username(&invitee_username, store) {
        Some(s) => s,
        None => {
            return Err(KnownErrors::UserDoesntExist);
        },
    };

    let kinds = relation_event_types();
    let inviting_user_state = UserState::build(own_id, &kinds, store);
    let invitee_state = UserState::build(invitee_id, &kinds, store);

    if invitee_state.owned_journals.contains(journal_id)
        || invitee_state.accepted_journal_invites.contains_key(journal_id)
        || invitee_state.pending_journal_invites.contains_key(journal_id) {
        return Err(KnownErrors::UserCanAccessJournal);
    }

    if inviting_user_state.owned_journals.contains(journal_id) {
        UserEvent::InvitedToJournal {
            id: journal_id,
            permissions,
            inviting_user: own_id,
            owner: own_id,
        }.push_db(invitee_id, store);
        proof {
            assert(store.user_events@.drop_last() =~= old(store).user_events@);
        }
    } else if let Some(own_tenant_info) = inviting_user_state.accepted_journal_invites.get(
        journal_id,
    ) {
        if !own_tenant_info.tenant_permissions.contains(Permissions::from_bits(INVITE)) {
            return Err(
                KnownErrors::PermissionError {
                    required_permissions: Permissions::from_bits(INVITE),
                },
            );
        }
        match missing_permission(permissions, own_tenant_info.tenant_permissions) {
            Some(p) => {
                return Err(KnownErrors::PermissionError { required_permissions: p });
            },
            None => {},
        }
        UserEvent::InvitedToJournal {
            id: journal_id,
            permissions,
            inviting_user: own_id,
            owner: own_tenant_info.journal_owner,
        }.push_db(invitee_id, store);
        proof {
            assert(store.user_events@.drop_last() =~= old(store).user_events@);
        }
    }
    Ok(())
}

/// The replay filter for a journal's display name.
pub open spec fn name_kinds() -> Seq<JournalEventType> {
    seq![JournalEventType::Created, JournalEventType::Renamed]
}

/// Build the journal-name filter.
pub fn name_event_types() -> (r: Vec<JournalEventType>)
    ensures
        r@ == name_kinds(),
{
    let mut v: Vec<JournalEventType> = Vec::new();
    v.push(JournalEventType::Created);
    v.push(JournalEventType::Renamed);
    proof {
        assert(v@ =~= name_kinds());
    }
    v
}

/// The current display name of journal `jid`.
pub open spec fn journal_name(logj: Seq<crate::store::JournalRecord>, jid: u128) -> Seq<char> {
    journal_fold(jid, selected_journal_events(logj, jid, name_kinds())).name
}

/// List the session user's pending invitations, each decorated with the
/// journal's current display name.
pub fn get_journal_invites(store: &EventStore, session_id: &String) -> (r: Result<
    Vec<JournalInvite>,
    KnownErrors,
>)
    ensures
        match session_user(store.auth_events@, session_id@) {
            None => r matches Err(e) && e is NotLoggedIn,
            Some(uid) => {
                let pend = user_fold(
                    uid,
                    selected_user_events(store.user_events@, uid, invite_kinds()),
                ).pending_journal_invites;
                &&& r matches Ok(v)
                &&& v@.len() == pend.len()
                &&& forall|i: int|
                    0 <= i < pend.len() ==> #[trigger] v@[i]@ == (JournalInviteView {
                        id: pend[i].journal,
                        name: journal_name(store.journal_events@, pend[i].journal),
                        tenant_info: pend[i].info,
                    })
            },
        },
{
    let user_id = match crate::auth::get_user_id(session_id, store) {
        Ok(s) => s,
        Err(e) => {
            return Err(e);
        },
    };

    let kinds = invite_event_types();
    let user_state = UserState::build(user_id, &kinds, store);

    let jkinds = name_event_types();
    let pending = user_state.pending_journal_invites.entries();
    let n = pending.len();
    let mut invites: Vec<JournalInvite> = Vec::new();
    let mut i: usize = 0;
    while i < n
        invariant
            n == pending@.len(),
            i <= n,
            jkinds@ == name_kinds(),
            invites@.len() == i,
            forall|k: int|
                0 <= k < i ==> #[trigger] invites@[k]@ == (JournalInviteView {
                    id: pending@[k].journal,
                    name: journal_name(store.journal_events@, pending@[k].journal),
                    tenant_info: pending@[k].info,
                }),
        decreases n - i,
    {
        let entry = &pending[i];
        let journal_state = JournalState::build(entry.journal, &jkinds, store);
        invites.push(
            JournalInvite { id: entry.journal, name: journal_state.name, tenant_info: entry.info },
        );
        i += 1;
    }
    Ok(invites)
}

/// The replay filter for a journal's full account table with balances.
pub open spec fn balance_kinds() -> Seq<JournalEventType> {
    seq![
        JournalEventType::Created,
        JournalEventType::CreatedAccount,
        JournalEventType::DeletedAccount,
        JournalEventType::AddedEntry,
    ]
}

/// Build the account-and-balance filter.
pub fn balance_event_types() -> (r: Vec<JournalEventType>)
    ensures
        r@ == balance_kinds(),
{
    let mut v: Vec<JournalEventType> = Vec::new();
    v.push(JournalEventType::Created);
    v.push(JournalEventType::CreatedAccount);
    v.push(JournalEventType::DeletedAccount);
    v.push(JournalEventType::AddedEntry);
    proof {
        assert(v@ =~= balance_kinds());
    }
    v
}

/// List the accounts of the session user's selected journal, with their
/// running balances.  Fails when no journal is selected, and when the
/// user cannot read the selected one.
pub fn get_accounts(store: &EventStore, session_id: &String) -> (r: Result<
    Vec<Account>,
    KnownErrors,
>)
    ensures
        match session_user(store.auth_events@, session_id@) {
            None => r matches Err(e) && e is NotLoggedIn,
            Some(uid) => {
                let u = relation_state_with_selected(store.user_events@, uid);
                let jid = u.selected_journal;
                if jid == 0 {
                    r matches Err(e) && e is InvalidJournal
                } else if !can_read(u, jid) {
                    r matches Err(KnownErrors::PermissionError { required_permissions: p })
                        && p.bits == READ
                } else {
                    let accs = journal_fold(
                        jid,
                        selected_journal_events(store.journal_events@, jid, balance_kinds()),
                    ).accounts;
                    &&& r matches Ok(v)
                    &&& v@.len() == accs.len()
                    &&& forall|i: int|
                        0 <= i < accs.len() ==> #[trigger] v@[i]@ == (AccountEntryView {
                            name: accs[i].name,
                            balance: accs[i].balance,
                        })
                }
            },
        },
{
    let user_id = match crate::auth::get_user_id(session_id, store) {
        Ok(s) => s,
        Err(e) => {
            return Err(e);
        },
    };

    let kinds = relation_event_types_with_selected();
    let user_state = UserState::build(user_id, &kinds, store);

    let journal_id = user_state.selected_journal;

    if journal_id == 0 {
        return Err(KnownErrors::InvalidJournal);
    }

    if !check_can_read(&user_state, journal_id) {
        return Err(
            KnownErrors::PermissionError { required_permissions: Permissions::from_bits(READ) },
        );
    }

    let jkinds = balance_event_types();
    let journal_state = JournalState::build(journal_id, &jkinds, store);

    let n = journal_state.accounts.len();
    let mut accounts: Vec<Account> = Vec::new();
    let mut i: usize = 0;
    while i < n
        invariant
            n == journal_state.accounts@.len(),
            i <= n,
            accounts@.len() == i,
            forall|k: int|
                0 <= k < i ==> #[trigger] accounts@[k]@ == (AccountEntryView {
                    name: journal_state@.accounts[k].name,
                    balance: journal_state@.accounts[k].balance,
                }),
        decreases n - i,
    {
        let rec = &journal_state.accounts[i];
        accounts.push(Account { name: rec.name.clone(), balance: rec.balance });
        i += 1;
    }
    Ok(accounts)
}

/// A user may post transactions to a journal they own, or to one they
/// hold an accepted grant with the append-transaction capability for.
pub open spec fn can_transact(u: crate::user::UserView, journal_id: u128) -> bool {
    id_has(u.owned_journals, journal_id) || (grant_has(u.accepted_journal_invites, journal_id)
        && grant_get(u.accepted_journal_invites, journal_id).tenant_permissions.spec_contains(
        Permissions { bits: APPEND_TRANSACTION },
    ))
}

/// The net signed change of one entry: credit minus debit.
pub open spec fn entry_net(e: (u64, String, String)) -> int {
    parse_amount_spec(e.1@) - parse_amount_spec(e.2@)
}

/// The balance updates a batch of entries produces: one per entry with a
/// non-zero net change, in input order.
pub open spec fn tx_updates(es: Seq<(u64, String, String)>) -> Seq<BalanceUpdate>
    decreases es.len(),
{
    if es.len() == 0 {
        Seq::empty()
    } else {
        let p = tx_updates(es.drop_last());
        let e = es.last();
        if entry_net(e) != 0 {
            p.push(BalanceUpdate { account_id: e.0, changed_by: entry_net(e) as i64 })
        } else {
            p
        }
    }
}

/// The sum of a balance-update list's signed changes.
pub open spec fn updates_total(us: Seq<BalanceUpdate>) -> int
    decreases us.len(),
{
    if us.len() == 0 {
        0
    } else {
        updates_total(us.drop_last()) + us.last().changed_by
    }
}

/// Post a transaction to a journal.  Each entry is an account reference
/// with a credit and a debit amount; entries whose net change is zero are
/// dropped.  The remaining changes must sum to exactly zero and must not
/// be empty; an unbalanced batch is refused with the full attempted
/// update list, so the caller can redisplay what was entered.  On
/// success exactly one event carrying the whole transaction is appended.
pub fn transact(
    store: &mut EventStore,
    session_id: &String,
    journal_id: u128,
    entries: Vec<(u64, String, String)>,
) -> (r: Result<(), KnownErrors>)
    ensures
        r is Err ==> final(store).journal_events@ == old(store).journal_events@,
        match session_user(old(store).auth_events@, session_id@) {
            None => r matches Err(e) && e is NotLoggedIn,
            Some(uid) => {
                if !can_transact(relation_state(old(store).user_events@, uid), journal_id) {
                    r matches Err(KnownErrors::PermissionError { required_permissions: p })
                        && p.bits == APPEND_TRANSACTION
                } else {
                    let ups = tx_updates(entries@);
                    if updates_total(ups) != 0 {
                        r matches Err(KnownErrors::BalanceMismatch { attempted_transaction: a })
                            && a@ == ups
                    } else if ups.len() == 0 {
                        r matches Err(e) && e is InvalidInput
                    } else {
                        &&& r is Ok
                        &&& final(store).journal_events@.len() == old(
                            store,
                        ).journal_events@.len() + 1
                        &&& final(store).journal_events@.drop_last() == old(
                            store,
                        ).journal_events@
                        &&& final(store).journal_events@.last().journal_id == journal_id
                        &&& (final(store).journal_events@.last().event@ matches
                            JournalEventView::AddedEntry { transaction: t } && t.author == uid
                            && t.updates == ups)
                    }
                }
            },
        },
        final(store).user_events@ == old(store).user_events@,
        final(store).auth_events@ == old(store).auth_events@,
        final(store).domain_events@ == old(store).domain_events@,
{
    let user_id = match crate::auth::get_user_id(session_id, store) {
        Ok(s) => s,
        Err(e) => {
            return Err(e);
        },
    };

    let kinds = relation_event_types();
    let user_state = UserState::build(user_id, &kinds, store);

    let allowed = if user_state.owned_journals.contains(journal_id) {
        true
    } else {
        match user_state.accepted_journal_invites.get(journal_id) {
            Some(info) => info.tenant_permissions.contains(
                Permissions::from_bits(APPEND_TRANSACTION),
            ),
            None => false,
        }
    };

    if !allowed {
        return Err(
            KnownErrors::PermissionError {
                required_permissions: Permissions::from_bits(APPEND_TRANSACTION),
            },
        );
    }

    let mut updates: Vec<BalanceUpdate> = Vec::new();
    let mut total_balance_change: i128 = 0;

    let n = entries.len();
    let mut i: usize = 0;
    while i < n
        invariant
            n == entries@.len(),
            i <= n,
            updates@ == tx_updates(entries@.take(i as int)),
            total_balance_change == updates_total(updates@),
            -(i as int) * 0x7fff_ffff_ffff_ffff <= total_balance_change
                <= (i as int) * 0x7fff_ffff_ffff_ffff,
        decreases n - i,
    {
        let entry = &entries[i];
        let add_amt = parse_amount(&entry.1);
        let remove_amt = parse_amount(&entry.2);

        let account_sum = add_amt - remove_amt;

        proof {
            assert(entries@.take(i + 1 as int).drop_last() =~= entries@.take(i as int));
            assert(entries@.take(i + 1 as int).last() == entries@[i as int]);
        }
        if account_sum != 0 {
            total_balance_change = total_balance_change + account_sum as i128;
            updates.push(BalanceUpdate { account_id: entry.0, changed_by: account_sum });
            proof {
                assert(updates@.drop_last() =~= tx_updates(entries@.take(i as int)));
            }
        }
        i += 1;
    }
    proof {
        assert(entries@.take(n as int) =~= entries@);
    }

    if total_balance_change != 0 {
        return Err(KnownErrors::BalanceMismatch { attempted_transaction: updates });
    }

    if updates.len() == 0 {
        return Err(KnownErrors::InvalidInput);
    }

    crate::journal::JournalEvent::AddedEntry {
        transaction: crate::journal::Transaction { author: user_id, updates },
    }.push_db(journal_id, store);

    Ok(())
}

/// The replay filter for a journal's name and deletion state.
pub open spec fn name_deleted_kinds() -> Seq<JournalEventType> {
    seq![JournalEventType::Created, JournalEventType::Deleted]
}

/// Build the name-and-deletion filter.
pub fn name_deleted_event_types() -> (r: Vec<JournalEventType>)
    ensures
        r@ == name_deleted_kinds(),
{
    let mut v: Vec<JournalEventType> = Vec::new();
    v.push(JournalEventType::Created);
    v.push(JournalEventType::Deleted);
    proof {
        assert(v@ =~= name_deleted_kinds());
    }
    v
}

/// The name-and-deletion projection of journal `jid`.
pub open spec fn journal_core(logj: Seq<crate::store::JournalRecord>, jid: u128)
    -> crate::journal::JournalView {
    journal_fold(jid, selected_journal_events(logj, jid, name_deleted_kinds()))
}

/// The listing entries of a user's owned journals, skipping deleted ones.
pub open spec fn owned_entries(logj: Seq<crate::store::JournalRecord>, owned: Seq<u128>) -> Seq<
    AssociatedJournalView,
>
    decreases owned.len(),
{
    if owned.len() == 0 {
        Seq::empty()
    } else {
        let p = owned_entries(logj, owned.drop_last());
        let jid = owned.last();
        let jv = journal_core(logj, jid);
        if jv.deleted {
            p
        } else {
            p.push(AssociatedJournalView::Owned { id: jid, name: jv.name })
        }
    }
}

/// The listing entries of a user's accepted shared journals, skipping
/// deleted ones.
pub open spec fn shared_entries(
    logj: Seq<crate::store::JournalRecord>,
    accepted: Seq<crate::grants::GrantEntry>,
) -> Seq<AssociatedJournalView>
    decreases accepted.len(),
{
    if accepted.len() == 0 {
        Seq::empty()
    } else {
        let p = shared_entries(logj, accepted.drop_last());
        let e = accepted.last();
        let jv = journal_core(logj, e.journal);
        if jv.deleted {
            p
        } else {
            p.push(
                AssociatedJournalView::Shared { id: e.journal, name: jv.name, tenant_info: e.info },
            )
        }
    }
}

/// The models of a listing.
pub open spec fn aj_views(v: Seq<AssociatedJournal>) -> Seq<AssociatedJournalView> {
    v.map_values(|a: AssociatedJournal| a@)
}

/// The listing entry the selection pointer refers to: the last one with
/// the selected journal's id, if any is listed.
pub open spec fn last_selected(s: Seq<AssociatedJournalView>, jid: u128) -> Option<
    AssociatedJournalView,
>
    decreases s.len(),
{
    if s.len() == 0 {
        None
    } else if s.last().spec_id() == jid {
        Some(s.last())
    } else {
        last_selected(s.drop_last(), jid)
    }
}

/// List every journal the session's user is associated with, owned ones
/// first in insertion order, then accepted shared ones, skipping deleted
/// journals; and say which listed entry the user's selection points at.
pub fn get_associated_journals(store: &EventStore, session_id: &String) -> (r: Result<
    Journals,
    KnownErrors,
>)
    ensures
        match session_user(store.auth_events@, session_id@) {
            None => r matches Err(e) && e is NotLoggedIn,
            Some(uid) => {
                let u = relation_state_with_selected(store.user_events@, uid);
                let expected = owned_entries(store.journal_events@, u.owned_journals) + shared_entries(
                    store.journal_events@,
                    u.accepted_journal_invites,
                );
                &&& r matches Ok(j)
                &&& aj_views(j.associated@) == expected
                &&& match last_selected(expected, u.selected_journal) {
                    None => j.selected is None,
                    Some(v) => j.selected matches Some(a) && a@ == v,
                }
            },
        },
{
    let user_id = match crate::auth::get_user_id(session_id, store) {
        Ok(s) => s,
        Err(e) => {
            return Err(e);
        },
    };

    let kinds = relation_event_types_with_selected();
    let user = UserState::build(user_id, &kinds, store);

    let jkinds = name_deleted_event_types();

    let mut journals: Vec<AssociatedJournal> = Vec::new();
    let mut selected: Option<AssociatedJournal> = None;

    let owned = user.owned_journals.elements();
    let n = owned.len();
    let mut i: usize = 0;
    while i < n
        invariant
            n == owned@.len(),
            i <= n,
            jkinds@ == name_deleted_kinds(),
            aj_views(journals@) == owned_entries(store.journal_events@, owned@.take(i as int)),
            match last_selected(aj_views(journals@), user.selected_journal) {
                None => selected is None,
                Some(v) => selected matches Some(a) && a@ == v,
            },
        decreases n - i,
    {
        let journal_id = owned[i];
        let journal_state = JournalState::build(journal_id, &jkinds, store);
        proof {
            assert(owned@.take(i + 1 as int).drop_last() =~= owned@.take(i as int));
            assert(owned@.take(i + 1 as int).last() == owned@[i as int]);
        }
        if !journal_state.deleted {
            let name = journal_state.name;
            let ghost prev = journals@;
            journals.push(AssociatedJournal::Owned { id: journal_id, name: name.clone() });
            proof {
                let e = AssociatedJournalView::Owned {
                    id: journal_id,
                    name: journal_core(store.journal_events@, journal_id).name,
                };
                assert(journals@.last()@ == e);
                assert(aj_views(journals@) =~= aj_views(prev).push(e));
                assert(aj_views(journals@).drop_last() =~= aj_views(prev));
            }
            if journal_id == user.selected_journal {
                selected = Some(AssociatedJournal::Owned { id: journal_id, name });
            }
        }
        i += 1;
    }
    proof {
        assert(owned@.take(n as int) =~= owned@);
    }

    let ghost owned_views = owned_entries(store.journal_events@, user@.owned_journals);

    let accepted = user.accepted_journal_invites.entries();
    let m = accepted.len();
    let mut k: usize = 0;
    while k < m
        invariant
            m == accepted@.len(),
            k <= m,
            jkinds@ == name_deleted_kinds(),
            owned_views == owned_entries(store.journal_events@, user@.owned_journals),
            aj_views(journals@) == owned_views + shared_entries(
                store.journal_events@,
                accepted@.take(k as int),
            ),
            match last_selected(aj_views(journals@), user.selected_journal) {
                None => selected is None,
                Some(v) => selected matches Some(a) && a@ == v,
            },
        decreases m - k,
    {
        let entry = &accepted[k];
        let journal_state = JournalState::build(entry.journal, &jkinds, store);
        proof {
            assert(accepted@.take(k + 1 as int).drop_last() =~= accepted@.take(k as int));
            assert(accepted@.take(k + 1 as int).last() == accepted@[k as int]);
        }
        if !journal_state.deleted {
            let name = journal_state.name;
            let ghost prev = journals@;
            journals.push(
                AssociatedJournal::Shared {
                    id: entry.journal,
                    name: name.clone(),
                    tenant_info: entry.info,
                },
            );
            proof {
                let e = AssociatedJournalView::Shared {
                    id: entry.journal,
                    name: journal_core(store.journal_events@, entry.journal).name,
                    tenant_info: entry.info,
                };
                assert(journals@.last()@ == e);
                assert(aj_views(journals@) =~= aj_views(prev).push(e));
                assert(aj_views(journals@).drop_last() =~= aj_views(prev));
                assert(aj_views(journals@) =~= owned_views + shared_entries(
                    store.journal_events@,
                    accepted@.take(k + 1 as int),
                ));
            }
            if entry.journal == user.selected_journal {
                selected = Some(
                    AssociatedJournal::Shared {
                        id: entry.journal,
                        name,
                        tenant_info: entry.info,
                    },
                );
            }
        }
        k += 1;
    }
    proof {
        assert(accepted@.take(m as int) =~= accepted@);
    }

    Ok(Journals { associated: journals, selected })
}

/// The transactions posted to journal `jid`, each with the one-based log
/// position of its record (the store's logical timestamp).
pub open spec fn added_entry_positions(logj: Seq<crate::store::JournalRecord>, jid: u128) -> Seq<
    int,
>
    decreases logj.len(),
{
    if logj.len() == 0 {
        Seq::empty()
    } else {
        let p = added_entry_positions(logj.drop_last(), jid);
        let r = logj.last();
        if r.journal_id == jid && r.event is AddedEntry {
            p.push(logj.len() - 1)
        } else {
            p
        }
    }
}

/// The transaction model a journal event carries.
pub open spec fn tx_of(e: JournalEventView) -> crate::journal::TransactionView {
    match e {
        JournalEventView::AddedEntry { transaction } => transaction,
        _ => arbitrary(),
    }
}

/// The current username of user `uid`.
pub open spec fn username_of(log: Seq<UserRecord>, uid: u128) -> Seq<char> {
    user_fold(
        uid,
        selected_user_events(
            log,
            uid,
            seq![UserEventType::Created, UserEventType::UsernameUpdated],
        ),
    ).username
}

/// List the posted transactions of the selected journal of `journals`,
/// oldest first, each with its author's username resolved and the
/// logical timestamp its record carries.
pub fn get_transactions(
    store: &EventStore,
    session_id: &String,
    journals: Result<Journals, KnownErrors>,
) -> (r: Result<Vec<TransactionWithTimeStamp>, KnownErrors>)
    ensures
        match journals {
            Err(e) => r == Err::<Vec<TransactionWithTimeStamp>, KnownErrors>(e),
            Ok(j) => match j.selected {
                None => r matches Err(e) && e is InvalidJournal,
                Some(sel) => {
            let jid = sel@.spec_id();
            match session_user(store.auth_events@, session_id@) {
                None => r matches Err(e) && e is NotLoggedIn,
                Some(uid) => {
                    if !can_read(relation_state(store.user_events@, uid), jid) {
                        r matches Err(KnownErrors::PermissionError { required_permissions: p })
                            && p.bits == READ
                    } else {
                        let positions = added_entry_positions(store.journal_events@, jid);
                        &&& r matches Ok(v)
                        &&& v@.len() == positions.len()
                        &&& forall|i: int|
                            0 <= i < positions.len() ==> #[trigger] v@[i]@ == ({
                                let tx = tx_of(store.journal_events@[positions[i]].event@);
                                crate::return_types::TransactionWithTimeStampView {
                                    transaction:
                                        crate::return_types::TransactionWithUsernameView {
                                        author: username_of(store.user_events@, tx.author),
                                        updates: tx.updates,
                                    },
                                    timestamp: (positions[i] + 1) as u64,
                                }
                            })
                    }
                },
            }
                },
            },
        },
{
    let journal_id = match journals {
        Ok(j) => match j.selected {
            Some(s) => s.get_id(),
            None => {
                return Err(KnownErrors::InvalidJournal);
            },
        },
        Err(e) => {
            return Err(e);
        },
    };

    let user_id = match crate::auth::get_user_id(session_id, store) {
        Ok(s) => s,
        Err(e) => {
            return Err(e);
        },
    };

    let kinds = relation_event_types();
    let user_state = UserState::build(user_id, &kinds, store);

    if !check_can_read(&user_state, journal_id) {
        return Err(
            KnownErrors::PermissionError { required_permissions: Permissions::from_bits(READ) },
        );
    }

    let ukinds = username_event_types();

    let mut bundled_transactions: Vec<TransactionWithTimeStamp> = Vec::new();
    let n = store.journal_events.len();
    let mut k: usize = 0;
    while k < n
        invariant
            n == store.journal_events@.len(),
            k <= n,
            ukinds@ == seq![UserEventType::Created, UserEventType::UsernameUpdated],
            bundled_transactions@.len() == added_entry_positions(
                store.journal_events@.take(k as int),
                journal_id,
            ).len(),
            forall|i: int|
                0 <= i < bundled_transactions@.len() ==> #[trigger] bundled_transactions@[i]@
                    == ({
                    let positions = added_entry_positions(
                        store.journal_events@.take(k as int),
                        journal_id,
                    );
                    let tx = tx_of(store.journal_events@[positions[i]].event@);
                    crate::return_types::TransactionWithTimeStampView {
                        transaction: crate::return_types::TransactionWithUsernameView {
                            author: username_of(store.user_events@, tx.author),
                            updates: tx.updates,
                        },
                        timestamp: (positions[i] + 1) as u64,
                    }
                }),
            forall|i: int|
                0 <= i < added_entry_positions(
                    store.journal_events@.take(k as int),
                    journal_id,
                ).len() ==> 0 <= #[trigger] added_entry_positions(
                    store.journal_events@.take(k as int),
                    journal_id,
                )[i] < k,
        decreases n - k,
    {
        let rec = &store.journal_events[k];
        proof {
            let log = store.journal_events@;
            assert(log.take(k + 1 as int).drop_last() =~= log.take(k as int));
            assert(log.take(k + 1 as int).last() == log[k as int]);
        }
        let is_entry = rec.journal_id == journal_id && matches!(
            rec.event,
            crate::journal::JournalEvent::AddedEntry { .. }
        );
        if is_entry {
            match &rec.event {
                crate::journal::JournalEvent::AddedEntry { transaction } => {
                    let author_state = UserState::build(transaction.author, &ukinds, store);
                    let author = author_state.username;
                    let updates = crate::journal::copy_updates(&transaction.updates);
                    let stamp = (k + 1) as u64;
                    bundled_transactions.push(
                        TransactionWithTimeStamp {
                            transaction: TransactionWithUsername { author, updates },
                            timestamp: stamp,
                        },
                    );
                    proof {
                        let log = store.journal_events@;
                        let pos1 = added_entry_positions(log.take(k + 1 as int), journal_id);
                        assert(pos1 =~= added_entry_positions(log.take(k as int), journal_id).push(
                            k as int,
                        ));
                    }
                },
                _ => {
                    proof {
                        assert(false);
                    }
                },
            }
        }
        k += 1;
    }
    proof {
        assert(store.journal_events@.take(n as int) =~= store.journal_events@);
    }
    Ok(bundled_transactions)
}

/// The user log grew by exactly one invitation event with this grant.
pub open spec fn invited_appended(
    old_log: Seq<UserRecord>,
    new_log: Seq<UserRecord>,
    invitee_id: u128,
    journal_id: u128,
    permissions: Permissions,
    inviting_user: u128,
    owner: u128,
) -> bool {
    &&& new_log.len() == old_log.len() + 1
    &&& new_log.drop_last() == old_log
    &&& new_log.last().user_id == invitee_id
    &&& new_log.last().event == (UserEvent::InvitedToJournal {
        id: journal_id,
        permissions,
        inviting_user,
        owner,
    })
}

/// Find the first requested capability the delegator does not hold, in
/// bit order, or the unheld remainder of the requested bits.
fn missing_permission(req: Permissions, held: Permissions) -> (r: Option<Permissions>)
    ensures
        held.spec_contains(req) ==> r is None,
        !held.spec_contains(req) ==> r == Some(first_missing(req, held)),
{
    if req.bits & READ == READ && held.bits & READ != READ {
        proof {
            let r16 = req.bits;
            let h16 = held.bits;
            assert(!(h16 & r16 == r16)) by (bit_vector)
                requires
                    r16 & 1u16 == 1u16,
                    h16 & 1u16 != 1u16,
            ;
        }
        return Some(Permissions::from_bits(READ));
    }
    if req.bits & ADD_ACCOUNT == ADD_ACCOUNT && held.bits & ADD_ACCOUNT != ADD_ACCOUNT {
        proof {
            let r16 = req.bits;
            let h16 = held.bits;
            assert(!(h16 & r16 == r16)) by (bit_vector)
                requires
                    r16 & 2u16 == 2u16,
                    h16 & 2u16 != 2u16,
            ;
        }
        return Some(Permissions::from_bits(ADD_ACCOUNT));
    }
    if req.bits & APPEND_TRANSACTION == APPEND_TRANSACTION && held.bits & APPEND_TRANSACTION
        != APPEND_TRANSACTION {
        proof {
            let r16 = req.bits;
            let h16 = held.bits;
            assert(!(h16 & r16 == r16)) by (bit_vector)
                requires
                    r16 & 4u16 == 4u16,
                    h16 & 4u16 != 4u16,
            ;
        }
        return Some(Permissions::from_bits(APPEND_TRANSACTION));
    }
    if req.bits & INVITE == INVITE && held.bits & INVITE != INVITE {
        proof {
            let r16 = req.bits;
            let h16 = held.bits;
            assert(!(h16 & r16 == r16)) by (bit_vector)
                requires
                    r16 & 8u16 == 8u16,
                    h16 & 8u16 != 8u16,
            ;
        }
        return Some(Permissions::from_bits(INVITE));
    }
    if req.bits & DELETE == DELETE && held.bits & DELETE != DELETE {
        proof {
            let r16 = req.bits;
            let h16 = held.bits;
            assert(!(h16 & r16 == r16)) by (bit_vector)
                requires
                    r16 & 16u16 == 16u16,
                    h16 & 16u16 != 16u16,
            ;
        }
        return Some(Permissions::from_bits(DELETE));
    }
    if held.bits & req.bits == req.bits {
        proof {
            assert(held.spec_contains(req));
        }
        None
    } else {
        proof {
            assert(!held.spec_contains(req));
            assert(first_missing(req, held) == (Permissions { bits: req.bits & !held.bits }));
        }
        Some(Permissions::from_bits(req.bits & !held.bits))
    }
}

} // verus!
