//! End-to-end walks through the command layer over an in-memory store.

use ledgerbook::auth::AuthEvent;
use ledgerbook::journal::{BalanceUpdate, Permissions, ADD_ACCOUNT, READ};
use ledgerbook::main_api::{
    add_account, create_journal, get_accounts, get_associated_journals, get_user_id_from_session,
    invite_event_types, invite_to_journal, log_out, login, respond_to_journal_invite,
    select_journal, transact,
};
use ledgerbook::main_api::create_user;
use ledgerbook::return_types::KnownErrors;
use ledgerbook::store::EventStore;
use ledgerbook::user::{UserEvent, UserState};

const ALICE: u128 = 0xa11ce;
const BOB: u128 = 0xb0b;

fn seed_user(store: &mut EventStore, id: u128, username: &str, session: &str) {
    UserEvent::Created {
        username: username.to_string(),
        hashed_password: "seeded-digest".to_string(),
    }
    .push_db(id, store);
    AuthEvent::Login.push_db(id, &session.to_string(), store);
}

fn home_journal(store: &mut EventStore, session: &String) -> u128 {
    create_journal(store, session, "Home".to_string()).unwrap();
    let journals = get_associated_journals(store, session).unwrap();
    assert_eq!(journals.associated.len(), 1);
    journals.associated[0].get_id()
}

fn entry(id: u64, credit: &str, debit: &str) -> (u64, String, String) {
    (id, credit.to_string(), debit.to_string())
}

#[test]
fn balanced_transaction_is_accepted() {
    let mut store = EventStore::new();
    let sess = "sess-alice".to_string();
    seed_user(&mut store, ALICE, "alice", &sess);
    let home = home_journal(&mut store, &sess);

    add_account(&mut store, &sess, home, "Cash".to_string()).unwrap();
    add_account(&mut store, &sess, home, "Groceries".to_string()).unwrap();
    select_journal(&mut store, &sess, home).unwrap();

    let accounts = get_accounts(&store, &sess).unwrap();
    assert_eq!(accounts.len(), 2);
    assert_eq!(accounts[0].name, "Cash");
    assert_eq!(accounts[0].balance, 0);
    assert_eq!(accounts[1].name, "Groceries");
    assert_eq!(accounts[1].balance, 0);

    // Cash: credit 0, debit 1000; Groceries: credit 1000, debit 0.
    let entries = vec![entry(1, "0", "1000"), entry(2, "1000", "0")];
    transact(&mut store, &sess, home, entries).unwrap();

    let accounts = get_accounts(&store, &sess).unwrap();
    assert_eq!(accounts[0].name, "Cash");
    assert_eq!(accounts[0].balance, -1000);
    assert_eq!(accounts[1].name, "Groceries");
    assert_eq!(accounts[1].balance, 1000);
}

#[test]
fn unbalanced_transaction_is_rejected_with_attempt() {
    let mut store = EventStore::new();
    let sess = "sess-alice".to_string();
    seed_user(&mut store, ALICE, "alice", &sess);
    let home = home_journal(&mut store, &sess);

    add_account(&mut store, &sess, home, "Cash".to_string()).unwrap();
    add_account(&mut store, &sess, home, "Groceries".to_string()).unwrap();
    select_journal(&mut store, &sess, home).unwrap();

    let entries = vec![entry(1, "0", "1000"), entry(2, "900", "0")];
    let err = transact(&mut store, &sess, home, entries).unwrap_err();
    assert_eq!(
        err,
        KnownErrors::BalanceMismatch {
            attempted_transaction: vec![
                BalanceUpdate { account_id: 1, changed_by: -1000 },
                BalanceUpdate { account_id: 2, changed_by: 900 },
            ],
        }
    );

    // balances unchanged
    let accounts = get_accounts(&store, &sess).unwrap();
    assert_eq!(accounts[0].balance, 0);
    assert_eq!(accounts[1].balance, 0);
}

#[test]
fn read_only_tenant_cannot_add_accounts_but_can_list() {
    let mut store = EventStore::new();
    let alice_sess = "sess-alice".to_string();
    let bob_sess = "sess-bob".to_string();
    seed_user(&mut store, ALICE, "alice", &alice_sess);
    seed_user(&mut store, BOB, "bob", &bob_sess);
    let home = home_journal(&mut store, &alice_sess);

    invite_to_journal(
        &mut store,
        &alice_sess,
        home,
        "bob".to_string(),
        Permissions::from_bits(READ),
    )
    .unwrap();
    respond_to_journal_invite(&mut store, &bob_sess, home, true).unwrap();

    let err = add_account(&mut store, &bob_sess, home, "Cash".to_string()).unwrap_err();
    assert_eq!(
        err,
        KnownErrors::PermissionError { required_permissions: Permissions::from_bits(ADD_ACCOUNT) }
    );

    select_journal(&mut store, &bob_sess, home).unwrap();
    let accounts = get_accounts(&store, &bob_sess).unwrap();
    assert_eq!(accounts.len(), 0);
}

#[test]
fn declined_invite_leaves_no_relationship() {
    let mut store = EventStore::new();
    let alice_sess = "sess-alice".to_string();
    let bob_sess = "sess-bob".to_string();
    seed_user(&mut store, ALICE, "alice", &alice_sess);
    seed_user(&mut store, BOB, "bob", &bob_sess);
    let home = home_journal(&mut store, &alice_sess);

    invite_to_journal(
        &mut store,
        &alice_sess,
        home,
        "bob".to_string(),
        Permissions::all(),
    )
    .unwrap();
    respond_to_journal_invite(&mut store, &bob_sess, home, false).unwrap();

    let kinds = invite_event_types();
    let bob = UserState::build(BOB, &kinds, &store);
    assert_eq!(bob.pending_journal_invites.len(), 0);
    assert_eq!(bob.accepted_journal_invites.len(), 0);

    let err = select_journal(&mut store, &bob_sess, home).unwrap_err();
    assert_eq!(
        err,
        KnownErrors::PermissionError { required_permissions: Permissions::from_bits(READ) }
    );
    let err = get_accounts(&store, &bob_sess).unwrap_err();
    assert_eq!(err, KnownErrors::InvalidJournal);
}

#[test]
fn wrong_password_fails_without_appending_a_login() {
    let mut store = EventStore::new();
    let sess = "sess-carol".to_string();
    create_user(
        &mut store,
        &sess,
        "carol".to_string(),
        "right horse battery".to_string(),
        "right horse battery".to_string(),
    )
    .unwrap();
    // signing up logs the session in
    assert!(get_user_id_from_session(&sess, &store).is_ok());
    log_out(&mut store, &sess).unwrap();

    let auth_len_before = store.auth_events.len();
    let err = login(
        &mut store,
        &sess,
        "carol".to_string(),
        "wrong horse battery".to_string(),
    )
    .unwrap_err();
    // the error carries the username and nothing else
    assert_eq!(err, KnownErrors::LoginFailed { username: "carol".to_string() });
    // no login event was appended for the failed attempt
    assert_eq!(store.auth_events.len(), auth_len_before);
    assert_eq!(
        get_user_id_from_session(&sess, &store).unwrap_err(),
        KnownErrors::NotLoggedIn
    );

    // and the right password still works
    login(
        &mut store,
        &sess,
        "carol".to_string(),
        "right horse battery".to_string(),
    )
    .unwrap();
    assert!(get_user_id_from_session(&sess, &store).is_ok());
}
