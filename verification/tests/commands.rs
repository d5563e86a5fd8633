//! Unit tests of the command layer: guards, error payloads and listings.

use ledgerbook::auth::AuthEvent;
use ledgerbook::journal::{
    JournalTenantInfo, Permissions, ADD_ACCOUNT, APPEND_TRANSACTION, DELETE, INVITE, READ,
};
use ledgerbook::main_api::{
    add_account, create_journal, create_user, get_accounts, get_associated_journals,
    get_journal_invites, get_transactions, get_user_id_from_session, get_username_from_id,
    invite_to_journal, is_logged_in, respond_to_journal_invite, select_journal, transact,
};
use ledgerbook::return_types::{AssociatedJournal, KnownErrors};
use ledgerbook::store::EventStore;
use ledgerbook::user::UserEvent;

const ALICE: u128 = 1;
const BOB: u128 = 2;
const EVE: u128 = 3;

fn seed_user(store: &mut EventStore, id: u128, username: &str, session: &str) {
    UserEvent::Created {
        username: username.to_string(),
        hashed_password: "seeded-digest".to_string(),
    }
    .push_db(id, store);
    AuthEvent::Login.push_db(id, &session.to_string(), store);
}

fn sess(name: &str) -> String {
    format!("sess-{}", name)
}

fn entry(id: u64, credit: &str, debit: &str) -> (u64, String, String) {
    (id, credit.to_string(), debit.to_string())
}

#[test]
fn signup_rejects_blank_names_and_mismatched_passwords() {
    let mut store = EventStore::new();
    let s = sess("any");
    assert_eq!(
        create_user(&mut store, &s, "  \t ".to_string(), "a".to_string(), "a".to_string())
            .unwrap_err(),
        KnownErrors::InvalidInput
    );
    assert_eq!(
        create_user(&mut store, &s, "dora".to_string(), "a".to_string(), "b".to_string())
            .unwrap_err(),
        KnownErrors::SignupPasswordMismatch { username: "dora".to_string() }
    );
    // neither attempt appended anything
    assert_eq!(store.user_events.len(), 0);
    assert_eq!(store.auth_events.len(), 0);
}

#[test]
fn signup_rejects_a_unicode_whitespace_name() {
    let mut store = EventStore::new();
    let s = sess("any");
    assert_eq!(
        create_user(
            &mut store,
            &s,
            "\u{00A0}\u{2003}\u{3000}".to_string(),
            "pw".to_string(),
            "pw".to_string(),
        )
        .unwrap_err(),
        KnownErrors::InvalidInput
    );
    assert_eq!(store.user_events.len(), 0);
}

#[test]
fn login_over_an_unparseable_stored_digest_is_a_storage_failure() {
    let mut store = EventStore::new();
    // the seeded credential is not a well-formed digest, so verification
    // itself fails rather than merely mismatching
    seed_user(&mut store, ALICE, "alice", "sess-alice");
    assert_eq!(
        ledgerbook::main_api::login(
            &mut store,
            &sess("alice"),
            "alice".to_string(),
            "anything".to_string(),
        )
        .unwrap_err(),
        KnownErrors::Storage
    );
}

#[test]
fn signup_rejects_a_taken_username() {
    let mut store = EventStore::new();
    seed_user(&mut store, ALICE, "alice", "sess-alice");
    let s = sess("new");
    assert_eq!(
        create_user(&mut store, &s, "alice".to_string(), "pw".to_string(), "pw".to_string())
            .unwrap_err(),
        KnownErrors::UserExists { username: "alice".to_string() }
    );
}

#[test]
fn login_of_an_unknown_user_fails() {
    let mut store = EventStore::new();
    assert_eq!(
        ledgerbook::main_api::login(
            &mut store,
            &sess("x"),
            "ghost".to_string(),
            "pw".to_string()
        )
        .unwrap_err(),
        KnownErrors::UserDoesntExist
    );
}

#[test]
fn commands_require_a_logged_in_session() {
    let mut store = EventStore::new();
    let s = sess("nobody");
    assert_eq!(
        create_journal(&mut store, &s, "Home".to_string()).unwrap_err(),
        KnownErrors::NotLoggedIn
    );
    assert_eq!(get_accounts(&store, &s).unwrap_err(), KnownErrors::NotLoggedIn);
    assert_eq!(get_user_id_from_session(&s, &store).unwrap_err(), KnownErrors::NotLoggedIn);
    assert_eq!(is_logged_in(&s, &store).unwrap_err(), KnownErrors::NotLoggedIn);

    seed_user(&mut store, ALICE, "alice", "sess-alice");
    assert!(is_logged_in(&sess("alice"), &store).is_ok());
}

#[test]
fn journal_names_must_not_be_blank() {
    let mut store = EventStore::new();
    let s = sess("alice");
    seed_user(&mut store, ALICE, "alice", &s);
    assert_eq!(
        create_journal(&mut store, &s, "   ".to_string()).unwrap_err(),
        KnownErrors::InvalidInput
    );
}

#[test]
fn responding_without_an_invitation_fails() {
    let mut store = EventStore::new();
    let s = sess("alice");
    seed_user(&mut store, ALICE, "alice", &s);
    assert_eq!(
        respond_to_journal_invite(&mut store, &s, 42, true).unwrap_err(),
        KnownErrors::NoInvitation
    );
}

#[test]
fn inviting_an_unknown_or_already_related_user_fails() {
    let mut store = EventStore::new();
    let alice = sess("alice");
    let bob = sess("bob");
    seed_user(&mut store, ALICE, "alice", &alice);
    seed_user(&mut store, BOB, "bob", &bob);
    create_journal(&mut store, &alice, "Home".to_string()).unwrap();
    let home = get_associated_journals(&store, &alice).unwrap().associated[0].get_id();

    assert_eq!(
        invite_to_journal(&mut store, &alice, home, "ghost".to_string(), Permissions::all())
            .unwrap_err(),
        KnownErrors::UserDoesntExist
    );

    invite_to_journal(&mut store, &alice, home, "bob".to_string(), Permissions::all()).unwrap();
    // bob is now pending, so a second invite is refused
    assert_eq!(
        invite_to_journal(&mut store, &alice, home, "bob".to_string(), Permissions::all())
            .unwrap_err(),
        KnownErrors::UserCanAccessJournal
    );
    // and the owner cannot be invited to their own journal
    assert_eq!(
        invite_to_journal(&mut store, &bob, home, "alice".to_string(), Permissions::all())
            .unwrap_err(),
        KnownErrors::UserCanAccessJournal
    );
}

#[test]
fn delegated_invites_cannot_escalate() {
    let mut store = EventStore::new();
    let alice = sess("alice");
    let bob = sess("bob");
    let eve = sess("eve");
    seed_user(&mut store, ALICE, "alice", &alice);
    seed_user(&mut store, BOB, "bob", &bob);
    seed_user(&mut store, EVE, "eve", &eve);
    create_journal(&mut store, &alice, "Home".to_string()).unwrap();
    let home = get_associated_journals(&store, &alice).unwrap().associated[0].get_id();

    // bob holds read and invite
    invite_to_journal(
        &mut store,
        &alice,
        home,
        "bob".to_string(),
        Permissions::from_bits(READ | INVITE),
    )
    .unwrap();
    respond_to_journal_invite(&mut store, &bob, home, true).unwrap();

    // bob may pass on a subset of his grant
    invite_to_journal(&mut store, &bob, home, "eve".to_string(), Permissions::from_bits(READ))
        .unwrap();
    respond_to_journal_invite(&mut store, &eve, home, false).unwrap();

    // but not bits he does not hold: the first missing one is reported
    assert_eq!(
        invite_to_journal(
            &mut store,
            &bob,
            home,
            "eve".to_string(),
            Permissions::from_bits(READ | DELETE),
        )
        .unwrap_err(),
        KnownErrors::PermissionError { required_permissions: Permissions::from_bits(DELETE) }
    );

    // a tenant without the invite capability cannot delegate at all
    invite_to_journal(
        &mut store,
        &bob,
        home,
        "eve".to_string(),
        Permissions::from_bits(READ),
    )
    .unwrap();
    respond_to_journal_invite(&mut store, &eve, home, true).unwrap();
    seed_user(&mut store, 4, "mallory", "sess-mallory");
    assert_eq!(
        invite_to_journal(
            &mut store,
            &eve,
            home,
            "mallory".to_string(),
            Permissions::from_bits(READ),
        )
        .unwrap_err(),
        KnownErrors::PermissionError { required_permissions: Permissions::from_bits(INVITE) }
    );
}

#[test]
fn an_unrelated_inviter_appends_nothing_and_reports_success() {
    let mut store = EventStore::new();
    let alice = sess("alice");
    let eve = sess("eve");
    seed_user(&mut store, ALICE, "alice", &alice);
    seed_user(&mut store, EVE, "eve", &eve);
    create_journal(&mut store, &alice, "Home".to_string()).unwrap();
    let home = get_associated_journals(&store, &alice).unwrap().associated[0].get_id();
    seed_user(&mut store, BOB, "bob", "sess-bob");

    let before = store.user_events.len();
    assert!(invite_to_journal(
        &mut store,
        &eve,
        home,
        "bob".to_string(),
        Permissions::from_bits(READ),
    )
    .is_ok());
    assert_eq!(store.user_events.len(), before);
}

#[test]
fn pending_invites_are_listed_with_journal_names() {
    let mut store = EventStore::new();
    let alice = sess("alice");
    let bob = sess("bob");
    seed_user(&mut store, ALICE, "alice", &alice);
    seed_user(&mut store, BOB, "bob", &bob);
    create_journal(&mut store, &alice, "Home".to_string()).unwrap();
    let home = get_associated_journals(&store, &alice).unwrap().associated[0].get_id();
    invite_to_journal(&mut store, &alice, home, "bob".to_string(), Permissions::from_bits(READ))
        .unwrap();

    let invites = get_journal_invites(&store, &bob).unwrap();
    assert_eq!(invites.len(), 1);
    assert_eq!(invites[0].id, home);
    assert_eq!(invites[0].name, "Home");
    assert_eq!(invites[0].tenant_info.tenant_permissions, Permissions::from_bits(READ));
    assert_eq!(invites[0].tenant_info.inviting_user, ALICE);
    assert_eq!(invites[0].tenant_info.journal_owner, ALICE);
}

#[test]
fn associated_journals_list_owned_and_shared_with_selection() {
    let mut store = EventStore::new();
    let alice = sess("alice");
    let bob = sess("bob");
    seed_user(&mut store, ALICE, "alice", &alice);
    seed_user(&mut store, BOB, "bob", &bob);
    create_journal(&mut store, &alice, "Home".to_string()).unwrap();
    create_journal(&mut store, &bob, "Shop".to_string()).unwrap();
    let home = get_associated_journals(&store, &alice).unwrap().associated[0].get_id();
    let shop = get_associated_journals(&store, &bob).unwrap().associated[0].get_id();
    invite_to_journal(&mut store, &bob, shop, "alice".to_string(), Permissions::from_bits(READ))
        .unwrap();
    respond_to_journal_invite(&mut store, &alice, shop, true).unwrap();
    select_journal(&mut store, &alice, shop).unwrap();

    let journals = get_associated_journals(&store, &alice).unwrap();
    assert_eq!(journals.associated.len(), 2);
    assert_eq!(
        journals.associated[0],
        AssociatedJournal::Owned { id: home, name: "Home".to_string() }
    );
    match &journals.associated[1] {
        AssociatedJournal::Shared { id, name, tenant_info } => {
            assert_eq!(*id, shop);
            assert_eq!(name, "Shop");
            assert_eq!(tenant_info.journal_owner, BOB);
        },
        other => panic!("expected a shared listing entry, got {:?}", other),
    }
    assert_eq!(journals.selected.as_ref().unwrap().get_id(), shop);
}

#[test]
fn empty_and_zero_only_transactions_are_invalid() {
    let mut store = EventStore::new();
    let alice = sess("alice");
    seed_user(&mut store, ALICE, "alice", &alice);
    create_journal(&mut store, &alice, "Home".to_string()).unwrap();
    let home = get_associated_journals(&store, &alice).unwrap().associated[0].get_id();
    add_account(&mut store, &alice, home, "Cash".to_string()).unwrap();

    assert_eq!(
        transact(&mut store, &alice, home, vec![]).unwrap_err(),
        KnownErrors::InvalidInput
    );
    // a batch whose nets are all zero changes nothing
    assert_eq!(
        transact(&mut store, &alice, home, vec![entry(1, "25", "25"), entry(1, "oops", "")])
            .unwrap_err(),
        KnownErrors::InvalidInput
    );
}

#[test]
fn transacting_needs_the_append_capability() {
    let mut store = EventStore::new();
    let alice = sess("alice");
    let bob = sess("bob");
    seed_user(&mut store, ALICE, "alice", &alice);
    seed_user(&mut store, BOB, "bob", &bob);
    create_journal(&mut store, &alice, "Home".to_string()).unwrap();
    let home = get_associated_journals(&store, &alice).unwrap().associated[0].get_id();

    assert_eq!(
        transact(&mut store, &bob, home, vec![entry(1, "1", "0"), entry(1, "0", "1")])
            .unwrap_err(),
        KnownErrors::PermissionError {
            required_permissions: Permissions::from_bits(APPEND_TRANSACTION)
        }
    );
    // duplicate account names are refused at command time
    add_account(&mut store, &alice, home, "Cash".to_string()).unwrap();
    assert_eq!(
        add_account(&mut store, &alice, home, "Cash".to_string()).unwrap_err(),
        KnownErrors::AccountExists
    );
    assert_eq!(
        add_account(&mut store, &bob, home, "Other".to_string()).unwrap_err(),
        KnownErrors::PermissionError { required_permissions: Permissions::from_bits(ADD_ACCOUNT) }
    );
}

#[test]
fn transactions_are_listed_with_author_and_timestamp() {
    let mut store = EventStore::new();
    let alice = sess("alice");
    seed_user(&mut store, ALICE, "alice", &alice);
    create_journal(&mut store, &alice, "Home".to_string()).unwrap();
    let home = get_associated_journals(&store, &alice).unwrap().associated[0].get_id();
    add_account(&mut store, &alice, home, "Cash".to_string()).unwrap();
    add_account(&mut store, &alice, home, "Misc".to_string()).unwrap();
    select_journal(&mut store, &alice, home).unwrap();
    transact(&mut store, &alice, home, vec![entry(1, "0", "300"), entry(2, "300", "0")]).unwrap();

    let journals = get_associated_journals(&store, &alice);
    let listed = get_transactions(&store, &alice, journals).unwrap();
    assert_eq!(listed.len(), 1);
    assert_eq!(listed[0].transaction.author, "alice");
    assert_eq!(listed[0].transaction.updates.len(), 2);
    assert_eq!(listed[0].transaction.updates[0].account_id, 1);
    assert_eq!(listed[0].transaction.updates[0].changed_by, -300);
    // the transaction event is the fourth record of the journal log
    assert_eq!(listed[0].timestamp, 4);

    // without a selected journal nothing can be listed
    let none = get_transactions(
        &store,
        &alice,
        Ok(ledgerbook::return_types::Journals { associated: vec![], selected: None }),
    );
    assert_eq!(none.unwrap_err(), KnownErrors::InvalidJournal);
}

#[test]
fn usernames_resolve_in_both_directions() {
    let mut store = EventStore::new();
    let alice = sess("alice");
    seed_user(&mut store, ALICE, "alice", &alice);
    assert_eq!(get_username_from_id(ALICE, &store).unwrap(), "alice");
    assert_eq!(
        get_username_from_id(99, &store).unwrap_err(),
        KnownErrors::UserDoesntExist
    );
    assert_eq!(
        ledgerbook::user::get_id_from_username(&"alice".to_string(), &store),
        Some(ALICE)
    );
    assert_eq!(ledgerbook::user::get_id_from_username(&"ghost".to_string(), &store), None);
}

#[test]
fn listing_entries_expose_id_name_and_capability() {
    let owned = AssociatedJournal::Owned { id: 5, name: "Home".to_string() };
    assert_eq!(owned.get_id(), 5);
    assert_eq!(owned.get_name(), "Home");
    assert!(owned.has_permission(Permissions::all()));

    let shared = AssociatedJournal::Shared {
        id: 6,
        name: "Shop".to_string(),
        tenant_info: JournalTenantInfo {
            tenant_permissions: Permissions::from_bits(READ),
            inviting_user: ALICE,
            journal_owner: ALICE,
        },
    };
    assert_eq!(shared.get_id(), 6);
    assert_eq!(shared.get_name(), "Shop");
    assert!(shared.has_permission(Permissions::from_bits(READ)));
    assert!(!shared.has_permission(Permissions::from_bits(INVITE)));
}

#[test]
fn permission_bits_test_by_subset() {
    let all = Permissions::all();
    let read = Permissions::from_bits(READ);
    let none = Permissions::empty();
    assert!(all.contains(read));
    assert!(all.contains(none));
    assert!(read.contains(read));
    assert!(!read.contains(all));
    assert!(!none.contains(read));
    assert!(Permissions::from_bits(READ | INVITE).contains(Permissions::from_bits(INVITE)));
}
