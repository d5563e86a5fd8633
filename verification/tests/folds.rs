//! Unit tests of the pure folds and of the raw event-log queries.

use ledgerbook::account::{AccountEvent, AccountState, Permissions as AccountPermissions};
use ledgerbook::event::{AggregateType, DomainEvent, EventType};
use ledgerbook::auth::AuthEvent;
use ledgerbook::journal::{
    get_name_from_id, BalanceUpdate, JournalEvent, JournalEventType, JournalState, Permissions,
    Transaction, READ,
};
use ledgerbook::libs::{fetch_user_id, fetch_username};
use ledgerbook::return_types::KnownErrors;
use ledgerbook::store::EventStore;
use ledgerbook::user::{UserEvent, UserEventType, UserState};

const USER: u128 = 7;
const JOURNAL: u128 = 9;
const OTHER: u128 = 11;

fn invite(id: u128) -> UserEvent {
    UserEvent::InvitedToJournal {
        id,
        permissions: Permissions::from_bits(READ),
        inviting_user: OTHER,
        owner: OTHER,
    }
}

#[test]
fn accepting_moves_the_pending_grant() {
    let events = vec![invite(JOURNAL), UserEvent::AcceptedJournalInvite { id: JOURNAL }];
    let user = UserState::from_events(USER, &events);
    assert_eq!(user.pending_journal_invites.len(), 0);
    assert_eq!(user.accepted_journal_invites.len(), 1);
    let info = user.accepted_journal_invites.get(JOURNAL).unwrap();
    assert_eq!(info.tenant_permissions, Permissions::from_bits(READ));
    assert_eq!(info.inviting_user, OTHER);
    assert_eq!(info.journal_owner, OTHER);
}

#[test]
fn declining_removes_the_pending_grant() {
    let events = vec![invite(JOURNAL), UserEvent::DeclinedJournalInvite { id: JOURNAL }];
    let user = UserState::from_events(USER, &events);
    assert_eq!(user.pending_journal_invites.len(), 0);
    assert_eq!(user.accepted_journal_invites.len(), 0);
}

#[test]
fn accepting_without_a_pending_invite_is_a_no_op() {
    let events = vec![UserEvent::AcceptedJournalInvite { id: JOURNAL }];
    let user = UserState::from_events(USER, &events);
    assert_eq!(user.pending_journal_invites.len(), 0);
    assert_eq!(user.accepted_journal_invites.len(), 0);
}

#[test]
fn a_repeated_invite_overwrites_the_pending_grant() {
    let second = UserEvent::InvitedToJournal {
        id: JOURNAL,
        permissions: Permissions::all(),
        inviting_user: OTHER,
        owner: OTHER,
    };
    let events = vec![invite(JOURNAL), second];
    let user = UserState::from_events(USER, &events);
    assert_eq!(user.pending_journal_invites.len(), 1);
    let info = user.pending_journal_invites.get(JOURNAL).unwrap();
    assert_eq!(info.tenant_permissions, Permissions::all());
}

#[test]
fn user_scalar_fields_follow_the_latest_event() {
    let events = vec![
        UserEvent::Created { username: "ada".to_string(), hashed_password: "h1".to_string() },
        UserEvent::UsernameUpdated { username: "countess".to_string() },
        UserEvent::PasswordUpdated { hashed_password: "h2".to_string() },
        UserEvent::CreatedJournal { id: JOURNAL },
        UserEvent::SelectedJournal { id: JOURNAL },
        UserEvent::Deleted,
    ];
    let user = UserState::from_events(USER, &events);
    assert_eq!(user.username, "countess");
    assert_eq!(user.hashed_password, "h2");
    assert!(user.owned_journals.contains(JOURNAL));
    assert_eq!(user.selected_journal, JOURNAL);
    assert!(user.deleted);
}

#[test]
fn replaying_the_same_events_twice_gives_the_same_state() {
    let events = vec![
        UserEvent::Created { username: "ada".to_string(), hashed_password: "h".to_string() },
        invite(JOURNAL),
        UserEvent::AcceptedJournalInvite { id: JOURNAL },
        UserEvent::CreatedJournal { id: OTHER },
    ];
    let once = UserState::from_events(USER, &events);
    let twice = UserState::from_events(USER, &events);
    assert_eq!(once.username, twice.username);
    assert_eq!(once.selected_journal, twice.selected_journal);
    assert_eq!(
        once.accepted_journal_invites.entries(),
        twice.accepted_journal_invites.entries()
    );
    assert_eq!(once.owned_journals.elements(), twice.owned_journals.elements());
}

fn tx(author: u128, updates: Vec<BalanceUpdate>) -> JournalEvent {
    JournalEvent::AddedEntry { transaction: Transaction { author, updates } }
}

#[test]
fn journal_fold_applies_balances_in_order() {
    let events = vec![
        JournalEvent::Created { name: "Home".to_string(), owner: USER },
        JournalEvent::CreatedAccount { account_name: "Cash".to_string() },
        JournalEvent::CreatedAccount { account_name: "Groceries".to_string() },
        tx(
            USER,
            vec![
                BalanceUpdate { account_id: 1, changed_by: -500 },
                BalanceUpdate { account_id: 2, changed_by: 500 },
            ],
        ),
        tx(
            USER,
            vec![
                BalanceUpdate { account_id: 1, changed_by: -250 },
                BalanceUpdate { account_id: 2, changed_by: 250 },
            ],
        ),
    ];
    let journal = JournalState::from_events(JOURNAL, &events);
    assert_eq!(journal.name, "Home");
    assert_eq!(journal.owner, USER);
    assert_eq!(journal.accounts.len(), 2);
    assert_eq!(journal.accounts[0].id, 1);
    assert_eq!(journal.accounts[0].name, "Cash");
    assert_eq!(journal.accounts[0].balance, -750);
    assert_eq!(journal.accounts[1].balance, 750);
    assert_eq!(journal.transactions.len(), 2);
}

#[test]
fn updates_to_unknown_accounts_are_silently_skipped() {
    let events = vec![
        JournalEvent::CreatedAccount { account_name: "Cash".to_string() },
        tx(
            USER,
            vec![
                BalanceUpdate { account_id: 1, changed_by: 40 },
                BalanceUpdate { account_id: 99, changed_by: -40 },
            ],
        ),
    ];
    let journal = JournalState::from_events(JOURNAL, &events);
    assert_eq!(journal.accounts.len(), 1);
    assert_eq!(journal.accounts[0].balance, 40);
    assert_eq!(journal.transactions.len(), 1);
}

#[test]
fn deleting_an_account_removes_it_and_renaming_renames() {
    let events = vec![
        JournalEvent::Created { name: "Home".to_string(), owner: USER },
        JournalEvent::Renamed { name: "Hearth".to_string() },
        JournalEvent::CreatedAccount { account_name: "Cash".to_string() },
        JournalEvent::CreatedAccount { account_name: "Misc".to_string() },
        JournalEvent::DeletedAccount { account_id: 1 },
        JournalEvent::Deleted,
    ];
    let journal = JournalState::from_events(JOURNAL, &events);
    assert_eq!(journal.name, "Hearth");
    assert_eq!(journal.accounts.len(), 1);
    assert_eq!(journal.accounts[0].name, "Misc");
    assert_eq!(journal.accounts[0].id, 2);
    assert!(journal.deleted);
}

#[test]
fn fresh_account_ids_are_never_reused() {
    let events = vec![
        JournalEvent::CreatedAccount { account_name: "A".to_string() },
        JournalEvent::DeletedAccount { account_id: 1 },
        JournalEvent::CreatedAccount { account_name: "B".to_string() },
    ];
    let journal = JournalState::from_events(JOURNAL, &events);
    assert_eq!(journal.accounts.len(), 1);
    assert_eq!(journal.accounts[0].id, 2);
    assert_eq!(journal.next_account_id, 3);
}

#[test]
fn account_fold_tracks_tenants_and_balance() {
    let events = vec![
        AccountEvent::Created { owner_id: USER, name: "Vault".to_string() },
        AccountEvent::BalanceUpdated { changed_by: 120 },
        AccountEvent::BalanceUpdated { changed_by: -20 },
        AccountEvent::AddedTenant { shared_user_id: OTHER, permissions: AccountPermissions::Read },
        AccountEvent::UpdateTenant {
            shared_user_id: OTHER,
            permissions: AccountPermissions::ReadWrite,
        },
    ];
    let account = AccountState::from_events(USER, &events);
    assert_eq!(account.name, "Vault");
    assert_eq!(account.balance, 100);
    assert_eq!(account.tenants.len(), 1);
    assert_eq!(account.tenants[0].permissions, AccountPermissions::ReadWrite);

    let gone = AccountState::from_events(
        USER,
        &vec![
            AccountEvent::AddedTenant {
                shared_user_id: OTHER,
                permissions: AccountPermissions::Share,
            },
            AccountEvent::RemoveTenant { shared_user_id: OTHER },
            AccountEvent::Deleted,
        ],
    );
    assert_eq!(gone.tenants.len(), 0);
    assert!(gone.deleted);
}

#[test]
fn event_type_codes_are_stable() {
    assert_eq!(EventType::UserCreated.code(), 1);
    assert_eq!(EventType::AccountCreated.code(), 100);
    assert_eq!(EventType::JournalCreated.code(), 200);
    assert_eq!(AggregateType::Journal.code(), 3);
    assert_eq!(
        EventType::from_user_event(&UserEvent::Deleted).code(),
        EventType::UserDeleted.code()
    );
    assert_eq!(
        EventType::from_account_event(&AccountEvent::Deleted).code(),
        EventType::AccountDeleted.code()
    );
    assert_eq!(
        EventType::from_journal_event(&JournalEvent::Deleted).code(),
        EventType::JournalDeleted.code()
    );
}

#[test]
fn per_stream_discriminator_codes_are_stable() {
    assert_eq!(UserEventType::Created.code(), 1);
    assert_eq!(UserEventType::Deleted.code(), 10);
    assert_eq!(JournalEventType::Created.code(), 1);
    assert_eq!(JournalEventType::AddedEntry.code(), 5);
    assert_eq!(AuthEvent::Login.code(), 1);
    assert_eq!(AuthEvent::Logout.code(), 2);
    assert_eq!(
        UserEvent::Deleted.get_type().code(),
        UserEventType::Deleted.code()
    );
    assert_eq!(
        JournalEvent::Deleted.get_type().code(),
        JournalEventType::Deleted.code()
    );
}

#[test]
fn journal_names_resolve_from_the_store() {
    let mut store = EventStore::new();
    assert_eq!(get_name_from_id(JOURNAL, &store), None);
    JournalEvent::Created { name: "Home".to_string(), owner: USER }.push_db(JOURNAL, &mut store);
    assert_eq!(get_name_from_id(JOURNAL, &store), Some("Home".to_string()));
    JournalEvent::Renamed { name: "Hearth".to_string() }.push_db(JOURNAL, &mut store);
    assert_eq!(get_name_from_id(JOURNAL, &store), Some("Hearth".to_string()));
}

#[test]
fn domain_event_downcasts_check_the_category() {
    let e = DomainEvent::User(UserEvent::Deleted);
    assert!(matches!(e.to_user_event(), Ok(UserEvent::Deleted)));
    let e = DomainEvent::User(UserEvent::Deleted);
    assert_eq!(e.to_journal_event().unwrap_err(), KnownErrors::CorruptEvent);
    let e = DomainEvent::Account(AccountEvent::Deleted);
    assert_eq!(e.to_user_event().unwrap_err(), KnownErrors::CorruptEvent);
}

#[test]
fn username_queries_replay_the_shared_log() {
    let mut store = EventStore::new();
    AccountEvent::Created { owner_id: USER, name: "Vault".to_string() }.push_db(OTHER, &mut store);
    store.append_domain_event(
        USER,
        AggregateType::User,
        EventType::UserCreated,
        DomainEvent::User(UserEvent::Created {
            username: "ada".to_string(),
            hashed_password: "h".to_string(),
        }),
    );
    store.append_domain_event(
        USER,
        AggregateType::User,
        EventType::UsernameUpdated,
        DomainEvent::User(UserEvent::UsernameUpdated { username: "countess".to_string() }),
    );

    assert_eq!(fetch_username(USER, &store).unwrap(), "countess");
    assert_eq!(fetch_user_id("countess".to_string(), &store).unwrap(), USER);
    assert_eq!(
        fetch_user_id("nobody".to_string(), &store).unwrap_err(),
        KnownErrors::UsernameNotFound { username: "nobody".to_string() }
    );
}

#[test]
fn a_mismatched_payload_aborts_the_projection() {
    let mut store = EventStore::new();
    // a journal payload stored under a user discriminator
    store.append_domain_event(
        USER,
        AggregateType::User,
        EventType::UserCreated,
        DomainEvent::Journal(JournalEvent::Deleted),
    );
    assert_eq!(fetch_username(USER, &store).unwrap_err(), KnownErrors::CorruptEvent);
}
