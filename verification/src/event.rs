//! Domain events of the shared event table: a tagged union over the
//! per-aggregate event types, with checked downcasts.  A payload stored
//! under the wrong aggregate is a corrupt event, and the fold that meets
//! one aborts.

use vstd::prelude::*;

use crate::account::AccountEvent;
use crate::journal::JournalEvent;
use crate::return_types::KnownErrors;
use crate::user::UserEvent;

verus! {

/// A domain event of any aggregate category.
#[derive(Debug)]
pub enum DomainEvent {
    User(UserEvent),
    Account(AccountEvent),
    Journal(JournalEvent),
}

impl DomainEvent {
    /// Downcast to a user event; any other payload is corrupt here.
    pub fn to_user_event(self) -> (r: Result<UserEvent, KnownErrors>)
        ensures
            self is User <==> (r matches Ok(e) && self == DomainEvent::User(e)),
            !(self is User) ==> (r matches Err(e) && e is CorruptEvent),
    {
        match self {
            DomainEvent::User(s) => Ok(s),
            _ => Err(KnownErrors::CorruptEvent),
        }
    }

    /// Downcast to an account event; any other payload is corrupt here.
    pub fn to_account_event(self) -> (r: Result<AccountEvent, KnownErrors>)
        ensures
            self is Account <==> (r matches Ok(e) && self == DomainEvent::Account(e)),
            !(self is Account) ==> (r matches Err(e) && e is CorruptEvent),
    {
        match self {
            DomainEvent::Account(s) => Ok(s),
            _ => Err(KnownErrors::CorruptEvent),
        }
    }

    /// Downcast to a journal event; any other payload is corrupt here.
    pub fn to_journal_event(self) -> (r: Result<JournalEvent, KnownErrors>)
        ensures
            self is Journal <==> (r matches Ok(e) && self == DomainEvent::Journal(e)),
            !(self is Journal) ==> (r matches Err(e) && e is CorruptEvent),
    {
        match self {
            DomainEvent::Journal(s) => Ok(s),
            _ => Err(KnownErrors::CorruptEvent),
        }
    }
}

/// Aggregate category of a domain event.
#[derive(Clone, Copy, Debug, PartialEq, Eq, Structural)]
pub enum AggregateType {
    User,
    Account,
    Journal,
}

impl AggregateType {
    /// Stable wire value of the category.
    pub open spec fn spec_code(self) -> i16 {
        match self {
            AggregateType::User => 1,
            AggregateType::Account => 2,
            AggregateType::Journal => 3,
        }
    }

    pub fn code(&self) -> (r: i16)
        ensures
            r == self.spec_code(),
    {
        match self {
            AggregateType::User => 1,
            AggregateType::Account => 2,
            AggregateType::Journal => 3,
        }
    }
}

/// Discriminator over every domain event kind, with disjoint ranges per
/// aggregate category.
#[derive(Clone, Copy, Debug, PartialEq, Eq, Structural)]
pub enum EventType {
    UserCreated,
    UsernameUpdated,
    UserPasswordUpdated,
    UserLoggedIn,
    UserLoggedOut,
    UserCreatedJournal,
    UserInvitedToJournal,
    UserAcceptedJournalInvite,
    UserDeclinedJournalInvite,
    UserRemovedFromJournal,
    UserDeleted,
    UserSelectedJournal,
    AccountCreated,
    AccountBalanceUpdated,
    AccountDeleted,
    AccountAddedTenant,
    AccountUpdateTenant,
    AccountRemoveTenant,
    JournalCreated,
    JournalAddedEntry,
    JournalDeleted,
    JournalRenamed,
    JournalCreatedAccount,
    JournalDeletedAccount,
}

impl EventType {
    /// Stable wire value of the discriminator: user kinds below 100,
    /// account kinds from 100, journal kinds from 200.
    pub open spec fn spec_code(self) -> i16 {
        match self {
            EventType::UserCreated => 1,
            EventType::UsernameUpdated => 2,
            EventType::UserPasswordUpdated => 3,
            EventType::UserLoggedIn => 4,
            EventType::UserLoggedOut => 5,
            EventType::UserCreatedJournal => 6,
            EventType::UserInvitedToJournal => 7,
            EventType::UserAcceptedJournalInvite => 8,
            EventType::UserDeclinedJournalInvite => 9,
            EventType::UserRemovedFromJournal => 10,
            EventType::UserDeleted => 11,
            EventType::UserSelectedJournal => 12,
            EventType::AccountCreated => 100,
            EventType::AccountBalanceUpdated => 101,
            EventType::AccountDeleted => 102,
            EventType::AccountAddedTenant => 103,
            EventType::AccountUpdateTenant => 104,
            EventType::AccountRemoveTenant => 105,
            EventType::JournalCreated => 200,
            EventType::JournalAddedEntry => 201,
            EventType::JournalDeleted => 202,
            EventType::JournalRenamed => 203,
            EventType::JournalCreatedAccount => 204,
            EventType::JournalDeletedAccount => 205,
        }
    }

    pub fn code(&self) -> (r: i16)
        ensures
            r == self.spec_code(),
    {
        match self {
            EventType::UserCreated => 1,
            EventType::UsernameUpdated => 2,
            EventType::UserPasswordUpdated => 3,
            EventType::UserLoggedIn => 4,
            EventType::UserLoggedOut => 5,
            EventType::UserCreatedJournal => 6,
            EventType::UserInvitedToJournal => 7,
            EventType::UserAcceptedJournalInvite => 8,
            EventType::UserDeclinedJournalInvite => 9,
            EventType::UserRemovedFromJournal => 10,
            EventType::UserDeleted => 11,
            EventType::UserSelectedJournal => 12,
            EventType::AccountCreated => 100,
            EventType::AccountBalanceUpdated => 101,
            EventType::AccountDeleted => 102,
            EventType::AccountAddedTenant => 103,
            EventType::AccountUpdateTenant => 104,
            EventType::AccountRemoveTenant => 105,
            EventType::JournalCreated => 200,
            EventType::JournalAddedEntry => 201,
            EventType::JournalDeleted => 202,
            EventType::JournalRenamed => 203,
            EventType::JournalCreatedAccount => 204,
            EventType::JournalDeletedAccount => 205,
        }
    }

    /// The discriminator a user event is stored under.
    pub open spec fn spec_from_user_event(user_event: &UserEvent) -> EventType {
        match user_event {
            UserEvent::Created { .. } => EventType::UserCreated,
            UserEvent::UsernameUpdated { .. } => EventType::UsernameUpdated,
            UserEvent::PasswordUpdated { .. } => EventType::UserPasswordUpdated,
            UserEvent::CreatedJournal { .. } => EventType::UserCreatedJournal,
            UserEvent::InvitedToJournal { .. } => EventType::UserInvitedToJournal,
            UserEvent::AcceptedJournalInvite { .. } => EventType::UserAcceptedJournalInvite,
            UserEvent::DeclinedJournalInvite { .. } => EventType::UserDeclinedJournalInvite,
            UserEvent::RemovedFromJournal { .. } => EventType::UserRemovedFromJournal,
            UserEvent::SelectedJournal { .. } => EventType::UserSelectedJournal,
            UserEvent::Deleted => EventType::UserDeleted,
        }
    }

    pub fn from_user_event(user_event: &UserEvent) -> (r: EventType)
        ensures
            r == EventType::spec_from_user_event(user_event),
    {
        match user_event {
            UserEvent::Created { .. } => EventType::UserCreated,
            UserEvent::UsernameUpdated { .. } => EventType::UsernameUpdated,
            UserEvent::PasswordUpdated { .. } => EventType::UserPasswordUpdated,
            UserEvent::CreatedJournal { .. } => EventType::UserCreatedJournal,
            UserEvent::InvitedToJournal { .. } => EventType::UserInvitedToJournal,
            UserEvent::AcceptedJournalInvite { .. } => EventType::UserAcceptedJournalInvite,
            UserEvent::DeclinedJournalInvite { .. } => EventType::UserDeclinedJournalInvite,
            UserEvent::RemovedFromJournal { .. } => EventType::UserRemovedFromJournal,
            UserEvent::SelectedJournal { .. } => EventType::UserSelectedJournal,
            UserEvent::Deleted => EventType::UserDeleted,
        }
    }

    /// The discriminator an account event is stored under.
    pub open spec fn spec_from_account_event(account_event: &AccountEvent) -> EventType {
        match account_event {
            AccountEvent::Created { .. } => EventType::AccountCreated,
            AccountEvent::BalanceUpdated { .. } => EventType::AccountBalanceUpdated,
            AccountEvent::AddedTenant { .. } => EventType::AccountAddedTenant,
            AccountEvent::UpdateTenant { .. } => EventType::AccountUpdateTenant,
            AccountEvent::RemoveTenant { .. } => EventType::AccountRemoveTenant,
            AccountEvent::Deleted => EventType::AccountDeleted,
        }
    }

    pub fn from_account_event(account_event: &AccountEvent) -> (r: EventType)
        ensures
            r == EventType::spec_from_account_event(account_event),
    {
        match account_event {
            AccountEvent::Created { .. } => EventType::AccountCreated,
            AccountEvent::BalanceUpdated { .. } => EventType::AccountBalanceUpdated,
            AccountEvent::AddedTenant { .. } => EventType::AccountAddedTenant,
            AccountEvent::UpdateTenant { .. } => EventType::AccountUpdateTenant,
            AccountEvent::RemoveTenant { .. } => EventType::AccountRemoveTenant,
            AccountEvent::Deleted => EventType::AccountDeleted,
        }
    }

    /// The discriminator a journal event is stored under.
    pub open spec fn spec_from_journal_event(journal_event: &JournalEvent) -> EventType {
        match journal_event {
            JournalEvent::Created { .. } => EventType::JournalCreated,
            JournalEvent::AddedEntry { .. } => EventType::JournalAddedEntry,
            JournalEvent::Renamed { .. } => EventType::JournalRenamed,
            JournalEvent::CreatedAccount { .. } => EventType::JournalCreatedAccount,
            JournalEvent::DeletedAccount { .. } => EventType::JournalDeletedAccount,
            JournalEvent::Deleted => EventType::JournalDeleted,
        }
    }

    pub fn from_journal_event(journal_event: &JournalEvent) -> (r: EventType)
        ensures
            r == EventType::spec_from_journal_event(journal_event),
    {
        match journal_event {
            JournalEvent::Created { .. } => EventType::JournalCreated,
            JournalEvent::AddedEntry { .. } => EventType::JournalAddedEntry,
            JournalEvent::Renamed { .. } => EventType::JournalRenamed,
            JournalEvent::CreatedAccount { .. } => EventType::JournalCreatedAccount,
            JournalEvent::DeletedAccount { .. } => EventType::JournalDeletedAccount,
            JournalEvent::Deleted => EventType::JournalDeleted,
        }
    }
}

} // verus!
