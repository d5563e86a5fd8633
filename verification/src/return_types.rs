//! Structured results and errors the command layer hands to its callers.
//! Every error carries enough data to re-render the exact failed input.

use vstd::prelude::*;

use crate::journal::{BalanceUpdate, JournalTenantInfo, Permissions};

verus! {

/// The error taxonomy of the command layer.  All variants are surfaced
/// verbatim to the caller as structured values; `Storage`, `Encoding` and
/// `CorruptEvent` are fatal for the request, the rest are recoverable.
#[derive(Clone, Debug, PartialEq)]
pub enum KnownErrors {
    NoError,
    SessionIdNotFound,
    UsernameNotFound { username: String },
    LoginFailed { username: String },
    SignupPasswordMismatch { username: String },
    UserDoesntExist,
    UserExists { username: String },
    AccountExists,
    BalanceMismatch { attempted_transaction: Vec<BalanceUpdate> },
    PermissionError { required_permissions: Permissions },
    InvalidInput,
    NoInvitation,
    NotLoggedIn,
    UserCanAccessJournal,
    InvalidJournal,
    Storage,
    Encoding,
    CorruptEvent,
}

/// One account of a listing: display name and running balance in minor
/// currency units.
#[derive(Clone, Debug, PartialEq)]
pub struct Account {
    pub name: String,
    pub balance: i64,
}

/// Mathematical model of an [`Account`] listing entry.
pub struct AccountEntryView {
    pub name: Seq<char>,
    pub balance: i64,
}

impl View for Account {
    type V = AccountEntryView;

    open spec fn view(&self) -> AccountEntryView {
        AccountEntryView { name: self.name@, balance: self.balance }
    }
}

/// A journal a user is associated with: either owned, or shared through
/// an accepted tenant grant.
#[derive(Clone, Debug, PartialEq)]
pub enum AssociatedJournal {
    Owned { id: u128, name: String },
    Shared { id: u128, name: String, tenant_info: JournalTenantInfo },
}

/// Mathematical model of an [`AssociatedJournal`].
pub enum AssociatedJournalView {
    Owned { id: u128, name: Seq<char> },
    Shared { id: u128, name: Seq<char>, tenant_info: JournalTenantInfo },
}

impl View for AssociatedJournal {
    type V = AssociatedJournalView;

    open spec fn view(&self) -> AssociatedJournalView {
        match self {
            AssociatedJournal::Owned { id, name } => AssociatedJournalView::Owned {
                id: *id,
                name: name@,
            },
            AssociatedJournal::Shared { id, name, tenant_info } => AssociatedJournalView::Shared {
                id: *id,
                name: name@,
                tenant_info: *tenant_info,
            },
        }
    }
}

impl AssociatedJournalView {
    /// The journal id, whichever the relationship.
    pub open spec fn spec_id(self) -> u128 {
        match self {
            AssociatedJournalView::Owned { id, .. } => id,
            AssociatedJournalView::Shared { id, .. } => id,
        }
    }

    /// The journal name, whichever the relationship.
    pub open spec fn spec_name(self) -> Seq<char> {
        match self {
            AssociatedJournalView::Owned { name, .. } => name,
            AssociatedJournalView::Shared { name, .. } => name,
        }
    }

    /// Ownership implies full capability; a tenant holds exactly the
    /// granted bits.
    pub open spec fn spec_has_permission(self, permissions: Permissions) -> bool {
        match self {
            AssociatedJournalView::Owned { .. } => true,
            AssociatedJournalView::Shared { tenant_info, .. } => {
                tenant_info.tenant_permissions.spec_contains(permissions)
            },
        }
    }
}

impl AssociatedJournal {
    pub fn has_permission(&self, permissions: Permissions) -> (r: bool)
        ensures
            r == self@.spec_has_permission(permissions),
    {
        match self {
            AssociatedJournal::Owned { .. } => true,
            AssociatedJournal::Shared { tenant_info, .. } => {
                tenant_info.tenant_permissions.contains(permissions)
            },
        }
    }

    pub fn get_id(&self) -> (r: u128)
        ensures
            r == self@.spec_id(),
    {
        match self {
            AssociatedJournal::Owned { id, .. } => *id,
            AssociatedJournal::Shared { id, .. } => *id,
        }
    }

    pub fn get_name(&self) -> (r: String)
        ensures
            r@ == self@.spec_name(),
    {
        match self {
            AssociatedJournal::Owned { name, .. } => name.clone(),
            AssociatedJournal::Shared { name, .. } => name.clone(),
        }
    }
}

/// Every journal a user is associated with, and which of them is the
/// user's currently selected one, if it is listed.
#[derive(Clone, Debug, PartialEq)]
pub struct Journals {
    pub associated: Vec<AssociatedJournal>,
    pub selected: Option<AssociatedJournal>,
}

/// A pending invitation, decorated with the journal's display name.
#[derive(Clone, Debug, PartialEq)]
pub struct JournalInvite {
    pub id: u128,
    pub name: String,
    pub tenant_info: JournalTenantInfo,
}

/// Mathematical model of a [`JournalInvite`].
pub struct JournalInviteView {
    pub id: u128,
    pub name: Seq<char>,
    pub tenant_info: JournalTenantInfo,
}

impl View for JournalInvite {
    type V = JournalInviteView;

    open spec fn view(&self) -> JournalInviteView {
        JournalInviteView { id: self.id, name: self.name@, tenant_info: self.tenant_info }
    }
}

/// A posted transaction with its author's username resolved.
#[derive(Clone, Debug, PartialEq)]
pub struct TransactionWithUsername {
    pub author: String,
    pub updates: Vec<BalanceUpdate>,
}

/// Mathematical model of a [`TransactionWithUsername`].
pub struct TransactionWithUsernameView {
    pub author: Seq<char>,
    pub updates: Seq<BalanceUpdate>,
}

impl View for TransactionWithUsername {
    type V = TransactionWithUsernameView;

    open spec fn view(&self) -> TransactionWithUsernameView {
        TransactionWithUsernameView { author: self.author@, updates: self.updates@ }
    }
}

/// A resolved transaction together with the logical timestamp the store
/// assigned to its event.
#[derive(Clone, Debug, PartialEq)]
pub struct TransactionWithTimeStamp {
    pub transaction: TransactionWithUsername,
    pub timestamp: u64,
}

/// Mathematical model of a [`TransactionWithTimeStamp`].
pub struct TransactionWithTimeStampView {
    pub transaction: TransactionWithUsernameView,
    pub timestamp: u64,
}

impl View for TransactionWithTimeStamp {
    type V = TransactionWithTimeStampView;

    open spec fn view(&self) -> TransactionWithTimeStampView {
        TransactionWithTimeStampView { transaction: self.transaction@, timestamp: self.timestamp }
    }
}

} // verus!
