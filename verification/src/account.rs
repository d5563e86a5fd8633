//! Account aggregate of the older, coarse-grained sharing model: one
//! balance per aggregate and per-user permission levels.  Kept alongside
//! the journal-scoped model; its snapshot is rebuilt by the same pure-fold
//! discipline.

use vstd::prelude::*;

use crate::event::{AggregateType, DomainEvent, EventType};
use crate::store::{DomainRecord, EventStore};

verus! {

/// Coarse per-user permission level on a shared account.
#[derive(Clone, Copy, Debug, PartialEq, Eq, Structural, Hash)]
pub enum Permissions {
    Read,
    ReadWrite,
    Share,
}

/// One event of an account's stream.
#[derive(Debug)]
pub enum AccountEvent {
    Created { owner_id: u128, name: String },
    AddedTenant { shared_user_id: u128, permissions: Permissions },
    UpdateTenant { shared_user_id: u128, permissions: Permissions },
    RemoveTenant { shared_user_id: u128 },
    BalanceUpdated { changed_by: i64 },
    Deleted,
}

impl AccountEvent {
    /// An exact copy of the event.
    pub fn duplicate(&self) -> (r: AccountEvent)
        ensures
            r == *self,
    {
        match self {
            AccountEvent::Created { owner_id, name } => AccountEvent::Created {
                owner_id: *owner_id,
                name: name.clone(),
            },
            AccountEvent::AddedTenant { shared_user_id, permissions } => AccountEvent::AddedTenant {
                shared_user_id: *shared_user_id,
                permissions: *permissions,
            },
            AccountEvent::UpdateTenant { shared_user_id, permissions } => {
                AccountEvent::UpdateTenant {
                    shared_user_id: *shared_user_id,
                    permissions: *permissions,
                }
            },
            AccountEvent::RemoveTenant { shared_user_id } => AccountEvent::RemoveTenant {
                shared_user_id: *shared_user_id,
            },
            AccountEvent::BalanceUpdated { changed_by } => AccountEvent::BalanceUpdated {
                changed_by: *changed_by,
            },
            AccountEvent::Deleted => AccountEvent::Deleted,
        }
    }

    /// Append this event to the shared domain log, under the account
    /// aggregate category; returns the record's sequence id.
    pub fn push_db(&self, uuid: u128, store: &mut EventStore) -> (r: u64)
        ensures
            final(store).domain_events@ == old(store).domain_events@.push(
                DomainRecord {
                    aggregate_id: uuid,
                    aggregate_type: AggregateType::Account,
                    event_type: EventType::spec_from_account_event(self),
                    event: DomainEvent::Account(*self),
                },
            ),
            final(store).user_events@ == old(store).user_events@,
            final(store).journal_events@ == old(store).journal_events@,
            final(store).auth_events@ == old(store).auth_events@,
            r == old(store).domain_events@.len() + 1,
    {
        store.append_domain_event(
            uuid,
            AggregateType::Account,
            EventType::from_account_event(self),
            DomainEvent::Account(self.duplicate()),
        )
    }
}

/// One (user id, permission level) entry of a tenant list.
#[derive(Clone, Copy, Debug, PartialEq, Eq, Structural)]
pub struct TenantEntry {
    pub user: u128,
    pub permissions: Permissions,
}

/// Index of the first tenant entry for `user`, or -1.
pub open spec fn tenant_index_of(s: Seq<TenantEntry>, user: u128) -> int
    decreases s.len(),
{
    if s.len() == 0 {
        -1
    } else if s[0].user == user {
        0
    } else {
        let rest = tenant_index_of(s.drop_first(), user);
        if rest < 0 {
            -1
        } else {
            rest + 1
        }
    }
}

/// Some tenant entry of `s` is keyed by `user`.
pub open spec fn tenant_has(s: Seq<TenantEntry>, user: u128) -> bool {
    tenant_index_of(s, user) >= 0
}

/// Map-style insert: overwrite in place if present, else append.
pub open spec fn tenant_seq_insert(s: Seq<TenantEntry>, user: u128, permissions: Permissions) -> Seq<
    TenantEntry,
> {
    if tenant_has(s, user) {
        s.update(tenant_index_of(s, user), TenantEntry { user, permissions })
    } else {
        s.push(TenantEntry { user, permissions })
    }
}

/// Overwrite in place only if present.
pub open spec fn tenant_seq_update(s: Seq<TenantEntry>, user: u128, permissions: Permissions) -> Seq<
    TenantEntry,
> {
    if tenant_has(s, user) {
        s.update(tenant_index_of(s, user), TenantEntry { user, permissions })
    } else {
        s
    }
}

/// Drop the first entry for `user`, if any.
pub open spec fn tenant_seq_remove(s: Seq<TenantEntry>, user: u128) -> Seq<TenantEntry> {
    if tenant_has(s, user) {
        s.remove(tenant_index_of(s, user))
    } else {
        s
    }
}

/// `tenant_index_of` finds exactly the first entry keyed by `user`.
pub proof fn lemma_tenant_index_of(s: Seq<TenantEntry>, user: u128)
    ensures
        tenant_index_of(s, user) >= 0 ==> {
            &&& tenant_index_of(s, user) < s.len()
            &&& s[tenant_index_of(s, user)].user == user
            &&& forall|k: int| 0 <= k < tenant_index_of(s, user) ==> s[k].user != user
        },
        tenant_index_of(s, user) < 0 ==> tenant_index_of(s, user) == -1 && forall|k: int|
            0 <= k < s.len() ==> s[k].user != user,
    decreases s.len(),
{
    if s.len() > 0 && s[0].user != user {
        let rest = s.drop_first();
        lemma_tenant_index_of(rest, user);
        let r = tenant_index_of(rest, user);
        if r >= 0 {
            assert(s[r + 1] == rest[r]);
            assert forall|k: int| 0 <= k < r + 1 implies s[k].user != user by {
                if k > 0 {
                    assert(rest[k - 1] == s[k]);
                }
            }
        } else {
            assert forall|k: int| 0 <= k < s.len() implies s[k].user != user by {
                if k > 0 {
                    assert(rest[k - 1] == s[k]);
                }
            }
        }
    }
}

/// If `s[i]` is the first entry keyed by `user`, then `tenant_index_of`
/// is `i`.
pub proof fn lemma_tenant_index_first(s: Seq<TenantEntry>, user: u128, i: int)
    requires
        0 <= i < s.len(),
        s[i].user == user,
        forall|k: int| 0 <= k < i ==> s[k].user != user,
    ensures
        tenant_index_of(s, user) == i,
    decreases s.len(),
{
    if i > 0 {
        let rest = s.drop_first();
        assert(rest[i - 1] == s[i]);
        assert forall|k: int| 0 <= k < i - 1 implies rest[k].user != user by {
            assert(rest[k] == s[k + 1]);
        }
        lemma_tenant_index_first(rest, user, i - 1);
    }
}

/// Mathematical model of a projected account state.
pub struct AccountStateView {
    pub id: u128,
    pub balance: i64,
    pub tenants: Seq<TenantEntry>,
    pub name: Seq<char>,
    pub owner_id: u128,
    pub deleted: bool,
}

/// The state every account stream starts from.
pub open spec fn init_account(id: u128) -> AccountStateView {
    AccountStateView {
        id,
        balance: 0,
        tenants: Seq::empty(),
        name: Seq::empty(),
        owner_id: 0,
        deleted: false,
    }
}

/// One step of the account fold.
pub open spec fn account_apply(s: AccountStateView, e: AccountEvent) -> AccountStateView {
    match e {
        AccountEvent::Created { owner_id, name } => AccountStateView {
            owner_id,
            name: name@,
            balance: 0,
            ..s
        },
        AccountEvent::BalanceUpdated { changed_by } => AccountStateView {
            balance: crate::journal::wrap_add(s.balance, changed_by),
            ..s
        },
        AccountEvent::AddedTenant { shared_user_id, permissions } => AccountStateView {
            tenants: tenant_seq_insert(s.tenants, shared_user_id, permissions),
            ..s
        },
        AccountEvent::RemoveTenant { shared_user_id } => AccountStateView {
            tenants: tenant_seq_remove(s.tenants, shared_user_id),
            ..s
        },
        AccountEvent::UpdateTenant { shared_user_id, permissions } => AccountStateView {
            tenants: tenant_seq_update(s.tenants, shared_user_id, permissions),
            ..s
        },
        AccountEvent::Deleted => AccountStateView { deleted: true, ..s },
    }
}

/// Fold an ordered account event sequence from the initial state.
pub open spec fn account_fold(id: u128, events: Seq<AccountEvent>) -> AccountStateView
    decreases events.len(),
{
    if events.len() == 0 {
        init_account(id)
    } else {
        account_apply(account_fold(id, events.drop_last()), events.last())
    }
}

/// Projected snapshot of one account.
#[derive(Debug)]
pub struct AccountState {
    pub id: u128,
    pub balance: i64,
    pub tenants: Vec<TenantEntry>,
    pub name: String,
    pub owner_id: u128,
    pub deleted: bool,
}

impl View for AccountState {
    type V = AccountStateView;

    open spec fn view(&self) -> AccountStateView {
        AccountStateView {
            id: self.id,
            balance: self.balance,
            tenants: self.tenants@,
            name: self.name@,
            owner_id: self.owner_id,
            deleted: self.deleted,
        }
    }
}

impl AccountState {
    /// Tenant entries are keyed by pairwise distinct user ids.
    pub open spec fn wf(&self) -> bool {
        forall|i: int, k: int| 0 <= i < k < self@.tenants.len() ==> self@.tenants[i].user
            != self@.tenants[k].user
    }

    /// Fresh state for `id`, before any event is applied.
    pub fn new(id: u128) -> (r: AccountState)
        ensures
            r.wf(),
            r@ == init_account(id),
    {
        let r = AccountState {
            id,
            balance: 0,
            tenants: Vec::new(),
            name: String::new(),
            owner_id: 0,
            deleted: false,
        };
        proof {
            assert(r@ =~= init_account(id));
        }
        r
    }

    /// Position of the tenant entry for `user`, if any.
    fn find_tenant(tenants: &Vec<TenantEntry>, user: u128) -> (r: Option<usize>)
        ensures
            r matches Some(i) ==> tenant_index_of(tenants@, user) == i as int,
            r is None ==> tenant_index_of(tenants@, user) == -1,
    {
        let n = tenants.len();
        let mut i: usize = 0;
        while i < n
            invariant
                n == tenants@.len(),
                i <= n,
                forall|k: int| 0 <= k < i ==> tenants@[k].user != user,
            decreases n - i,
        {
            if tenants[i].user == user {
                proof {
                    lemma_tenant_index_first(tenants@, user, i as int);
                }
                return Some(i);
            }
            i += 1;
        }
        proof {
            lemma_tenant_index_of(tenants@, user);
        }
        None
    }

    /// Apply one event to the snapshot.
    pub fn apply(&mut self, event: &AccountEvent)
        requires
            old(self).wf(),
        ensures
            final(self).wf(),
            final(self)@ == account_apply(old(self)@, *event),
    {
        match event {
            AccountEvent::Created { owner_id, name } => {
                self.owner_id = *owner_id;
                self.name = name.clone();
                self.balance = 0;
            },
            AccountEvent::BalanceUpdated { changed_by } => {
                self.balance = self.balance.wrapping_add(*changed_by);
            },
            AccountEvent::AddedTenant { shared_user_id, permissions } => {
                let entry = TenantEntry { user: *shared_user_id, permissions: *permissions };
                match Self::find_tenant(&self.tenants, *shared_user_id) {
                    Some(i) => {
                        proof {
                            lemma_tenant_index_of(self.tenants@, *shared_user_id);
                        }
                        self.tenants[i] = entry;
                    },
                    None => {
                        proof {
                            lemma_tenant_index_of(self.tenants@, *shared_user_id);
                        }
                        self.tenants.push(entry);
                    },
                }
            },
            AccountEvent::RemoveTenant { shared_user_id } => {
                match Self::find_tenant(&self.tenants, *shared_user_id) {
                    Some(i) => {
                        proof {
                            lemma_tenant_index_of(self.tenants@, *shared_user_id);
                        }
                        self.tenants.remove(i);
                    },
                    None => {},
                }
            },
            AccountEvent::UpdateTenant { shared_user_id, permissions } => {
                match Self::find_tenant(&self.tenants, *shared_user_id) {
                    Some(i) => {
                        proof {
                            lemma_tenant_index_of(self.tenants@, *shared_user_id);
                        }
                        self.tenants[i] = TenantEntry {
                            user: *shared_user_id,
                            permissions: *permissions,
                        };
                    },
                    None => {},
                }
            },
            AccountEvent::Deleted => {
                self.deleted = true;
            },
        }
        proof {
            assert(self@ =~= account_apply(old(self)@, *event));
        }
    }

    /// Rebuild an account snapshot by folding an ordered event sequence.
    pub fn from_events(id: u128, events: &Vec<AccountEvent>) -> (r: AccountState)
        ensures
            r.wf(),
            r@ == account_fold(id, events@),
    {
        let mut state = AccountState::new(id);
        let n = events.len();
        let mut i: usize = 0;
        while i < n
            invariant
                n == events@.len(),
                i <= n,
                state.wf(),
                state@ == account_fold(id, events@.take(i as int)),
            decreases n - i,
        {
            state.apply(&events[i]);
            proof {
                assert(events@.take(i + 1 as int).drop_last() =~= events@.take(i as int));
                assert(events@.take(i + 1 as int).last() == events@[i as int]);
            }
            i += 1;
        }
        proof {
            assert(events@.take(n as int) =~= events@);
        }
        state
    }
}

} // verus!
