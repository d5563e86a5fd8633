//! Journal aggregate: permission bit-set, events, and the pure fold that
//! rebuilds a journal snapshot (accounts, balances, transaction history)
//! from its event stream.

use vstd::prelude::*;

use crate::store::{journal_kinds_contain, selected_journal_events, EventStore, JournalRecord};

verus! {

/// Capability flag: read accounts and history.
pub const READ: u16 = 1;
/// Capability flag: create new accounts.
pub const ADD_ACCOUNT: u16 = 2;
/// Capability flag: post transactions.
pub const APPEND_TRANSACTION: u16 = 4;
/// Capability flag: invite further tenants.
pub const INVITE: u16 = 8;
/// Capability flag: delete the journal.
pub const DELETE: u16 = 16;
/// Every defined capability flag at once.
pub const ALL_PERMISSION_BITS: u16 = 31;

/// Fixed-width set of capability flags a tenant may hold on a journal.
/// Combinable; tested by subset containment.
#[derive(Clone, Copy, Debug, PartialEq, Eq, Structural)]
pub struct Permissions {
    pub bits: u16,
}

impl Permissions {
    /// `other` is a subset of `self`, as bit-sets.
    pub open spec fn spec_contains(self, other: Permissions) -> bool {
        self.bits & other.bits == other.bits
    }

    pub fn empty() -> (r: Permissions)
        ensures
            r.bits == 0,
    {
        Permissions { bits: 0 }
    }

    pub fn all() -> (r: Permissions)
        ensures
            r.bits == ALL_PERMISSION_BITS,
    {
        Permissions { bits: ALL_PERMISSION_BITS }
    }

    pub fn from_bits(bits: u16) -> (r: Permissions)
        ensures
            r.bits == bits,
    {
        Permissions { bits }
    }

    pub fn contains(&self, other: Permissions) -> (r: bool)
        ensures
            r == self.spec_contains(other),
    {
        self.bits & other.bits == other.bits
    }
}

/// Permission grant plus provenance, attached to one (journal, user)
/// relationship and held inside the invitee's own user aggregate.
#[derive(Clone, Copy, Debug, PartialEq, Eq, Structural)]
pub struct JournalTenantInfo {
    pub tenant_permissions: Permissions,
    pub inviting_user: u128,
    pub journal_owner: u128,
}

/// A journal shared with a user: the journal id and the grant held on it.
#[derive(Clone, Copy, Debug, PartialEq, Eq, Structural)]
pub struct SharedJournal {
    pub id: u128,
    pub info: JournalTenantInfo,
}

/// A user's shared and still-pending journal grants, keyed by journal id.
#[derive(Debug)]
pub struct SharedAndPendingJournals {
    pub shared: crate::grants::GrantMap,
    pub pending: crate::grants::GrantMap,
}

/// One signed balance change of a transaction, in minor currency units.
#[derive(Clone, Copy, Debug, PartialEq, Eq, Structural)]
pub struct BalanceUpdate {
    pub account_id: u64,
    pub changed_by: i64,
}

/// A posted double-entry transaction: its author and the signed balance
/// changes, which sum to zero for every transaction the validator accepts.
#[derive(Debug)]
pub struct Transaction {
    pub author: u128,
    pub updates: Vec<BalanceUpdate>,
}

/// Mathematical model of a [`Transaction`].
pub struct TransactionView {
    pub author: u128,
    pub updates: Seq<BalanceUpdate>,
}

impl View for Transaction {
    type V = TransactionView;

    open spec fn view(&self) -> TransactionView {
        TransactionView { author: self.author, updates: self.updates@ }
    }
}

/// One event of a journal's stream.
#[derive(Debug)]
pub enum JournalEvent {
    Created { name: String, owner: u128 },
    Renamed { name: String },
    CreatedAccount { account_name: String },
    DeletedAccount { account_id: u64 },
    AddedEntry { transaction: Transaction },
    Deleted,
}

/// Mathematical model of a [`JournalEvent`].
pub enum JournalEventView {
    Created { name: Seq<char>, owner: u128 },
    Renamed { name: Seq<char> },
    CreatedAccount { account_name: Seq<char> },
    DeletedAccount { account_id: u64 },
    AddedEntry { transaction: TransactionView },
    Deleted,
}

impl View for JournalEvent {
    type V = JournalEventView;

    open spec fn view(&self) -> JournalEventView {
        match self {
            JournalEvent::Created { name, owner } => JournalEventView::Created {
                name: name@,
                owner: *owner,
            },
            JournalEvent::Renamed { name } => JournalEventView::Renamed { name: name@ },
            JournalEvent::CreatedAccount { account_name } => JournalEventView::CreatedAccount {
                account_name: account_name@,
            },
            JournalEvent::DeletedAccount { account_id } => JournalEventView::DeletedAccount {
                account_id: *account_id,
            },
            JournalEvent::AddedEntry { transaction } => JournalEventView::AddedEntry {
                transaction: transaction@,
            },
            JournalEvent::Deleted => JournalEventView::Deleted,
        }
    }
}

/// The models of a sequence of journal events.
pub open spec fn journal_event_views(s: Seq<JournalEvent>) -> Seq<JournalEventView> {
    s.map_values(|e: JournalEvent| e@)
}

/// Discriminator for [`JournalEvent`], used to filter replays.
#[derive(Clone, Copy, Debug, PartialEq, Eq, Structural)]
pub enum JournalEventType {
    Created,
    Renamed,
    CreatedAccount,
    DeletedAccount,
    AddedEntry,
    Deleted,
}

impl JournalEventType {
    /// Stable wire value of the discriminator.
    pub open spec fn spec_code(self) -> i16 {
        match self {
            JournalEventType::Created => 1,
            JournalEventType::Renamed => 2,
            JournalEventType::CreatedAccount => 3,
            JournalEventType::DeletedAccount => 4,
            JournalEventType::AddedEntry => 5,
            JournalEventType::Deleted => 6,
        }
    }

    pub fn code(&self) -> (r: i16)
        ensures
            r == self.spec_code(),
    {
        match self {
            JournalEventType::Created => 1,
            JournalEventType::Renamed => 2,
            JournalEventType::CreatedAccount => 3,
            JournalEventType::DeletedAccount => 4,
            JournalEventType::AddedEntry => 5,
            JournalEventType::Deleted => 6,
        }
    }
}

impl Transaction {
    /// A copy of the transaction, equal up to its mathematical model.
    pub fn duplicate(&self) -> (r: Transaction)
        ensures
            r@ == self@,
    {
        let r = Transaction { author: self.author, updates: copy_updates(&self.updates) };
        proof {
            assert(r@.updates =~= self@.updates);
        }
        r
    }
}

impl JournalEvent {
    /// A copy of the event, equal up to its mathematical model.
    pub fn duplicate(&self) -> (r: JournalEvent)
        ensures
            r@ == self@,
    {
        match self {
            JournalEvent::Created { name, owner } => JournalEvent::Created {
                name: name.clone(),
                owner: *owner,
            },
            JournalEvent::Renamed { name } => JournalEvent::Renamed { name: name.clone() },
            JournalEvent::CreatedAccount { account_name } => JournalEvent::CreatedAccount {
                account_name: account_name.clone(),
            },
            JournalEvent::DeletedAccount { account_id } => JournalEvent::DeletedAccount {
                account_id: *account_id,
            },
            JournalEvent::AddedEntry { transaction } => JournalEvent::AddedEntry {
                transaction: transaction.duplicate(),
            },
            JournalEvent::Deleted => JournalEvent::Deleted,
        }
    }

    /// Append this event to the journal's stream; returns the record's
    /// sequence id.
    pub fn push_db(&self, uuid: u128, store: &mut EventStore) -> (r: u64)
        ensures
            final(store).journal_events@.len() == old(store).journal_events@.len() + 1,
            final(store).journal_events@.drop_last() == old(store).journal_events@,
            final(store).journal_events@.last().journal_id == uuid,
            final(store).journal_events@.last().event@ == self@,
            final(store).user_events@ == old(store).user_events@,
            final(store).auth_events@ == old(store).auth_events@,
            final(store).domain_events@ == old(store).domain_events@,
            r == old(store).journal_events@.len() + 1,
    {
        let r = store.append_journal_event(uuid, self.duplicate());
        proof {
            assert(store.journal_events@.drop_last() =~= old(store).journal_events@);
        }
        r
    }

    /// The discriminator of this event.
    pub open spec fn spec_kind(&self) -> JournalEventType {
        match self {
            JournalEvent::Created { .. } => JournalEventType::Created,
            JournalEvent::Renamed { .. } => JournalEventType::Renamed,
            JournalEvent::CreatedAccount { .. } => JournalEventType::CreatedAccount,
            JournalEvent::DeletedAccount { .. } => JournalEventType::DeletedAccount,
            JournalEvent::AddedEntry { .. } => JournalEventType::AddedEntry,
            JournalEvent::Deleted => JournalEventType::Deleted,
        }
    }

    pub fn get_type(&self) -> (r: JournalEventType)
        ensures
            r == self.spec_kind(),
    {
        match self {
            JournalEvent::Created { .. } => JournalEventType::Created,
            JournalEvent::Renamed { .. } => JournalEventType::Renamed,
            JournalEvent::CreatedAccount { .. } => JournalEventType::CreatedAccount,
            JournalEvent::DeletedAccount { .. } => JournalEventType::DeletedAccount,
            JournalEvent::AddedEntry { .. } => JournalEventType::AddedEntry,
            JournalEvent::Deleted => JournalEventType::Deleted,
        }
    }
}

/// One ledger account of a journal: a synthetic identifier assigned by the
/// fold, a display name, and a running balance in minor currency units.
#[derive(Debug)]
pub struct AccountRecord {
    pub id: u64,
    pub name: String,
    pub balance: i64,
}

/// Mathematical model of an [`AccountRecord`].
pub struct AccountView {
    pub id: u64,
    pub name: Seq<char>,
    pub balance: i64,
}

/// Model of an account sequence.
pub open spec fn account_views(s: Seq<AccountRecord>) -> Seq<AccountView> {
    s.map_values(|r: AccountRecord| AccountView { id: r.id, name: r.name@, balance: r.balance })
}

/// Index of the first account with identifier `id`, or -1.
pub open spec fn acct_index_of(s: Seq<AccountView>, id: u64) -> int
    decreases s.len(),
{
    if s.len() == 0 {
        -1
    } else if s[0].id == id {
        0
    } else {
        let rest = acct_index_of(s.drop_first(), id);
        if rest < 0 {
            -1
        } else {
            rest + 1
        }
    }
}

/// Some account of `s` has identifier `id`.
pub open spec fn acct_has(s: Seq<AccountView>, id: u64) -> bool {
    acct_index_of(s, id) >= 0
}

/// Some account of `s` carries the display name `name`.
pub open spec fn acct_name_taken(s: Seq<AccountView>, name: Seq<char>) -> bool {
    exists|i: int| 0 <= i < s.len() && s[i].name == name
}

/// Remove the first account with identifier `id`, if any.
pub open spec fn acct_seq_remove(s: Seq<AccountView>, id: u64) -> Seq<AccountView> {
    if acct_has(s, id) {
        s.remove(acct_index_of(s, id))
    } else {
        s
    }
}

/// Two's-complement wrap-around addition on `i64`.
pub open spec fn wrap_add(a: i64, b: i64) -> i64 {
    if a + b > i64::MAX {
        (a + b - 0x1_0000_0000_0000_0000) as i64
    } else if a + b < i64::MIN {
        (a + b + 0x1_0000_0000_0000_0000) as i64
    } else {
        (a + b) as i64
    }
}

/// Apply one signed balance change; an account that is not found is
/// silently skipped.
pub open spec fn apply_update(s: Seq<AccountView>, u: BalanceUpdate) -> Seq<AccountView> {
    if acct_has(s, u.account_id) {
        let i = acct_index_of(s, u.account_id);
        s.update(i, AccountView { balance: wrap_add(s[i].balance, u.changed_by), ..s[i] })
    } else {
        s
    }
}

/// Apply the balance changes of one transaction, in order.
pub open spec fn apply_updates(s: Seq<AccountView>, us: Seq<BalanceUpdate>) -> Seq<AccountView>
    decreases us.len(),
{
    if us.len() == 0 {
        s
    } else {
        apply_update(apply_updates(s, us.drop_last()), us.last())
    }
}

/// `acct_index_of` finds exactly the first account with identifier `id`.
pub proof fn lemma_acct_index_of(s: Seq<AccountView>, id: u64)
    ensures
        acct_index_of(s, id) >= 0 ==> {
            &&& acct_index_of(s, id) < s.len()
            &&& s[acct_index_of(s, id)].id == id
            &&& forall|k: int| 0 <= k < acct_index_of(s, id) ==> s[k].id != id
        },
        acct_index_of(s, id) < 0 ==> acct_index_of(s, id) == -1 && forall|k: int|
            0 <= k < s.len() ==> s[k].id != id,
    decreases s.len(),
{
    if s.len() > 0 && s[0].id != id {
        let rest = s.drop_first();
        lemma_acct_index_of(rest, id);
        let r = acct_index_of(rest, id);
        if r >= 0 {
            assert(s[r + 1] == rest[r]);
            assert forall|k: int| 0 <= k < r + 1 implies s[k].id != id by {
                if k > 0 {
                    assert(rest[k - 1] == s[k]);
                }
            }
        } else {
            assert forall|k: int| 0 <= k < s.len() implies s[k].id != id by {
                if k > 0 {
                    assert(rest[k - 1] == s[k]);
                }
            }
        }
    }
}

/// If `s[i]` is the first account with identifier `id`, then
/// `acct_index_of` is `i`.
pub proof fn lemma_acct_index_first(s: Seq<AccountView>, id: u64, i: int)
    requires
        0 <= i < s.len(),
        s[i].id == id,
        forall|k: int| 0 <= k < i ==> s[k].id != id,
    ensures
        acct_index_of(s, id) == i,
    decreases s.len(),
{
    if i > 0 {
        let rest = s.drop_first();
        assert(rest[i - 1] == s[i]);
        assert forall|k: int| 0 <= k < i - 1 implies rest[k].id != id by {
            assert(rest[k] == s[k + 1]);
        }
        lemma_acct_index_first(rest, id, i - 1);
    }
}

/// Mathematical model of a projected journal state.
pub struct JournalView {
    pub id: u128,
    pub name: Seq<char>,
    pub owner: u128,
    pub accounts: Seq<AccountView>,
    pub next_account_id: u64,
    pub transactions: Seq<TransactionView>,
    pub deleted: bool,
}

/// The state every journal stream starts from.
pub open spec fn init_journal(id: u128) -> JournalView {
    JournalView {
        id,
        name: Seq::empty(),
        owner: 0,
        accounts: Seq::empty(),
        next_account_id: 1,
        transactions: Seq::empty(),
        deleted: false,
    }
}

/// One step of the journal fold.  `CreatedAccount` assigns the next
/// synthetic identifier, so the fold stays a pure function of the event
/// sequence; name collisions are a command-time concern, not a fold-time
/// one.  In the unreachable case that the identifier space is exhausted
/// the event is skipped.
pub open spec fn journal_apply(s: JournalView, e: JournalEventView) -> JournalView {
    match e {
        JournalEventView::Created { name, owner } => JournalView { name, owner, ..s },
        JournalEventView::Renamed { name } => JournalView { name, ..s },
        JournalEventView::CreatedAccount { account_name } => {
            if s.next_account_id == u64::MAX {
                s
            } else {
                JournalView {
                    accounts: s.accounts.push(
                        AccountView { id: s.next_account_id, name: account_name, balance: 0 },
                    ),
                    next_account_id: (s.next_account_id + 1) as u64,
                    ..s
                }
            }
        },
        JournalEventView::DeletedAccount { account_id } => JournalView {
            accounts: acct_seq_remove(s.accounts, account_id),
            ..s
        },
        JournalEventView::AddedEntry { transaction } => JournalView {
            accounts: apply_updates(s.accounts, transaction.updates),
            transactions: s.transactions.push(transaction),
            ..s
        },
        JournalEventView::Deleted => JournalView { deleted: true, ..s },
    }
}

/// Fold an ordered journal event sequence from the initial state.
pub open spec fn journal_fold(id: u128, events: Seq<JournalEventView>) -> JournalView
    decreases events.len(),
{
    if events.len() == 0 {
        init_journal(id)
    } else {
        journal_apply(journal_fold(id, events.drop_last()), events.last())
    }
}

/// Projected snapshot of one journal, derived from its event stream and
/// disposable: the stream is the source of truth.
#[derive(Debug)]
pub struct JournalState {
    pub id: u128,
    pub name: String,
    pub owner: u128,
    pub accounts: Vec<AccountRecord>,
    pub next_account_id: u64,
    pub transactions: Vec<Transaction>,
    pub deleted: bool,
}

impl View for JournalState {
    type V = JournalView;

    open spec fn view(&self) -> JournalView {
        JournalView {
            id: self.id,
            name: self.name@,
            owner: self.owner,
            accounts: account_views(self.accounts@),
            next_account_id: self.next_account_id,
            transactions: self.transactions@.map_values(|t: Transaction| t@),
            deleted: self.deleted,
        }
    }
}

impl JournalState {
    /// Account identifiers are pairwise distinct and below the next fresh
    /// identifier.
    pub open spec fn wf_accounts(accounts: Seq<AccountView>, next: u64) -> bool {
        &&& forall|i: int, k: int| 0 <= i < k < accounts.len() ==> accounts[i].id != accounts[k].id
        &&& forall|i: int| 0 <= i < accounts.len() ==> accounts[i].id < next
    }

    pub open spec fn wf(&self) -> bool {
        Self::wf_accounts(self@.accounts, self@.next_account_id)
    }

    /// Fresh state for `id`, before any event is applied.
    pub fn new(id: u128) -> (r: JournalState)
        ensures
            r.wf(),
            r@ == init_journal(id),
    {
        let r = JournalState {
            id,
            name: String::new(),
            owner: 0,
            accounts: Vec::new(),
            next_account_id: 1,
            transactions: Vec::new(),
            deleted: false,
        };
        proof {
            assert(r@.accounts =~= init_journal(id).accounts);
            assert(r@.transactions =~= init_journal(id).transactions);
            assert(r@ =~= init_journal(id));
        }
        r
    }

    /// Position of the account with identifier `id`, if any.
    fn find_account(accounts: &Vec<AccountRecord>, id: u64) -> (r: Option<usize>)
        ensures
            r matches Some(i) ==> acct_index_of(account_views(accounts@), id) == i as int,
            r is None ==> acct_index_of(account_views(accounts@), id) == -1,
    {
        let n = accounts.len();
        let mut i: usize = 0;
        while i < n
            invariant
                n == accounts@.len(),
                i <= n,
                forall|k: int| 0 <= k < i ==> account_views(accounts@)[k].id != id,
            decreases n - i,
        {
            if accounts[i].id == id {
                proof {
                    lemma_acct_index_first(account_views(accounts@), id, i as int);
                }
                return Some(i);
            }
            i += 1;
        }
        proof {
            lemma_acct_index_of(account_views(accounts@), id);
        }
        None
    }

    /// Apply one event to the snapshot.
    pub fn apply(&mut self, event: &JournalEvent)
        requires
            old(self).wf(),
        ensures
            final(self).wf(),
            final(self)@ == journal_apply(old(self)@, event@),
    {
        match event {
            JournalEvent::Created { name, owner } => {
                self.name = name.clone();
                self.owner = *owner;
            },
            JournalEvent::Renamed { name } => {
                self.name = name.clone();
            },
            JournalEvent::CreatedAccount { account_name } => {
                if self.next_account_id != u64::MAX {
                    self.accounts.push(
                        AccountRecord {
                            id: self.next_account_id,
                            name: account_name.clone(),
                            balance: 0,
                        },
                    );
                    self.next_account_id = self.next_account_id + 1;
                }
            },
            JournalEvent::DeletedAccount { account_id } => {
                match Self::find_account(&self.accounts, *account_id) {
                    Some(i) => {
                        proof {
                            lemma_acct_index_of(account_views(self.accounts@), *account_id);
                        }
                        self.accounts.remove(i);
                    },
                    None => {},
                }
            },
            JournalEvent::AddedEntry { transaction } => {
                self.apply_transaction_updates(&transaction.updates);
                let copied = copy_updates(&transaction.updates);
                self.transactions.push(Transaction { author: transaction.author, updates: copied });
            },
            JournalEvent::Deleted => {
                self.deleted = true;
            },
        }
        proof {
            assert(self@.accounts =~= journal_apply(old(self)@, event@).accounts);
            assert(self@.transactions =~= journal_apply(old(self)@, event@).transactions);
            assert(self@ =~= journal_apply(old(self)@, event@));
        }
    }

    /// Apply each balance change of a transaction in order, skipping
    /// references to accounts that do not exist.
    fn apply_transaction_updates(&mut self, updates: &Vec<BalanceUpdate>)
        requires
            old(self).wf(),
        ensures
            final(self).wf(),
            final(self)@ == (JournalView {
                accounts: apply_updates(old(self)@.accounts, updates@),
                ..old(self)@
            }),
    {
        let n = updates.len();
        let mut k: usize = 0;
        while k < n
            invariant
                n == updates@.len(),
                k <= n,
                self.wf(),
                self@ == (JournalView {
                    accounts: apply_updates(old(self)@.accounts, updates@.take(k as int)),
                    ..old(self)@
                }),
            decreases n - k,
        {
            let u = updates[k];
            match Self::find_account(&self.accounts, u.account_id) {
                Some(i) => {
                    proof {
                        lemma_acct_index_of(account_views(self.accounts@), u.account_id);
                    }
                    let b = self.accounts[i].balance;
                    self.accounts[i].balance = b.wrapping_add(u.changed_by);
                },
                None => {},
            }
            proof {
                assert(updates@.take(k + 1 as int).drop_last() =~= updates@.take(k as int));
                assert(updates@.take(k + 1 as int).last() == updates@[k as int]);
                assert(self@.accounts =~= apply_updates(
                    old(self)@.accounts,
                    updates@.take(k + 1 as int),
                ));
            }
            k += 1;
        }
        proof {
            assert(updates@.take(n as int) =~= updates@);
            assert(self@ =~= (JournalView {
                accounts: apply_updates(old(self)@.accounts, updates@),
                ..old(self)@
            }));
        }
    }

    /// Rebuild a journal snapshot by folding an ordered event sequence.
    /// Folding is pure: the result is a function of `id` and the events
    /// alone, so replaying the same sequence twice yields the same state.
    pub fn from_events(id: u128, events: &Vec<JournalEvent>) -> (r: JournalState)
        ensures
            r.wf(),
            r@ == journal_fold(id, journal_event_views(events@)),
    {
        let mut state = JournalState::new(id);
        let n = events.len();
        let mut i: usize = 0;
        while i < n
            invariant
                n == events@.len(),
                i <= n,
                state.wf(),
                state@ == journal_fold(id, journal_event_views(events@.take(i as int))),
            decreases n - i,
        {
            state.apply(&events[i]);
            proof {
                assert(journal_event_views(events@.take(i + 1 as int)).drop_last()
                    =~= journal_event_views(events@.take(i as int)));
                assert(journal_event_views(events@.take(i + 1 as int)).last() == events@[
                    i as int
                ]@);
            }
            i += 1;
        }
        proof {
            assert(events@.take(n as int) =~= events@);
        }
        state
    }
}

impl JournalState {
    /// Rebuild a snapshot from the store, replaying the events of `id`
    /// whose kind is in `event_types`, in log order.
    pub fn build(id: u128, event_types: &Vec<JournalEventType>, store: &EventStore) -> (r:
        JournalState)
        ensures
            r.wf(),
            r@ == journal_fold(
                id,
                selected_journal_events(store.journal_events@, id, event_types@),
            ),
    {
        let mut state = JournalState::new(id);
        let n = store.journal_events.len();
        let mut i: usize = 0;
        while i < n
            invariant
                n == store.journal_events@.len(),
                i <= n,
                state.wf(),
                state@ == journal_fold(
                    id,
                    selected_journal_events(
                        store.journal_events@.take(i as int),
                        id,
                        event_types@,
                    ),
                ),
            decreases n - i,
        {
            let rec = &store.journal_events[i];
            let matched = rec.journal_id == id && journal_kinds_contain(
                event_types,
                rec.event.get_type(),
            );
            if matched {
                state.apply(&rec.event);
            }
            proof {
                let log = store.journal_events@;
                assert(log.take(i + 1 as int).drop_last() =~= log.take(i as int));
                assert(log.take(i + 1 as int).last() == log[i as int]);
                if matched {
                    let sel = selected_journal_events(log.take(i as int), id, event_types@);
                    assert(selected_journal_events(log.take(i + 1 as int), id, event_types@)
                        == sel.push(log[i as int].event@));
                    assert(sel.push(log[i as int].event@).drop_last() =~= sel);
                }
            }
            i += 1;
        }
        proof {
            assert(store.journal_events@.take(n as int) =~= store.journal_events@);
        }
        state
    }
}

/// Resolve a journal id to its current display name, or nothing if its
/// stream never named it.
pub fn get_name_from_id(id: u128, store: &EventStore) -> (r: Option<String>)
    ensures
        ({
            let name = journal_fold(
                id,
                selected_journal_events(
                    store.journal_events@,
                    id,
                    seq![JournalEventType::Created, JournalEventType::Renamed],
                ),
            ).name;
            if name.len() == 0 {
                r is None
            } else {
                r matches Some(s) && s@ == name
            }
        }),
{
    let mut kinds: Vec<JournalEventType> = Vec::new();
    kinds.push(JournalEventType::Created);
    kinds.push(JournalEventType::Renamed);
    proof {
        assert(kinds@ =~= seq![JournalEventType::Created, JournalEventType::Renamed]);
    }
    let journal_state = JournalState::build(id, &kinds, store);
    if journal_state.name.as_str().unicode_len() == 0 {
        return None;
    }
    Some(journal_state.name)
}

/// Element-wise copy of a balance-update list.
pub fn copy_updates(src: &Vec<BalanceUpdate>) -> (r: Vec<BalanceUpdate>)
    ensures
        r@ == src@,
{
    let n = src.len();
    let mut r: Vec<BalanceUpdate> = Vec::new();
    let mut i: usize = 0;
    while i < n
        invariant
            n == src@.len(),
            i <= n,
            r@ == src@.take(i as int),
        decreases n - i,
    {
        r.push(src[i]);
        proof {
            assert(src@.take(i + 1 as int) =~= src@.take(i as int).push(src@[i as int]));
        }
        i += 1;
    }
    proof {
        assert(src@.take(n as int) =~= src@);
    }
    r
}

} // verus!
