//! System-wide guarantees of the domain model, stated and proved over the
//! pure folds: determinism of replay, conservation of balances, and
//! exclusivity of the invitation lifecycle.

use vstd::prelude::*;

use crate::grants::{
    grant_get, grant_has, grant_keys_distinct, lemma_grant_insert_has, lemma_grant_insert_wf,
    lemma_grant_remove_has, lemma_grant_remove_wf, GrantEntry,
};
use crate::journal::{
    acct_has, acct_index_of, apply_update, apply_updates, journal_apply, journal_fold,
    lemma_acct_index_of, wrap_add, AccountView, BalanceUpdate, JournalEventView, JournalView,
    JournalTenantInfo,
};
use crate::main_api::{has_relationship, relation_kinds, relation_state, updates_total};
use crate::store::{selected_user_events, UserRecord};
use crate::user::{user_fold, UserEvent};

verus! {

/// Replaying the same ordered user event sequence twice yields the same
/// projected state: the fold is a pure function of its input, with no
/// hidden dependence on time, randomness or iteration order.
pub proof fn lemma_user_fold_deterministic(uid: u128, first: Seq<UserEvent>, second: Seq<
    UserEvent,
>)
    requires
        first == second,
    ensures
        user_fold(uid, first) == user_fold(uid, second),
{
}

/// Replaying the same ordered journal event sequence twice yields the
/// same projected state.
pub proof fn lemma_journal_fold_deterministic(jid: u128, first: Seq<JournalEventView>, second: Seq<
    JournalEventView,
>)
    requires
        first == second,
    ensures
        journal_fold(jid, first) == journal_fold(jid, second),
{
}

/// The invitation event at position `i` was guarded: when it was
/// appended, the candidate had no owned, pending or accepted relationship
/// to the journal, exactly the check the invite command performs against
/// its projection.
pub open spec fn guarded_invite(events: Seq<UserEvent>, uid: u128, i: int) -> bool {
    match events[i] {
        UserEvent::InvitedToJournal { id: j, .. } => !has_relationship(
            user_fold(uid, events.take(i)),
            j,
        ),
        _ => true,
    }
}

/// Every invitation event of the stream was guarded.
pub open spec fn invites_guarded(events: Seq<UserEvent>, uid: u128) -> bool {
    forall|i: int| 0 <= i < events.len() ==> guarded_invite(events, uid, i)
}

/// Invitation lifecycle exclusivity: over a stream whose invitations were
/// all guarded, no journal id is ever simultaneously pending and
/// accepted for the user; and the grant tables keep distinct keys.
pub proof fn lemma_invite_exclusivity(uid: u128, events: Seq<UserEvent>)
    requires
        invites_guarded(events, uid),
    ensures
        grant_keys_distinct(user_fold(uid, events).pending_journal_invites),
        grant_keys_distinct(user_fold(uid, events).accepted_journal_invites),
        forall|j: u128|
            !(grant_has(user_fold(uid, events).pending_journal_invites, j) && grant_has(
                user_fold(uid, events).accepted_journal_invites,
                j,
            )),
    decreases events.len(),
{
    if events.len() == 0 {
        assert forall|j: u128|
            !(grant_has(user_fold(uid, events).pending_journal_invites, j) && grant_has(
                user_fold(uid, events).accepted_journal_invites,
                j,
            )) by {
            crate::grants::lemma_grant_index_of(user_fold(uid, events).pending_journal_invites, j);
        }
    } else {
        let prefix = events.drop_last();
        assert forall|i: int| 0 <= i < prefix.len() implies guarded_invite(prefix, uid, i) by {
            assert(prefix.take(i) =~= events.take(i));
            assert(prefix[i] == events[i]);
            assert(guarded_invite(events, uid, i));
        }
        lemma_invite_exclusivity(uid, prefix);
        let s = user_fold(uid, prefix);
        let e = events.last();
        assert(events.take(events.len() - 1) =~= prefix);
        assert(guarded_invite(events, uid, events.len() - 1));
        let u = user_fold(uid, events);
        match e {
            UserEvent::InvitedToJournal { id: j, permissions, inviting_user, owner } => {
                let info = JournalTenantInfo {
                    tenant_permissions: permissions,
                    inviting_user,
                    journal_owner: owner,
                };
                lemma_grant_insert_wf(s.pending_journal_invites, j, info);
                assert(!grant_has(s.accepted_journal_invites, j));
                assert forall|jj: u128|
                    !(grant_has(u.pending_journal_invites, jj) && grant_has(
                        u.accepted_journal_invites,
                        jj,
                    )) by {
                    lemma_grant_insert_has(s.pending_journal_invites, j, info, jj);
                }
            },
            UserEvent::AcceptedJournalInvite { id: j } => {
                if grant_has(s.pending_journal_invites, j) {
                    let g = grant_get(s.pending_journal_invites, j);
                    lemma_grant_remove_wf(s.pending_journal_invites, j);
                    lemma_grant_insert_wf(s.accepted_journal_invites, j, g);
                    assert forall|jj: u128|
                        !(grant_has(u.pending_journal_invites, jj) && grant_has(
                            u.accepted_journal_invites,
                            jj,
                        )) by {
                        lemma_grant_remove_has(s.pending_journal_invites, j, jj);
                        lemma_grant_insert_has(s.accepted_journal_invites, j, g, jj);
                    }
                }
            },
            UserEvent::DeclinedJournalInvite { id: j } => {
                lemma_grant_remove_wf(s.pending_journal_invites, j);
                assert forall|jj: u128|
                    !(grant_has(u.pending_journal_invites, jj) && grant_has(
                        u.accepted_journal_invites,
                        jj,
                    )) by {
                    lemma_grant_remove_has(s.pending_journal_invites, j, jj);
                }
            },
            UserEvent::RemovedFromJournal { id: j } => {
                lemma_grant_remove_wf(s.accepted_journal_invites, j);
                assert forall|jj: u128|
                    !(grant_has(u.pending_journal_invites, jj) && grant_has(
                        u.accepted_journal_invites,
                        jj,
                    )) by {
                    lemma_grant_remove_has(s.accepted_journal_invites, j, jj);
                }
            },
            _ => {},
        }
    }
}

/// Every event of user `uid` in the log, in order, with no kind filter.
pub open spec fn all_user_events(log: Seq<UserRecord>, uid: u128) -> Seq<UserEvent>
    decreases log.len(),
{
    if log.len() == 0 {
        Seq::empty()
    } else {
        let prefix = all_user_events(log.drop_last(), uid);
        if log.last().user_id == uid {
            prefix.push(log.last().event)
        } else {
            prefix
        }
    }
}

/// The filtered replay the command guards use sees the user's journal
/// relationships exactly: folding only relationship-kind events yields
/// the same owned, pending and accepted state as folding the user's
/// whole stream.
pub proof fn lemma_relation_projection_complete(log: Seq<UserRecord>, uid: u128)
    ensures
        relation_state(log, uid).owned_journals == user_fold(
            uid,
            all_user_events(log, uid),
        ).owned_journals,
        relation_state(log, uid).pending_journal_invites == user_fold(
            uid,
            all_user_events(log, uid),
        ).pending_journal_invites,
        relation_state(log, uid).accepted_journal_invites == user_fold(
            uid,
            all_user_events(log, uid),
        ).accepted_journal_invites,
    decreases log.len(),
{
    if log.len() > 0 {
        lemma_relation_projection_complete(log.drop_last(), uid);
        let r = log.last();
        let fsel = selected_user_events(log.drop_last(), uid, relation_kinds());
        let fall = all_user_events(log.drop_last(), uid);
        if r.user_id == uid {
            assert(fall.push(r.event).drop_last() =~= fall);
            if relation_kinds().contains(r.event.spec_kind()) {
                assert(fsel.push(r.event).drop_last() =~= fsel);
            } else {
                // the event kinds outside the filter leave the
                // relationship fields untouched
                assert(match r.event {
                    UserEvent::Created { .. } => true,
                    UserEvent::UsernameUpdated { .. } => true,
                    UserEvent::PasswordUpdated { .. } => true,
                    UserEvent::SelectedJournal { .. } => true,
                    UserEvent::Deleted => true,
                    _ => false,
                });
            }
        }
    }
}

/// The sum of all account balances of a snapshot, in minor currency
/// units, as an unbounded integer.
pub open spec fn sum_balances(accs: Seq<AccountView>) -> int
    decreases accs.len(),
{
    if accs.len() == 0 {
        0
    } else {
        sum_balances(accs.drop_last()) + accs.last().balance
    }
}

/// Overwriting one account changes the sum by the balance difference.
proof fn lemma_sum_update(s: Seq<AccountView>, i: int, v: AccountView)
    requires
        0 <= i < s.len(),
    ensures
        sum_balances(s.update(i, v)) == sum_balances(s) - s[i].balance + v.balance,
    decreases s.len(),
{
    if i == s.len() - 1 {
        assert(s.update(i, v).drop_last() =~= s.drop_last());
        assert(s.update(i, v).last() == v);
    } else {
        assert(s.update(i, v).drop_last() =~= s.drop_last().update(i, v));
        assert(s.update(i, v).last() == s.last());
        lemma_sum_update(s.drop_last(), i, v);
    }
}

/// Removing one account subtracts its balance from the sum.
proof fn lemma_sum_remove(s: Seq<AccountView>, i: int)
    requires
        0 <= i < s.len(),
    ensures
        sum_balances(s.remove(i)) == sum_balances(s) - s[i].balance,
    decreases s.len(),
{
    if i == s.len() - 1 {
        assert(s.remove(i) =~= s.drop_last());
    } else {
        assert(s.remove(i).drop_last() =~= s.drop_last().remove(i));
        assert(s.remove(i).last() == s.last());
        lemma_sum_remove(s.drop_last(), i);
    }
}

/// The balance change at position `us.len()` would land on a present
/// account and stay in range, and so would all the ones before it.
pub open spec fn applies_cleanly(accs: Seq<AccountView>, us: Seq<BalanceUpdate>) -> bool
    decreases us.len(),
{
    if us.len() == 0 {
        true
    } else {
        applies_cleanly(accs, us.drop_last()) && {
            let cur = apply_updates(accs, us.drop_last());
            let u = us.last();
            &&& acct_has(cur, u.account_id)
            &&& i64::MIN <= cur[acct_index_of(cur, u.account_id)].balance + u.changed_by
                <= i64::MAX
        }
    }
}

/// A clean balance change moves the sum by exactly its delta.
proof fn lemma_apply_update_sum(accs: Seq<AccountView>, u: BalanceUpdate)
    requires
        acct_has(accs, u.account_id),
        i64::MIN <= accs[acct_index_of(accs, u.account_id)].balance + u.changed_by <= i64::MAX,
    ensures
        sum_balances(apply_update(accs, u)) == sum_balances(accs) + u.changed_by,
{
    lemma_acct_index_of(accs, u.account_id);
    let i = acct_index_of(accs, u.account_id);
    let v = AccountView { balance: wrap_add(accs[i].balance, u.changed_by), ..accs[i] };
    assert(v.balance == accs[i].balance + u.changed_by);
    lemma_sum_update(accs, i, v);
}

/// A clean transaction moves the sum by exactly the total of its deltas.
proof fn lemma_apply_updates_sum(accs: Seq<AccountView>, us: Seq<BalanceUpdate>)
    requires
        applies_cleanly(accs, us),
    ensures
        sum_balances(apply_updates(accs, us)) == sum_balances(accs) + updates_total(us),
    decreases us.len(),
{
    if us.len() > 0 {
        lemma_apply_updates_sum(accs, us.drop_last());
        lemma_apply_update_sum(apply_updates(accs, us.drop_last()), us.last());
    }
}

/// The sum of deltas an event applies: a posted transaction's total,
/// zero for every other event kind.
pub open spec fn event_delta(e: JournalEventView) -> int {
    match e {
        JournalEventView::AddedEntry { transaction } => updates_total(transaction.updates),
        _ => 0,
    }
}

/// Applied to this snapshot, the event conserves accounted value: a
/// transaction lands every delta on a present account without leaving
/// the balance range, and an account is only deleted while empty.
pub open spec fn conservative_event(s: JournalView, e: JournalEventView) -> bool {
    match e {
        JournalEventView::AddedEntry { transaction } => applies_cleanly(
            s.accounts,
            transaction.updates,
        ),
        JournalEventView::DeletedAccount { account_id } => !acct_has(s.accounts, account_id)
            || s.accounts[acct_index_of(s.accounts, account_id)].balance == 0,
        _ => true,
    }
}

/// Every event of the history conserves accounted value against the
/// snapshot it was applied to.
pub open spec fn conservative_history(jid: u128, events: Seq<JournalEventView>) -> bool {
    forall|i: int|
        0 <= i < events.len() ==> conservative_event(
            journal_fold(jid, #[trigger] events.take(i)),
            events[i],
        )
}

/// The sum of deltas over the whole history.
pub open spec fn history_delta(events: Seq<JournalEventView>) -> int
    decreases events.len(),
{
    if events.len() == 0 {
        0
    } else {
        history_delta(events.drop_last()) + event_delta(events.last())
    }
}

/// One conservative step moves the sum by the event's delta.
proof fn lemma_apply_conserves(s: JournalView, e: JournalEventView)
    requires
        conservative_event(s, e),
    ensures
        sum_balances(journal_apply(s, e).accounts) == sum_balances(s.accounts) + event_delta(e),
{
    match e {
        JournalEventView::AddedEntry { transaction } => {
            lemma_apply_updates_sum(s.accounts, transaction.updates);
        },
        JournalEventView::DeletedAccount { account_id } => {
            lemma_acct_index_of(s.accounts, account_id);
            if acct_has(s.accounts, account_id) {
                lemma_sum_remove(s.accounts, acct_index_of(s.accounts, account_id));
            }
        },
        JournalEventView::CreatedAccount { account_name } => {
            if s.next_account_id != u64::MAX {
                let accs1 = journal_apply(s, e).accounts;
                assert(accs1.drop_last() =~= s.accounts);
            }
        },
        _ => {},
    }
}

/// Balance conservation: over a history whose events all conserve
/// accounted value, the sum of account balances equals the sum of the
/// signed deltas of all posted transactions.
pub proof fn lemma_balance_conservation(jid: u128, events: Seq<JournalEventView>)
    requires
        conservative_history(jid, events),
    ensures
        sum_balances(journal_fold(jid, events).accounts) == history_delta(events),
    decreases events.len(),
{
    if events.len() > 0 {
        let prefix = events.drop_last();
        assert forall|i: int|
            0 <= i < prefix.len() implies conservative_event(
            journal_fold(jid, #[trigger] prefix.take(i)),
            prefix[i],
        ) by {
            assert(prefix.take(i) =~= events.take(i));
            assert(conservative_event(journal_fold(jid, events.take(i)), events[i]));
        }
        lemma_balance_conservation(jid, prefix);
        assert(events.take(events.len() - 1) =~= prefix);
        assert(conservative_event(journal_fold(jid, prefix), events.last()));
        lemma_apply_conserves(journal_fold(jid, prefix), events.last());
    }
}

/// Every posted transaction of the history is balanced: its deltas sum
/// to zero, as the validator guarantees of every transaction it accepts.
pub open spec fn balanced_history(events: Seq<JournalEventView>) -> bool {
    forall|i: int| 0 <= i < events.len() ==> event_delta(#[trigger] events[i]) == 0
}

/// A balanced history has zero total delta.
proof fn lemma_history_delta_zero(events: Seq<JournalEventView>)
    requires
        balanced_history(events),
    ensures
        history_delta(events) == 0,
    decreases events.len(),
{
    if events.len() > 0 {
        let prefix = events.drop_last();
        assert(event_delta(events[events.len() - 1]) == 0);
        assert forall|i: int| 0 <= i < prefix.len() implies event_delta(#[trigger] prefix[i])
            == 0 by {
            assert(prefix[i] == events[i]);
            assert(event_delta(events[i]) == 0);
        }
        lemma_history_delta_zero(prefix);
    }
}

/// Balance conservation, closed form: over a conservative history whose
/// posted transactions are all balanced, the account balances of the
/// projected journal sum to exactly zero.
pub proof fn lemma_balanced_books(jid: u128, events: Seq<JournalEventView>)
    requires
        conservative_history(jid, events),
        balanced_history(events),
    ensures
        sum_balances(journal_fold(jid, events).accounts) == 0,
{
    lemma_balance_conservation(jid, events);
    lemma_history_delta_zero(events);
}

} // verus!
