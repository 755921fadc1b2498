//! What holds of every account, stated over the views of accounts and
//! transactions and proved from the definitions in `account`.

use crate::account::{lemma_action_wf, lemma_apply_keeps_wf, replay, AccountView};
use crate::amount::{lemma_minus_is_exact, lemma_plus_is_exact, Amount};
use crate::transaction::{TransactionAction, TransactionState, TransactionView};
use vstd::prelude::*;

verus! {

/// The account after the transactions `ts` were offered to it, from first
/// to last.
pub open spec fn after_all(account: AccountView, ts: Seq<TransactionView>) -> AccountView
    decreases ts.len(),
{
    if ts.len() == 0 {
        account
    } else {
        after_all(account, ts.drop_last()).offer(ts.last())
    }
}

/// Every transaction of `ts` is well formed.
pub open spec fn all_wf(ts: Seq<TransactionView>) -> bool {
    forall|i: int| 0 <= i < ts.len() ==> (#[trigger] ts[i]).wf()
}

/// An account stays well formed through every sequence of transactions.
pub proof fn lemma_after_all_wf(account: AccountView, ts: Seq<TransactionView>)
    requires
        account.wf(),
        all_wf(ts),
    ensures
        after_all(account, ts).wf(),
    decreases ts.len(),
{
    if ts.len() > 0 {
        let front = ts.drop_last();
        lemma_after_all_wf(account, front);
        if after_all(account, front).accepts(ts.last()) {
            lemma_apply_keeps_wf(after_all(account, front), ts.last());
        }
    }
}

/// After each transaction of any sequence offered to a fresh account, the
/// total is exact and is the sum of the available and the held funds.
pub proof fn lemma_total_is_available_plus_held(id: u16, ts: Seq<TransactionView>, n: int)
    requires
        all_wf(ts),
        0 <= n <= ts.len(),
    ensures
        after_all(AccountView::fresh(id), ts.take(n)).wf(),
        after_all(AccountView::fresh(id), ts.take(n)).total().wf(),
        after_all(AccountView::fresh(id), ts.take(n)).total().value() == after_all(
            AccountView::fresh(id),
            ts.take(n),
        ).available.value() + after_all(AccountView::fresh(id), ts.take(n)).held.value(),
{
    let front = ts.take(n);
    lemma_after_all_wf(AccountView::fresh(id), front);
    let account = after_all(AccountView::fresh(id), front);
    lemma_plus_is_exact(account.held, account.available);
}

/// A deposit into a fresh account is always accepted; it makes exactly its
/// amount available, holds nothing and locks nothing.
pub proof fn lemma_deposit_into_fresh(id: u16, t: TransactionView)
    requires
        t.wf(),
        t.state == TransactionState::Deposit,
    ensures
        AccountView::fresh(id).accepts(t),
        AccountView::fresh(id).apply(t).available == t.amount,
        AccountView::fresh(id).apply(t).held == (Amount { mantissa: 0, scale: 0 }),
        AccountView::fresh(id).apply(t).held.value() == 0,
        !AccountView::fresh(id).apply(t).locked,
{
    let zero = Amount { mantissa: 0, scale: 0 };
    lemma_plus_is_exact(zero, zero);
}

/// A withdrawal of more than is available is accepted, leaves the balances
/// and the lock as they were, and is recorded as a failed withdrawal.
pub proof fn lemma_withdrawal_without_funds(account: AccountView, t: TransactionView)
    requires
        account.wf(),
        !account.locked,
        t.state == TransactionState::Withdraw,
        t.amount.value() > account.available.value(),
    ensures
        account.accepts(t),
        account.apply(t).available == account.available,
        account.apply(t).held == account.held,
        account.apply(t).locked == account.locked,
        account.apply(t).entries(t.id) == account.entries(t.id).push(t.failed(account.available)),
        account.apply(t).entries(t.id).last().state == TransactionState::FailedWithdraw,
{
}

/// A withdrawal that is covered takes its amount from the available funds
/// and touches nothing else.
pub proof fn lemma_withdrawal_with_funds(account: AccountView, t: TransactionView)
    requires
        account.wf(),
        t.wf(),
        !account.locked,
        t.state == TransactionState::Withdraw,
        t.amount.value() <= account.available.value(),
        account.accepts(t),
    ensures
        account.apply(t).available.value() == account.available.value() - t.amount.value(),
        account.apply(t).held == account.held,
        !account.apply(t).locked,
        account.apply(t).entries(t.id) == account.entries(t.id).push(t),
{
    lemma_minus_is_exact(account.available, t.amount);
}

/// Whether `id` has recorded one withdrawal that went through, and nothing
/// since.
pub open spec fn withdrawn(account: AccountView, id: u32) -> bool {
    account.entries(id).len() == 1 && account.entries(id)[0].state == TransactionState::Withdraw
}

/// A dispute of a withdrawal that went through moves the amount of the
/// withdrawal from the available to the held funds.
pub proof fn lemma_dispute_holds_amount(account: AccountView, dispute: TransactionView)
    requires
        account.wf(),
        !account.locked,
        withdrawn(account, dispute.id),
        dispute.wf(),
        dispute.state == TransactionState::Dispute,
        account.accepts(dispute),
    ensures
        account.action_for(dispute) == TransactionAction::Dispute(
            account.entries(dispute.id)[0].amount,
        ),
        account.apply(dispute).wf(),
        account.apply(dispute).available.value() == account.available.value() - account.entries(
            dispute.id,
        )[0].amount.value(),
        account.apply(dispute).held.value() == account.held.value() + account.entries(
            dispute.id,
        )[0].amount.value(),
        !account.apply(dispute).locked,
        account.apply(dispute).entries(dispute.id) == account.entries(dispute.id).push(dispute),
{
    let list = account.entries(dispute.id);
    let amount = list[0].amount;
    lemma_plus_is_exact(account.held, amount);
    lemma_minus_is_exact(account.available, amount);
    lemma_apply_keeps_wf(account, dispute);
}

/// The state that a disputed withdrawal has reached when the next event
/// comes: `Dispute`, with the id and the amount of the withdrawal.
proof fn lemma_disputed_state(account: AccountView, dispute: TransactionView)
    requires
        account.wf(),
        !account.locked,
        withdrawn(account, dispute.id),
        dispute.state == TransactionState::Dispute,
    ensures
        ({
            let list = account.apply(dispute).entries(dispute.id);
            &&& list.len() == 2
            &&& list[0] == account.entries(dispute.id)[0]
            &&& list[0].amount.wf()
            &&& replay(list[0], list.subrange(1, 2)).state == TransactionState::Dispute
            &&& replay(list[0], list.subrange(1, 2)).amount == list[0].amount
        }),
{
    let list = account.apply(dispute).entries(dispute.id);
    let events = list.subrange(1, 2);
    assert(replay(list[0], events) == replay(list[0], events.drop_last()).progress(events.last()));
}

/// A resolution that follows the dispute of a withdrawal brings the
/// available and the held funds back to what they were before the dispute.
pub proof fn lemma_resolve_restores(
    account: AccountView,
    dispute: TransactionView,
    resolve: TransactionView,
)
    requires
        account.wf(),
        !account.locked,
        withdrawn(account, dispute.id),
        dispute.wf(),
        dispute.state == TransactionState::Dispute,
        account.accepts(dispute),
        resolve.wf(),
        resolve.state == TransactionState::Resolve,
        resolve.id == dispute.id,
        account.apply(dispute).accepts(resolve),
    ensures
        account.apply(dispute).apply(resolve).available.value() == account.available.value(),
        account.apply(dispute).apply(resolve).held.value() == account.held.value(),
        !account.apply(dispute).apply(resolve).locked,
{
    let amount = account.entries(dispute.id)[0].amount;
    let disputed = account.apply(dispute);
    lemma_dispute_holds_amount(account, dispute);
    lemma_disputed_state(account, dispute);
    lemma_minus_is_exact(disputed.held, amount);
    lemma_plus_is_exact(disputed.available, amount);
}

/// A chargeback that follows the dispute of a withdrawal takes the amount out
/// of the held funds, leaves the available funds as the dispute left them, and
/// locks the account.
pub proof fn lemma_chargeback_locks(
    account: AccountView,
    dispute: TransactionView,
    chargeback: TransactionView,
)
    requires
        account.wf(),
        !account.locked,
        withdrawn(account, dispute.id),
        dispute.wf(),
        dispute.state == TransactionState::Dispute,
        account.accepts(dispute),
        chargeback.wf(),
        chargeback.state == TransactionState::Chargeback,
        chargeback.id == dispute.id,
        account.apply(dispute).accepts(chargeback),
    ensures
        account.apply(dispute).apply(chargeback).available == account.apply(dispute).available,
        account.apply(dispute).apply(chargeback).available.value() == account.available.value()
            - account.entries(dispute.id)[0].amount.value(),
        account.apply(dispute).apply(chargeback).held.value() == account.held.value(),
        account.apply(dispute).apply(chargeback).locked,
{
    let amount = account.entries(dispute.id)[0].amount;
    let disputed = account.apply(dispute);
    lemma_dispute_holds_amount(account, dispute);
    lemma_disputed_state(account, dispute);
    lemma_minus_is_exact(disputed.held, amount);
}

/// What `action` adds to the total of the account: a deposit adds its
/// amount, a covered withdrawal and a chargeback take theirs away, and
/// nothing else moves the total.
pub open spec fn net_effect(account: AccountView, action: TransactionAction) -> int {
    match action {
        TransactionAction::AddAvailable(change) => change.value(),
        TransactionAction::RemoveAvailable(change) => if account.insufficient(action) {
            0
        } else {
            -change.value()
        },
        TransactionAction::Lock(change) => -change.value(),
        TransactionAction::Dispute(_) => 0,
        TransactionAction::Resolve(_) => 0,
        TransactionAction::Ignore => 0,
    }
}

/// Every transaction that an unlocked account takes moves the total by the
/// net effect of its action, and by nothing else: a dispute and a resolution
/// only shift funds between the two balances.
pub proof fn lemma_total_moves_by_net_effect(account: AccountView, t: TransactionView)
    requires
        account.wf(),
        t.wf(),
        !account.locked,
        account.accepts(t),
    ensures
        account.apply(t).total().value() == account.total().value() + net_effect(
            account,
            account.action_for(t),
        ),
{
    let action = account.action_for(t);
    let after = account.apply(t);
    lemma_action_wf(account, t);
    lemma_apply_keeps_wf(account, t);
    lemma_plus_is_exact(account.held, account.available);
    lemma_plus_is_exact(after.held, after.available);
    match action {
        TransactionAction::AddAvailable(change) => {
            lemma_plus_is_exact(account.available, change);
        },
        TransactionAction::RemoveAvailable(change) => {
            if !account.insufficient(action) {
                lemma_minus_is_exact(account.available, change);
            }
        },
        TransactionAction::Dispute(change) => {
            lemma_plus_is_exact(account.held, change);
            lemma_minus_is_exact(account.available, change);
        },
        TransactionAction::Resolve(change) => {
            lemma_minus_is_exact(account.held, change);
            lemma_plus_is_exact(account.available, change);
        },
        TransactionAction::Lock(change) => {
            lemma_minus_is_exact(account.held, change);
        },
        TransactionAction::Ignore => {},
    }
}

/// What the history has recorded is never changed: a transaction that an
/// unlocked account takes is appended under its id, everything recorded
/// before stays where it was, and the other ids are untouched.
pub proof fn lemma_history_only_grows(account: AccountView, t: TransactionView, id: u32)
    requires
        !account.locked,
    ensures
        account.apply(t).entries(t.id) == account.entries(t.id).push(account.recorded(t)),
        account.recorded(t).id == t.id,
        account.recorded(t).amount == t.amount,
        id != t.id ==> account.apply(t).entries(id) == account.entries(id),
        id != t.id ==> (account.apply(t).history.contains_key(id) <==> account.history.contains_key(
            id,
        )),
{
}

/// A locked account accepts every transaction and is left exactly as it was
/// by each of them.
pub proof fn lemma_locked_is_final(account: AccountView, t: TransactionView)
    requires
        account.locked,
    ensures
        account.accepts(t),
        account.apply(t) == account,
{
}

/// An account that is locked stays as it is through every sequence of
/// transactions.
pub proof fn lemma_locked_stays(account: AccountView, ts: Seq<TransactionView>)
    requires
        account.locked,
    ensures
        after_all(account, ts) == account,
    decreases ts.len(),
{
    if ts.len() > 0 {
        lemma_locked_stays(account, ts.drop_last());
    }
}

/// A dispute, a resolution or a chargeback that refers to an id whose first
/// transaction is not a withdrawal that went through (a deposit, say, or a
/// failed withdrawal) is accepted and changes no balance and no lock.
pub proof fn lemma_reference_to_other_than_withdrawal(account: AccountView, t: TransactionView)
    requires
        account.wf(),
        !t.state.is_origin(),
        account.entries(t.id).len() > 0,
        account.entries(t.id)[0].state != TransactionState::Withdraw,
    ensures
        account.action_for(t) == TransactionAction::Ignore,
        account.accepts(t),
        account.apply(t).available == account.available,
        account.apply(t).held == account.held,
        account.apply(t).locked == account.locked,
{
}

/// A dispute, a resolution or a chargeback that refers to an id under which
/// nothing was recorded is accepted and changes no balance and no lock.
pub proof fn lemma_reference_to_unknown_id(account: AccountView, t: TransactionView)
    requires
        account.wf(),
        !t.state.is_origin(),
        !account.history.contains_key(t.id),
    ensures
        account.action_for(t) == TransactionAction::Ignore,
        account.accepts(t),
        account.apply(t).available == account.available,
        account.apply(t).held == account.held,
        account.apply(t).locked == account.locked,
{
}

} // verus!
