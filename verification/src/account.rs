//! One client's account: its balances and the history of its transactions.

use crate::amount::{lemma_minus_is_exact, lemma_plus_is_exact, Amount};
use crate::text::{bool_text, bool_to_text, decimal_digits, u16_to_text};
use crate::transaction::{Transaction, TransactionAction, TransactionState, TransactionView};
use std::collections::HashMap;
use vstd::prelude::*;

verus! {

broadcast use vstd::std_specs::hash::group_hash_axioms;

/// The transaction `base` after the events `events`, folded in from first to
/// last.
pub open spec fn replay(base: TransactionView, events: Seq<TransactionView>) -> TransactionView
    decreases events.len(),
{
    if events.len() == 0 {
        base
    } else {
        replay(base, events.drop_last()).progress(events.last())
    }
}

/// A row of a report, from the client, the notation of the available, the
/// held and the total funds, and the lock: the five fields, separated by
/// commas.
pub open spec fn row_of(
    client: u16,
    available: Seq<char>,
    held: Seq<char>,
    total: Seq<char>,
    locked: bool,
) -> Seq<char> {
    decimal_digits(client as nat) + ","@ + available + ","@ + held + ","@ + total + ","@
        + bool_text(locked)
}

/// A row of a report, from the client, the notation of the available, the
/// held and the total funds, and the lock.
pub fn row_text(client: u16, available: &str, held: &str, total: &str, locked: bool) -> (r: String)
    ensures
        r@ == row_of(client, available@, held@, total@, locked),
{
    let mut row = u16_to_text(client);
    row.append(",");
    row.append(available);
    row.append(",");
    row.append(held);
    row.append(",");
    row.append(total);
    row.append(",");
    row.append(bool_to_text(locked).as_str());
    row
}

/// The mathematical value of an `Account`.
pub struct AccountView {
    /// The client that owns the account.
    pub id: u16,
    /// Whether a chargeback has frozen the account.
    pub locked: bool,
    /// The funds that can be withdrawn.
    pub available: Amount,
    /// The funds that disputes have frozen.
    pub held: Amount,
    /// For each transaction id, what was submitted under it, in order.
    pub history: Map<u32, Seq<TransactionView>>,
}

impl AccountView {
    /// The account of client `id` before any transaction.
    pub open spec fn fresh(id: u16) -> AccountView {
        AccountView {
            id,
            locked: false,
            available: Amount { mantissa: 0, scale: 0 },
            held: Amount { mantissa: 0, scale: 0 },
            history: Map::empty(),
        }
    }

    /// The balances and every recorded amount are well formed, and the total
    /// of the two balances is exact.
    pub open spec fn wf(self) -> bool {
        &&& self.available.wf()
        &&& self.held.wf()
        &&& self.held.can_add(self.available)
        &&& forall|id: u32, i: int|
            #![trigger self.history[id][i]]
            self.history.contains_key(id) && 0 <= i < self.history[id].len()
                ==> self.history[id][i].wf()
    }

    /// The total funds: what is held and what is available together.
    pub open spec fn total(self) -> Amount {
        self.held.plus(self.available)
    }

    /// The row that a report shows for the account: the client, the
    /// available, the held and the total funds, and whether the account is
    /// locked, separated by commas.
    pub open spec fn row(self) -> Seq<char> {
        row_of(
            self.id,
            self.available.text(),
            self.held.text(),
            self.total().text(),
            self.locked,
        )
    }

    /// What was submitted under `id` so far.
    pub open spec fn entries(self, id: u32) -> Seq<TransactionView> {
        if self.history.contains_key(id) {
            self.history[id]
        } else {
            Seq::empty()
        }
    }

    /// Whether the transaction recorded first under `id` is a withdrawal that
    /// went through: only such a transaction can be disputed.
    pub open spec fn disputable(self, id: u32) -> bool {
        self.entries(id).len() > 0 && self.entries(id)[0].state == TransactionState::Withdraw
    }

    /// The transaction that `t` refers to, in the state it reaches when
    /// everything recorded under its id and then `t` itself are folded into
    /// it.
    pub open spec fn resolved(self, t: TransactionView) -> TransactionView {
        let list = self.entries(t.id);
        replay(list[0], list.subrange(1, list.len() as int)).progress(t)
    }

    /// What `t` does to the balances. A deposit or a withdrawal acts by its
    /// own state. Any other transaction acts by the state that the
    /// transaction it refers to reaches, and does nothing where there is no
    /// such transaction or it cannot be disputed.
    pub open spec fn action_for(self, t: TransactionView) -> TransactionAction {
        if t.state.is_origin() {
            t.action()
        } else if self.disputable(t.id) {
            self.resolved(t).action()
        } else {
            TransactionAction::Ignore
        }
    }

    /// Whether `action` is a withdrawal of more than is available.
    pub open spec fn insufficient(self, action: TransactionAction) -> bool {
        action matches TransactionAction::RemoveAvailable(change) && change.value()
            > self.available.value()
    }

    /// The available funds after `action`.
    pub open spec fn available_after(self, action: TransactionAction) -> Amount {
        match action {
            TransactionAction::AddAvailable(change) => self.available.plus(change),
            TransactionAction::RemoveAvailable(change) => if self.insufficient(action) {
                self.available
            } else {
                self.available.minus(change)
            },
            TransactionAction::Dispute(change) => self.available.minus(change),
            TransactionAction::Resolve(change) => self.available.plus(change),
            TransactionAction::Lock(_) => self.available,
            TransactionAction::Ignore => self.available,
        }
    }

    /// The held funds after `action`.
    pub open spec fn held_after(self, action: TransactionAction) -> Amount {
        match action {
            TransactionAction::Dispute(change) => self.held.plus(change),
            TransactionAction::Resolve(change) => self.held.minus(change),
            TransactionAction::Lock(change) => self.held.minus(change),
            _ => self.held,
        }
    }

    /// Whether every sum and difference that `action` takes is exact, and the
    /// total of the balances after it as well.
    pub open spec fn fits(self, action: TransactionAction) -> bool {
        &&& match action {
            TransactionAction::AddAvailable(change) => self.available.can_add(change),
            TransactionAction::RemoveAvailable(change) => self.insufficient(action)
                || self.available.can_sub(change),
            TransactionAction::Dispute(change) => self.held.can_add(change)
                && self.available.can_sub(change),
            TransactionAction::Resolve(change) => self.held.can_sub(change)
                && self.available.can_add(change),
            TransactionAction::Lock(change) => self.held.can_sub(change),
            TransactionAction::Ignore => true,
        }
        &&& self.held_after(action).can_add(self.available_after(action))
    }

    /// Whether the account can take `t` without a balance leaving the range
    /// in which amounts are exact. A locked account takes anything, since it
    /// changes nothing.
    pub open spec fn accepts(self, t: TransactionView) -> bool {
        self.locked || self.fits(self.action_for(t))
    }

    /// The transaction as the history records it: a withdrawal of more than
    /// is available is marked as failed, anything else is recorded as it came.
    pub open spec fn recorded(self, t: TransactionView) -> TransactionView {
        if self.insufficient(self.action_for(t)) {
            t.failed(self.available)
        } else {
            t
        }
    }

    /// The account after `t`. A locked account stays as it is. Otherwise the
    /// balances move as the action of `t` says, a chargeback locks the
    /// account, and `t` is appended to what its id has recorded.
    pub open spec fn apply(self, t: TransactionView) -> AccountView {
        if self.locked {
            self
        } else {
            let action = self.action_for(t);
            AccountView {
                id: self.id,
                locked: action is Lock,
                available: self.available_after(action),
                held: self.held_after(action),
                history: self.history.insert(t.id, self.entries(t.id).push(self.recorded(t))),
            }
        }
    }

    /// The account after `t` was offered to it: it has taken `t` where it
    /// accepts it, and is as it was where it does not.
    pub open spec fn offer(self, t: TransactionView) -> AccountView {
        if self.accepts(t) {
            self.apply(t)
        } else {
            self
        }
    }
}

/// Replaying events changes neither the id nor the amount of a transaction.
pub proof fn lemma_replay_keeps_amount(base: TransactionView, events: Seq<TransactionView>)
    ensures
        replay(base, events).id == base.id,
        replay(base, events).amount == base.amount,
    decreases events.len(),
{
    if events.len() > 0 {
        lemma_replay_keeps_amount(base, events.drop_last());
    }
}

/// On a well-formed account, the action of a well-formed transaction moves a
/// well-formed amount.
pub proof fn lemma_action_wf(account: AccountView, t: TransactionView)
    requires
        account.wf(),
        t.wf(),
    ensures
        account.action_for(t).wf(),
{
    if !t.state.is_origin() && account.disputable(t.id) {
        let list = account.entries(t.id);
        lemma_replay_keeps_amount(list[0], list.subrange(1, list.len() as int));
    }
}

/// A well-formed account that takes a well-formed transaction which it
/// accepts stays well formed.
pub proof fn lemma_apply_keeps_wf(account: AccountView, t: TransactionView)
    requires
        account.wf(),
        t.wf(),
        account.accepts(t),
    ensures
        account.apply(t).wf(),
{
    if !account.locked {
        let action = account.action_for(t);
        lemma_action_wf(account, t);
        match action {
            TransactionAction::AddAvailable(change) => {
                lemma_plus_is_exact(account.available, change);
            },
            TransactionAction::RemoveAvailable(change) => {
                if !account.insufficient(action) {
                    lemma_minus_is_exact(account.available, change);
                }
            },
            TransactionAction::Dispute(change) => {
                lemma_plus_is_exact(account.held, change);
                lemma_minus_is_exact(account.available, change);
            },
            TransactionAction::Resolve(change) => {
                lemma_minus_is_exact(account.held, change);
                lemma_plus_is_exact(account.available, change);
            },
            TransactionAction::Lock(change) => {
                lemma_minus_is_exact(account.held, change);
            },
            TransactionAction::Ignore => {},
        }
    }
}

/// The views of the transactions in `list`, in order.
pub open spec fn views_of(list: Vec<Transaction>) -> Seq<TransactionView> {
    list@.map_values(|t: Transaction| t@)
}

/// One client's account.
#[derive(Debug)]
pub struct Account {
    id: u16,
    locked: bool,
    available: Amount,
    held: Amount,
    history: HashMap<u32, Vec<Transaction>>,
}

impl View for Account {
    type V = AccountView;

    closed spec fn view(&self) -> AccountView {
        AccountView {
            id: self.id,
            locked: self.locked,
            available: self.available,
            held: self.held,
            history: self.history@.map_values(|list: Vec<Transaction>| views_of(list)),
        }
    }
}

impl Account {
    /// The invariant of an account: that of its view.
    pub open spec fn wf(&self) -> bool {
        self@.wf()
    }

    /// The account of client `id`, with nothing in it.
    pub fn new(id: u16) -> (r: Account)
        ensures
            r@ == AccountView::fresh(id),
            r.wf(),
    {
        let r = Account {
            id,
            locked: false,
            available: Amount::zero(),
            held: Amount::zero(),
            history: HashMap::new(),
        };
        assert(r@.history =~= Map::empty());
        r
    }

    /// What `transaction` does to the balances of this account.
    fn get_action(&self, transaction: &Transaction) -> (r: TransactionAction)
        ensures
            r == self@.action_for(transaction@),
    {
        match transaction.state {
            TransactionState::Withdraw | TransactionState::Deposit => transaction.action(),
            _ => {
                match self.history.get(&transaction.id) {
                    Some(list) => {
                        let ghost events = views_of(*list);
                        if list.len() == 0 {
                            return TransactionAction::Ignore;
                        }
                        if list[0].state != TransactionState::Withdraw {
                            return TransactionAction::Ignore;
                        }
                        let mut base: Transaction = list[0].clone();
                        let mut i: usize = 1;
                        while i < list.len()
                            invariant
                                1 <= i <= list.len(),
                                events == views_of(*list),
                                base@ == replay(events[0], events.subrange(1, i as int)),
                            decreases list.len() - i,
                        {
                            assert(events.subrange(1, i + 1).drop_last() =~= events.subrange(
                                1,
                                i as int,
                            ));
                            base = base.progress(&list[i]);
                            i = i + 1;
                        }
                        base.progress(transaction).action()
                    },
                    None => TransactionAction::Ignore,
                }
            },
        }
    }

    /// Applies `transaction` to the account and records it. A locked account
    /// drops it. A withdrawal of more than is available changes no balance and
    /// is recorded as failed, with a note.
    pub fn add_transaction(&mut self, transaction: Transaction)
        requires
            old(self).wf(),
            transaction@.wf(),
            old(self)@.accepts(transaction@),
        ensures
            final(self)@ == old(self)@.apply(transaction@),
            final(self).wf(),
    {
        if self.is_locked() {
            return;
        }
        let ghost before = self@;
        let ghost incoming = transaction@;
        let mut transaction = transaction;
        let action = self.get_action(&transaction);
        proof {
            lemma_action_wf(before, incoming);
        }
        match action {
            TransactionAction::Lock(change) => {
                self.locked = true;
                self.held = self.held.exact_sub(change);
            },
            TransactionAction::Resolve(change) => {
                self.held = self.held.exact_sub(change);
                self.available = self.available.exact_add(change);
            },
            TransactionAction::Dispute(change) => {
                self.held = self.held.exact_add(change);
                self.available = self.available.exact_sub(change);
            },
            TransactionAction::RemoveAvailable(change) => {
                if change.exceeds(self.available) {
                    transaction.failed_withdraw(self.available);
                } else {
                    self.available = self.available.exact_sub(change);
                }
            },
            TransactionAction::AddAvailable(change) => {
                self.available = self.available.exact_add(change);
            },
            TransactionAction::Ignore => {},
        }
        let id: u32 = transaction.id;
        let mut list: Vec<Transaction> = match self.history.remove(&id) {
            Some(list) => list,
            None => Vec::new(),
        };
        list.push(transaction);
        assert(views_of(list) =~= before.entries(id).push(before.recorded(incoming)));
        self.history.insert(id, list);
        assert(self@.history =~= before.apply(incoming).history);
    }

    /// Decides whether the account can take `transaction` with every balance
    /// staying exact.
    pub fn can_apply(&self, transaction: &Transaction) -> (r: bool)
        requires
            self.wf(),
            transaction@.wf(),
        ensures
            r == self@.accepts(transaction@),
    {
        if self.locked {
            return true;
        }
        let action = self.get_action(transaction);
        proof {
            lemma_action_wf(self@, transaction@);
        }
        let balances: (Option<Amount>, Option<Amount>) = match action {
            TransactionAction::AddAvailable(change) => (
                self.available.checked_add(change),
                Some(self.held),
            ),
            TransactionAction::RemoveAvailable(change) => if change.exceeds(self.available) {
                (Some(self.available), Some(self.held))
            } else {
                (self.available.checked_sub(change), Some(self.held))
            },
            TransactionAction::Dispute(change) => (
                self.available.checked_sub(change),
                self.held.checked_add(change),
            ),
            TransactionAction::Resolve(change) => (
                self.available.checked_add(change),
                self.held.checked_sub(change),
            ),
            TransactionAction::Lock(change) => (
                Some(self.available),
                self.held.checked_sub(change),
            ),
            TransactionAction::Ignore => (Some(self.available), Some(self.held)),
        };
        match balances {
            (Some(available), Some(held)) => held.sum_is_exact(available),
            _ => false,
        }
    }

    /// Applies `transaction` where the account can take it, and says whether
    /// it did. Where it cannot, the account stays as it was.
    pub fn try_add_transaction(&mut self, transaction: Transaction) -> (applied: bool)
        requires
            old(self).wf(),
            transaction@.wf(),
        ensures
            applied == old(self)@.accepts(transaction@),
            final(self)@ == old(self)@.offer(transaction@),
            final(self).wf(),
    {
        if self.can_apply(&transaction) {
            self.add_transaction(transaction);
            true
        } else {
            false
        }
    }

    /// The client that owns the account.
    pub fn id(&self) -> (r: u16)
        ensures
            r == self@.id,
    {
        self.id
    }

    /// The funds that can be withdrawn.
    pub fn available(&self) -> (r: Amount)
        ensures
            r == self@.available,
    {
        self.available
    }

    /// The funds that disputes have frozen.
    pub fn held(&self) -> (r: Amount)
        ensures
            r == self@.held,
    {
        self.held
    }

    /// What was submitted under `id`, in order, if anything was.
    pub fn history(&self, id: u32) -> (r: Option<&Vec<Transaction>>)
        ensures
            match r {
                Some(list) => self@.history.contains_key(id) && views_of(*list)
                    == self@.history[id],
                None => !self@.history.contains_key(id),
            },
    {
        self.history.get(&id)
    }

    /// The row that a report shows for the account.
    pub fn to_string(&self) -> (r: String)
        requires
            self.wf(),
        ensures
            r@ == self@.row(),
    {
        let available = self.available.to_text();
        let held = self.held.to_text();
        let total = self.total().to_text();
        row_text(self.id, available.as_str(), held.as_str(), total.as_str(), self.is_locked())
    }

    /// Whether a chargeback has frozen the account.
    pub fn is_locked(&self) -> (r: bool)
        ensures
            r == self@.locked,
    {
        self.locked
    }

    /// The total funds: what is held and what is available together.
    pub fn total(&self) -> (r: Amount)
        requires
            self.wf(),
        ensures
            r == self@.total(),
            r.wf(),
            r.value() == self@.available.value() + self@.held.value(),
    {
        self.held.exact_add(self.available)
    }
}

} // verus!
