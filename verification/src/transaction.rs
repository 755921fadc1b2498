//! Transactions and the state machine of their lifecycle.
//!
//! A deposit or a withdrawal carries its own amount. A dispute, a resolution
//! or a chargeback carries none: it refers to an earlier transaction by id, and
//! what it does follows from the state which that transaction has reached.

use crate::amount::Amount;
use vstd::prelude::*;

verus! {

/// The lifecycle state of a transaction.
#[derive(Clone, Copy, Debug, PartialEq, Eq, Structural)]
pub enum TransactionState {
    Withdraw,
    Deposit,
    Dispute,
    Resolve,
    Chargeback,
    Ignore,
    FailedWithdraw,
}

impl Default for TransactionState {
    fn default() -> (r: Self)
        ensures
            r == TransactionState::Ignore,
    {
        TransactionState::Ignore
    }
}

impl TransactionState {
    /// The state that follows when a transaction in state `self` meets an
    /// event of kind `incoming`. A withdrawal can be disputed, a dispute can be
    /// resolved or charged back, and every other pairing ends in `Ignore`.
    pub open spec fn next(self, incoming: TransactionState) -> TransactionState {
        match (self, incoming) {
            (TransactionState::Withdraw, TransactionState::Dispute) => TransactionState::Dispute,
            (TransactionState::Dispute, TransactionState::Resolve) => TransactionState::Resolve,
            (TransactionState::Dispute, TransactionState::Chargeback) => TransactionState::Chargeback,
            _ => TransactionState::Ignore,
        }
    }

    /// Whether the state belongs to a transaction that carries its own amount.
    pub open spec fn is_origin(self) -> bool {
        self == TransactionState::Withdraw || self == TransactionState::Deposit
    }
}

/// The kind of a transaction as a record names it.
#[derive(Clone, Copy, Debug, PartialEq, Eq, Structural)]
pub enum TransactionType {
    Withdrawal,
    Deposit,
    Dispute,
    Resolve,
    Chargeback,
}

impl TransactionType {
    /// The lifecycle state in which a transaction of this kind starts.
    pub open spec fn state(self) -> TransactionState {
        match self {
            TransactionType::Withdrawal => TransactionState::Withdraw,
            TransactionType::Deposit => TransactionState::Deposit,
            TransactionType::Dispute => TransactionState::Dispute,
            TransactionType::Resolve => TransactionState::Resolve,
            TransactionType::Chargeback => TransactionState::Chargeback,
        }
    }

    /// The lifecycle state in which a transaction of this kind starts. Every
    /// kind has one, so the result is always `Ok`.
    pub fn try_into(self) -> (r: Result<TransactionState, String>)
        ensures
            r == Ok::<TransactionState, String>(self.state()),
    {
        match self {
            TransactionType::Withdrawal => Ok(TransactionState::Withdraw),
            TransactionType::Deposit => Ok(TransactionState::Deposit),
            TransactionType::Dispute => Ok(TransactionState::Dispute),
            TransactionType::Resolve => Ok(TransactionState::Resolve),
            TransactionType::Chargeback => Ok(TransactionState::Chargeback),
        }
    }
}

/// What a transaction does to the balances of an account.
#[derive(Clone, Copy, Debug, PartialEq, Eq)]
pub enum TransactionAction {
    /// Add the amount to the available funds.
    AddAvailable(Amount),
    /// Take the amount from the available funds, if they suffice.
    RemoveAvailable(Amount),
    /// Move the amount from the available funds to the held funds.
    Dispute(Amount),
    /// Move the amount from the held funds back to the available funds.
    Resolve(Amount),
    /// Take the amount from the held funds and lock the account.
    Lock(Amount),
    /// Leave the balances as they are.
    Ignore,
}

impl TransactionAction {
    /// The amount that the action moves, if it moves one.
    pub open spec fn amount(self) -> Option<Amount> {
        match self {
            TransactionAction::AddAvailable(a) => Some(a),
            TransactionAction::RemoveAvailable(a) => Some(a),
            TransactionAction::Dispute(a) => Some(a),
            TransactionAction::Resolve(a) => Some(a),
            TransactionAction::Lock(a) => Some(a),
            TransactionAction::Ignore => None,
        }
    }

    /// The amount that the action moves, if any, is well formed.
    pub open spec fn wf(self) -> bool {
        self.amount() is Some ==> self.amount().unwrap().wf()
    }
}

/// The note of a failed withdrawal, from the notation of the amount asked
/// for and of the funds that were available.
pub open spec fn note_of(amount: Seq<char>, available: Seq<char>) -> Seq<char> {
    "Tried to withdraw "@ + amount + " but account had "@ + available + " available"@
}

/// The note of a failed withdrawal, from the notation of the amount asked
/// for and of the funds that were available.
pub fn failure_note(amount: &str, available: &str) -> (r: String)
    ensures
        r@ == note_of(amount@, available@),
{
    let mut note = String::from_str("Tried to withdraw ");
    note.append(amount);
    note.append(" but account had ");
    note.append(available);
    note.append(" available");
    note
}

/// A transaction: the id it was submitted under, its lifecycle state, its
/// amount, and a note that says why it failed, if it did.
#[derive(Debug)]
pub struct Transaction {
    pub id: u32,
    pub state: TransactionState,
    pub amount: Amount,
    pub note: String,
}

/// The mathematical value of a `Transaction`.
pub struct TransactionView {
    pub id: u32,
    pub state: TransactionState,
    pub amount: Amount,
    pub note: Seq<char>,
}

impl View for Transaction {
    type V = TransactionView;

    open spec fn view(&self) -> TransactionView {
        TransactionView { id: self.id, state: self.state, amount: self.amount, note: self.note@ }
    }
}

impl TransactionView {
    /// The amount is well formed.
    pub open spec fn wf(self) -> bool {
        self.amount.wf()
    }

    /// The transaction after the event `other`: its state moves as
    /// `TransactionState::next` says, its id and amount stay, its note is
    /// empty.
    pub open spec fn progress(self, other: TransactionView) -> TransactionView {
        TransactionView {
            id: self.id,
            state: self.state.next(other.state),
            amount: self.amount,
            note: Seq::empty(),
        }
    }

    /// What a transaction in this state does to the balances.
    pub open spec fn action(self) -> TransactionAction {
        match self.state {
            TransactionState::Deposit => TransactionAction::AddAvailable(self.amount),
            TransactionState::Withdraw => TransactionAction::RemoveAvailable(self.amount),
            TransactionState::Dispute => TransactionAction::Dispute(self.amount),
            TransactionState::Resolve => TransactionAction::Resolve(self.amount),
            TransactionState::Chargeback => TransactionAction::Lock(self.amount),
            TransactionState::Ignore => TransactionAction::Ignore,
            TransactionState::FailedWithdraw => TransactionAction::Ignore,
        }
    }

    /// The note of a withdrawal of `amount` that failed while `available` was
    /// at hand.
    pub open spec fn failure_note(amount: Amount, available: Amount) -> Seq<char> {
        note_of(amount.text(), available.text())
    }

    /// The transaction marked as a withdrawal that failed while `available`
    /// was at hand.
    pub open spec fn failed(self, available: Amount) -> TransactionView {
        TransactionView {
            id: self.id,
            state: TransactionState::FailedWithdraw,
            amount: self.amount,
            note: Self::failure_note(self.amount, available),
        }
    }
}

impl Clone for Transaction {
    fn clone(&self) -> (r: Self)
        ensures
            r == *self,
    {
        Transaction { id: self.id, state: self.state, amount: self.amount, note: self.note.clone() }
    }
}

impl Default for Transaction {
    fn default() -> (r: Self)
        ensures
            r@ == (TransactionView {
                id: 0,
                state: TransactionState::Ignore,
                amount: Amount { mantissa: 0, scale: 0 },
                note: Seq::empty(),
            }),
    {
        Transaction {
            id: 0,
            state: TransactionState::Ignore,
            amount: Amount::zero(),
            note: String::new(),
        }
    }
}

impl Transaction {
    /// Folds the event `other` into this transaction: the result has this
    /// transaction's id and amount, and the state that follows from the two
    /// states.
    pub fn progress(&self, other: &Transaction) -> (r: Transaction)
        ensures
            r@ == self@.progress(other@),
    {
        let state = match (self.state, other.state) {
            (TransactionState::Withdraw, TransactionState::Dispute) => TransactionState::Dispute,
            (TransactionState::Dispute, TransactionState::Resolve) => TransactionState::Resolve,
            (TransactionState::Dispute, TransactionState::Chargeback) => TransactionState::Chargeback,
            (_, _) => TransactionState::Ignore,
        };
        Transaction { id: self.id, state, amount: self.amount, note: String::new() }
    }

    /// What the transaction, in the state it has, does to the balances.
    pub fn action(&self) -> (r: TransactionAction)
        ensures
            r == self@.action(),
    {
        match self.state {
            TransactionState::Deposit => TransactionAction::AddAvailable(self.amount),
            TransactionState::Withdraw => TransactionAction::RemoveAvailable(self.amount),
            TransactionState::Dispute => TransactionAction::Dispute(self.amount),
            TransactionState::Resolve => TransactionAction::Resolve(self.amount),
            TransactionState::Chargeback => TransactionAction::Lock(self.amount),
            TransactionState::Ignore => TransactionAction::Ignore,
            TransactionState::FailedWithdraw => TransactionAction::Ignore,
        }
    }

    /// Marks the transaction as a withdrawal that failed, and notes the
    /// amount asked for and the funds that were available.
    pub fn failed_withdraw(&mut self, amount: Amount)
        requires
            old(self)@.wf(),
            amount.wf(),
        ensures
            final(self)@ == old(self)@.failed(amount),
    {
        let asked = self.amount.to_text();
        let available = amount.to_text();
        self.state = TransactionState::FailedWithdraw;
        self.note = failure_note(asked.as_str(), available.as_str());
    }
}

} // verus!
