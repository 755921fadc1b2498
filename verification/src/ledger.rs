//! The accounts of all clients, and the records that feed them.

use crate::account::{Account, AccountView};
use crate::amount::Amount;
use crate::transaction::{Transaction, TransactionType, TransactionView};
use std::collections::HashMap;
use vstd::prelude::*;
use vstd::std_specs::iter::IteratorSpec;

verus! {

broadcast use vstd::std_specs::hash::group_hash_axioms;

/// The most fractional digits that the amount of a record may have.
pub const MAX_PRECISION: u32 = 4;

/// One record of the input: a kind, the client and the transaction id it
/// addresses, and an amount where the kind carries one.
#[derive(Clone, Copy, Debug, PartialEq, Eq)]
pub struct Record {
    pub kind: TransactionType,
    pub client: u16,
    pub tx: u32,
    pub amount: Option<Amount>,
}

/// Why a record was not applied.
#[derive(Clone, Copy, Debug, PartialEq, Eq)]
pub enum RecordError {
    /// The amount has more fractional digits than `MAX_PRECISION`.
    ExcessPrecision,
    /// A balance of the account would leave the range in which amounts are
    /// exact.
    Overflow,
}

impl Record {
    /// The amount of the record, if it has one, is well formed.
    pub open spec fn wf(self) -> bool {
        self.amount is Some ==> self.amount.unwrap().wf()
    }

    /// The amount of the record, or zero where it has none.
    pub open spec fn amount_or_zero(self) -> Amount {
        match self.amount {
            Some(amount) => amount,
            None => Amount { mantissa: 0, scale: 0 },
        }
    }

    /// Whether the amount has no more fractional digits than are allowed.
    pub open spec fn precise(self) -> bool {
        self.amount_or_zero().scale <= MAX_PRECISION
    }

    /// The transaction that the record stands for.
    pub open spec fn transaction(self) -> TransactionView {
        TransactionView {
            id: self.tx,
            state: self.kind.state(),
            amount: self.amount_or_zero(),
            note: Seq::empty(),
        }
    }

    /// The transaction that the record stands for, unless its amount has too
    /// many fractional digits.
    pub fn to_transaction(&self) -> (r: Result<Transaction, RecordError>)
        ensures
            match r {
                Ok(t) => self.precise() && t@ == self.transaction(),
                Err(e) => !self.precise() && e == RecordError::ExcessPrecision,
            },
    {
        let amount = match self.amount {
            Some(amount) => amount,
            None => Amount::zero(),
        };
        if amount.scale > MAX_PRECISION {
            return Err(RecordError::ExcessPrecision);
        }
        let state = self.kind.try_into().expect("Should always match");
        Ok(Transaction { id: self.tx, state, amount, note: String::new() })
    }
}

/// The mathematical value of a `Ledger`: the account of each client seen.
pub struct LedgerView {
    pub accounts: Map<u16, AccountView>,
}

impl LedgerView {
    /// Every account is well formed and belongs to the client it is kept
    /// under.
    pub open spec fn wf(self) -> bool {
        forall|client: u16|
            self.accounts.contains_key(client) ==> (#[trigger] self.accounts[client]).wf()
                && self.accounts[client].id == client
    }

    /// The account of `client`: the one that is kept, or a fresh one.
    pub open spec fn account(self, client: u16) -> AccountView {
        if self.accounts.contains_key(client) {
            self.accounts[client]
        } else {
            AccountView::fresh(client)
        }
    }

    /// The first line of a report, which names the fields of a row.
    pub open spec fn header() -> Seq<char> {
        "client,available,held,total,locked"@
    }

    /// The report that shows the accounts of `clients` in that order: the
    /// header, then one row for each.
    pub open spec fn report_of(self, clients: Seq<u16>) -> Seq<Seq<char>> {
        seq![Self::header()] + clients.map_values(|client: u16| self.accounts[client].row())
    }

    /// Whether `lines` is a report of the ledger: the header, then the row of
    /// every account, each once, in some order.
    pub open spec fn is_report(self, lines: Seq<Seq<char>>) -> bool {
        exists|clients: Seq<u16>|
            clients.no_duplicates() && clients.to_set() == self.accounts.dom() && lines
                == #[trigger] self.report_of(clients)
    }

    /// What becomes of `record`: it is refused where its amount has too many
    /// fractional digits or its account cannot take it, and applied
    /// otherwise.
    pub open spec fn outcome(self, record: Record) -> Result<(), RecordError> {
        if !record.precise() {
            Err(RecordError::ExcessPrecision)
        } else if !self.account(record.client).accepts(record.transaction()) {
            Err(RecordError::Overflow)
        } else {
            Ok(())
        }
    }

    /// The ledger after `record`. The account of the client exists from then
    /// on; it was offered the transaction where the amount of the record is
    /// precise enough, and is untouched where it is not.
    pub open spec fn process(self, record: Record) -> LedgerView {
        let account = self.account(record.client);
        LedgerView {
            accounts: self.accounts.insert(
                record.client,
                if record.precise() {
                    account.offer(record.transaction())
                } else {
                    account
                },
            ),
        }
    }
}

/// The accounts of all clients seen so far.
#[derive(Debug)]
pub struct Ledger {
    accounts: HashMap<u16, Account>,
}

impl View for Ledger {
    type V = LedgerView;

    closed spec fn view(&self) -> LedgerView {
        LedgerView { accounts: self.accounts@.map_values(|account: Account| account@) }
    }
}

impl Ledger {
    /// The invariant of a ledger: that of its view.
    pub open spec fn wf(&self) -> bool {
        self@.wf()
    }

    /// A ledger without accounts.
    pub fn new() -> (r: Ledger)
        ensures
            r@.accounts == Map::<u16, AccountView>::empty(),
            r.wf(),
    {
        Ledger { accounts: HashMap::new() }
    }

    /// Applies `record` to the account of its client, which is created if the
    /// client is new, and says why where the record was refused.
    pub fn process(&mut self, record: Record) -> (r: Result<(), RecordError>)
        requires
            old(self).wf(),
            record.wf(),
        ensures
            r == old(self)@.outcome(record),
            final(self)@ == old(self)@.process(record),
            final(self).wf(),
    {
        let ghost before = self@;
        let mut account = match self.accounts.remove(&record.client) {
            Some(account) => account,
            None => Account::new(record.client),
        };
        assert(account@ == before.account(record.client));
        let result = match record.to_transaction() {
            Ok(transaction) => {
                if account.try_add_transaction(transaction) {
                    Ok(())
                } else {
                    Err(RecordError::Overflow)
                }
            },
            Err(e) => Err(e),
        };
        self.accounts.insert(record.client, account);
        assert(self@.accounts =~= before.process(record).accounts);
        result
    }

    /// The account of `client`, if the client was seen.
    pub fn account(&self, client: u16) -> (r: Option<&Account>)
        ensures
            match r {
                Some(account) => self@.accounts.contains_key(client) && account@
                    == self@.accounts[client],
                None => !self@.accounts.contains_key(client),
            },
    {
        self.accounts.get(&client)
    }

    /// The report of the ledger, line by line: the header, then the row of
    /// every account, each once, in no particular order.
    pub fn report(&self) -> (r: Vec<String>)
        requires
            self.wf(),
        ensures
            self@.is_report(r@.map_values(|line: String| line@)),
    {
        let clients = self.clients();
        let mut lines: Vec<String> = Vec::new();
        lines.push(String::from_str("client,available,held,total,locked"));
        let mut i: usize = 0;
        while i < clients.len()
            invariant
                i <= clients.len(),
                self.wf(),
                clients@.to_set() == self@.accounts.dom(),
                lines@.map_values(|line: String| line@) == self@.report_of(clients@.take(i as int)),
            decreases clients.len() - i,
        {
            let client: u16 = clients[i];
            match self.account(client) {
                Some(account) => {
                    let ghost shown = lines@.map_values(|line: String| line@);
                    lines.push(account.to_string());
                    assert(self@.report_of(clients@.take(i + 1)) =~= shown.push(
                        self@.accounts[client].row(),
                    ));
                },
                None => {},
            }
            i = i + 1;
        }
        assert(clients@.take(clients.len() as int) =~= clients@);
        lines
    }

    /// The clients seen so far, each once, in no particular order.
    pub fn clients(&self) -> (r: Vec<u16>)
        ensures
            r@.no_duplicates(),
            r@.to_set() == self@.accounts.dom(),
    {
        let mut clients: Vec<u16> = Vec::new();
        let ghost keys = self.accounts.keys().remaining();
        for client in it: self.accounts.keys()
            invariant
                it.seq() == keys,
                clients@ == it.seq().take(it.index()).unref(),
        {
            clients.push(*client);
        }
        assert(keys.take(keys.len() as int) =~= keys);
        clients
    }
}

} // verus!
