//! A ledger of client accounts that folds deposits, withdrawals, disputes,
//! resolutions and chargebacks into per-account balances.
//!
//! Amounts are exact decimals. Every balance change is stated over the
//! mathematical value of the amounts involved, and the state machine that
//! decides what a dispute, resolution or chargeback does is stated over the
//! recorded history of the transaction it refers to.

pub mod amount;
pub mod text;
pub mod transaction;
pub mod account;
pub mod laws;
pub mod ledger;

pub use account::{Account, AccountView};
pub use amount::Amount;
pub use ledger::{Ledger, LedgerView, Record, RecordError};
pub use transaction::{
    Transaction, TransactionAction, TransactionState, TransactionType, TransactionView,
};
