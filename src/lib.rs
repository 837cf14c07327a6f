//! Assembles ledger transactions: identity and routing fields, an ordered list of actions,
//! and a signature over the transaction's hash.
mod ledger;
pub mod action;
pub mod builder;
pub mod signing;

pub use action::{Operation, OperationView};
pub use builder::{RecordView, SignedTransactionRecord, TransactionBuilder, TransactionRecord};
pub use signing::{can_sign, SigningError};
