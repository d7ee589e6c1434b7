//! A transaction engine: it folds a log of deposits, withdrawals, disputes,
//! resolves and chargebacks into one balance snapshot per client.
//!
//! `transaction` holds the records, the two tables and the processor of one
//! record; `batch` runs a whole log; `model` states the rules over
//! unbounded integers and maps; `laws` proves what holds of them for every
//! log.

pub mod batch;
pub mod error;
pub mod laws;
pub mod model;
pub mod transaction;

pub use crate::batch::{process_all, OnError};
pub use crate::error::Error;
pub use crate::transaction::{
    process_tx, ClientAccount, Tx, TxState, TxStateType, TxType, UNITS_PER_WHOLE,
};
