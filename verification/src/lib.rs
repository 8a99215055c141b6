//! Yield redirection: a depositor's stable asset earns interest in a lending
//! venue, and on every later deposit or withdrawal a chosen percentage of the
//! accrued yield, never of the principal, goes to a charity.
//!
//! The crate holds the whole decision logic of the contract as verified code
//! over plain values: the yield-split arithmetic, the decimal wire format of
//! reply attributes, the ledger of pools, the entry points, the proxy handlers
//! and the reply handlers of each saga stage.

pub mod calc;
pub mod contract;
pub mod decimal;
pub mod error;
pub mod events;
pub mod execute;
pub mod helpers;
pub mod host;
pub mod internal_calls;
pub mod keys;
pub mod msg;
pub mod query;
pub mod replies;
pub mod response;
pub mod saga;
pub mod state;
pub mod text;

pub use crate::error::ContractError;
