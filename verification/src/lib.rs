//! A royalties-distribution ledger.
//!
//! The ledger tracks a pool of contributed funds, a registry of artists who
//! are paid from it, a registry of listeners who pay into it, and a lifecycle
//! state that says when the pool may be paid out. It decides; it never moves
//! funds itself. Every movement of value is described as a [`Transfer`] that
//! the host hands to the token ledger, and the answer of the token ledger is
//! handed back to the operation that settles the books.

pub mod error;
pub mod identity;
pub mod laws;
pub mod ledger;
pub mod operation;
pub mod state;
pub mod transfer;

pub use error::Error;
pub use identity::Address;
pub use ledger::{LedgerView, RoyaltiesContract};
pub use operation::Operation;
pub use state::RoyaltiesState;
pub use transfer::{Transfer, TransferOutcome};
