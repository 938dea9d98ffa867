use vstd::prelude::*;

verus! {

/// Every way in which an operation of the ledger can fail.
#[derive(Clone, Copy, Debug, PartialEq, Eq, Structural, PartialOrd, Ord)]
pub enum Error {
    /// `init` was called on a ledger that already has a lifecycle state.
    AlreadyInitialized,
    /// The operation reads a record that only `init` writes, and `init` has
    /// not run.
    NotInitialized,
    /// `start_distribution` was called while distribution is active.
    AlreadyActive,
    /// `stop_distribution` or `distribute_royalties` was called while
    /// distribution is not active.
    NotActive,
    /// The token ledger refused a transfer.
    InsufficientFunds,
    /// There is no artist to pay.
    InvalidArtistAddress,
    /// Kept for validation of listeners; no operation returns it.
    InvalidListenerAddress,
    /// Kept for percentage-based splits; no operation returns it.
    InvalidRoyaltiesPercentage,
    /// The caller is not the identity that the operation demands.
    Unauthorized,
}

} // verus!
