use vstd::prelude::*;
use crate::identity::Address;

verus! {

/// One movement of funds that the token ledger is asked to make.
#[derive(Clone, Copy, Debug, PartialEq, Eq, Structural)]
pub struct Transfer {
    /// The token ledger that moves the funds.
    pub token: Address,
    /// The account that is debited.
    pub from: Address,
    /// The account that is credited.
    pub to: Address,
    /// How much is moved.
    pub amount: i128,
}

/// What the token ledger answered.
#[derive(Clone, Copy, Debug, PartialEq, Eq, Structural)]
pub enum TransferOutcome {
    /// Every requested transfer was made.
    Completed,
    /// The payer lacks the balance; nothing was moved.
    InsufficientFunds,
}

/// The sum of the amounts of a sequence of transfers.
pub open spec fn total_amount(transfers: Seq<Transfer>) -> int
    decreases transfers.len(),
{
    if transfers.len() == 0 {
        0
    } else {
        total_amount(transfers.drop_last()) + transfers.last().amount
    }
}

} // verus!
