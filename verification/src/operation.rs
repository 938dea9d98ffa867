use vstd::prelude::*;
use crate::error::Error;
use crate::identity::Address;
use crate::ledger::{LedgerView, RoyaltiesContract};
use crate::state::RoyaltiesState;
use crate::transfer::TransferOutcome;

verus! {

/// One call of the ledger as a value: the operation, who called it, and, for
/// the two operations that move funds, what the token ledger answered.
#[derive(Clone, Copy, Debug, PartialEq, Eq, Structural)]
pub enum Operation {
    Init { caller: Address, admin: Address, token: Address },
    AddArtist { caller: Address, artist: Address },
    AddListener { caller: Address, listener: Address },
    StartDistribution { caller: Address },
    StopDistribution { caller: Address },
    Contribute { caller: Address, amount: i128, outcome: TransferOutcome },
    DistributeRoyalties { outcome: TransferOutcome },
}

impl LedgerView {
    /// What the operation answers on this ledger.
    pub open spec fn answer(self, op: Operation) -> Result<(), Error> {
        match op {
            Operation::Init { caller, admin, token } => self.init_result(caller, admin),
            Operation::AddArtist { caller, artist } => self.register_result(caller),
            Operation::AddListener { caller, listener } => self.register_result(caller),
            Operation::StartDistribution { caller } => self.start_result(caller),
            Operation::StopDistribution { caller } => self.stop_result(caller),
            Operation::Contribute { caller, amount, outcome } => self.contribute_result(
                caller,
                amount,
                outcome,
            ),
            Operation::DistributeRoyalties { outcome } => self.distribute_result(outcome),
        }
    }

    /// What the operation makes of this ledger where it succeeds.
    pub open spec fn effect(self, op: Operation) -> LedgerView {
        match op {
            Operation::Init { caller, admin, token } => self.initialized(admin, token),
            Operation::AddArtist { caller, artist } => self.with_artist(artist),
            Operation::AddListener { caller, listener } => self.with_listener(listener),
            Operation::StartDistribution { caller } => self.with_state(RoyaltiesState::Active),
            Operation::StopDistribution { caller } => self.with_state(RoyaltiesState::Finished),
            Operation::Contribute { caller, amount, outcome } => self.with_pool(
                self.royalties_pool + amount,
            ),
            Operation::DistributeRoyalties { outcome } => self.with_pool(0),
        }
    }

    /// The ledger after the operation: its effect where it succeeds, the
    /// ledger itself where it fails.
    pub open spec fn step(self, op: Operation) -> LedgerView {
        if self.answer(op) is Ok {
            self.effect(op)
        } else {
            self
        }
    }

    /// The ledger after a sequence of operations, one after the other.
    pub open spec fn run(self, ops: Seq<Operation>) -> LedgerView
        decreases ops.len(),
    {
        if ops.len() == 0 {
            self
        } else {
            self.run(ops.drop_last()).step(ops.last())
        }
    }
}

impl RoyaltiesContract {
    /// Whether the ledger can take the operation: a contribution must leave
    /// the pool within the range of an amount.
    pub open spec fn admits(&self, op: Operation) -> bool {
        match op {
            Operation::Contribute { caller, amount, outcome } => self@.royalties_pool + amount
                <= i128::MAX,
            _ => true,
        }
    }

    /// Performs one operation given as a value.
    pub fn apply(&mut self, op: Operation) -> (r: Result<(), Error>)
        requires
            old(self).wf(),
            old(self).admits(op),
        ensures
            final(self).wf(),
            r == old(self)@.answer(op),
            final(self)@ == old(self)@.step(op),
    {
        match op {
            Operation::Init { caller, admin, token } => self.init(caller, admin, token),
            Operation::AddArtist { caller, artist } => self.add_artist(caller, artist),
            Operation::AddListener { caller, listener } => self.add_listener(caller, listener),
            Operation::StartDistribution { caller } => self.start_distribution(caller),
            Operation::StopDistribution { caller } => self.stop_distribution(caller),
            Operation::Contribute { caller, amount, outcome } => self.contribute(
                caller,
                amount,
                outcome,
            ),
            Operation::DistributeRoyalties { outcome } => self.distribute_royalties(outcome),
        }
    }
}

} // verus!
