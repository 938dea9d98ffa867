use vstd::prelude::*;

verus! {

/// The phase of the ledger. A ledger without a state has not been
/// initialized.
#[derive(Clone, Copy, Debug, PartialEq, Eq, Structural)]
pub enum RoyaltiesState {
    Initialized,
    Active,
    Finished,
}

/// How far along the lifecycle a state is: 0 before initialization, then 1,
/// 2 and 3 for `Initialized`, `Active` and `Finished`.
pub open spec fn rank(state: Option<RoyaltiesState>) -> nat {
    match state {
        None => 0,
        Some(RoyaltiesState::Initialized) => 1,
        Some(RoyaltiesState::Active) => 2,
        Some(RoyaltiesState::Finished) => 3,
    }
}

/// The moves of the lifecycle: staying in place, one step forward, and the
/// restart from `Finished` to `Active`.
pub open spec fn may_follow(before: Option<RoyaltiesState>, after: Option<RoyaltiesState>) -> bool {
    ||| after == before
    ||| rank(after) == rank(before) + 1
    ||| (before == Some(RoyaltiesState::Finished) && after == Some(RoyaltiesState::Active))
}

} // verus!
