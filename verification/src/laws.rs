use vstd::prelude::*;
use crate::error::Error;
use crate::identity::Address;
use crate::ledger::LedgerView;
use crate::operation::Operation;
use crate::state::{may_follow, rank, RoyaltiesState};
use crate::transfer::{total_amount, Transfer, TransferOutcome};

verus! {

/// Every operation keeps the ledger well formed and moves the lifecycle
/// along its path: the state stays, goes one step forward, or restarts from
/// `Finished` to `Active`. It goes back only by that restart, which only
/// `start_distribution` makes.
pub proof fn lifecycle_step(s: LedgerView, op: Operation)
    requires
        s.wf(),
    ensures
        s.step(op).wf(),
        may_follow(s.state, s.step(op).state),
        rank(s.step(op).state) < rank(s.state) ==> {
            &&& op is StartDistribution
            &&& s.state == Some(RoyaltiesState::Finished)
            &&& s.step(op).state == Some(RoyaltiesState::Active)
        },
        s.step(op).custodian == s.custodian,
        s.state is Some ==> s.step(op).admin == s.admin && s.step(op).token == s.token,
{
}

/// Over any sequence of operations the ledger stays well formed, an
/// initialized ledger stays initialized, and a ledger that has left
/// `Initialized` never comes back to it.
pub proof fn lifecycle_run(s: LedgerView, ops: Seq<Operation>)
    requires
        s.wf(),
    ensures
        s.run(ops).wf(),
        rank(s.state) >= 1 ==> rank(s.run(ops).state) >= 1,
        rank(s.state) >= 2 ==> rank(s.run(ops).state) >= 2,
        s.run(ops).custodian == s.custodian,
        s.state is Some ==> s.run(ops).admin == s.admin && s.run(ops).token == s.token,
    decreases ops.len(),
{
    if ops.len() > 0 {
        lifecycle_run(s, ops.drop_last());
        lifecycle_step(s.run(ops.drop_last()), ops.last());
    }
}

/// Each record changes only by its own operations: a registry only by the
/// admin adding to its end, the pool only by a contribution or a
/// distribution, and the pool never falls below zero.
pub proof fn records_change_by_their_operations(s: LedgerView, op: Operation)
    requires
        s.wf(),
    ensures
        s.step(op).artists != s.artists ==> {
            &&& op matches Operation::AddArtist { caller, artist }
            &&& s.admin == Some(caller)
            &&& s.step(op).artists == s.artists.push(artist)
        },
        s.step(op).listeners != s.listeners ==> {
            &&& op matches Operation::AddListener { caller, listener }
            &&& s.admin == Some(caller)
            &&& s.step(op).listeners == s.listeners.push(listener)
        },
        s.step(op).royalties_pool != s.royalties_pool ==> op is Contribute
            || op is DistributeRoyalties,
        s.step(op).royalties_pool >= 0,
{
}

/// Over any sequence of operations the registries only grow at their end:
/// what was registered stays registered, in its place.
pub proof fn registries_only_grow(s: LedgerView, ops: Seq<Operation>)
    requires
        s.wf(),
    ensures
        s.artists.is_prefix_of(s.run(ops).artists),
        s.listeners.is_prefix_of(s.run(ops).listeners),
    decreases ops.len(),
{
    if ops.len() > 0 {
        let before = s.run(ops.drop_last());
        registries_only_grow(s, ops.drop_last());
        lifecycle_run(s, ops.drop_last());
        records_change_by_their_operations(before, ops.last());
    }
}

/// No operation answers with one of the two errors that are kept for later
/// use.
pub proof fn reserved_errors_stay_unused(s: LedgerView, op: Operation)
    ensures
        s.answer(op) != Err::<(), Error>(Error::InvalidListenerAddress),
        s.answer(op) != Err::<(), Error>(Error::InvalidRoyaltiesPercentage),
{
}

/// `init` succeeds once. After it has, and whatever operations follow, every
/// further `init` fails with `AlreadyInitialized` and changes nothing, and
/// admin and token are those of the first call.
pub proof fn init_once(
    s: LedgerView,
    caller: Address,
    admin: Address,
    token: Address,
    ops: Seq<Operation>,
    again: Operation,
)
    requires
        s.wf(),
        s.init_result(caller, admin) is Ok,
        again is Init,
    ensures
        s.initialized(admin, token).run(ops).answer(again) == Err::<(), Error>(
            Error::AlreadyInitialized,
        ),
        s.initialized(admin, token).run(ops).step(again) == s.initialized(admin, token).run(ops),
        s.initialized(admin, token).run(ops).admin == Some(admin),
        s.initialized(admin, token).run(ops).token == Some(token),
{
    lifecycle_run(s.initialized(admin, token), ops);
}

/// Only the admin on record registers participants and moves the lifecycle:
/// each of the four privileged operations succeeds only for the admin, and
/// on an initialized ledger fails with `Unauthorized` for anyone else.
pub proof fn only_admin(s: LedgerView, caller: Address)
    requires
        s.wf(),
    ensures
        s.register_result(caller) is Ok ==> s.admin == Some(caller),
        s.start_result(caller) is Ok ==> s.admin == Some(caller),
        s.stop_result(caller) is Ok ==> s.admin == Some(caller),
        s.admin is Some && s.admin != Some(caller) ==> {
            &&& s.register_result(caller) == Err::<(), Error>(Error::Unauthorized)
            &&& s.start_result(caller) == Err::<(), Error>(Error::Unauthorized)
            &&& s.stop_result(caller) == Err::<(), Error>(Error::Unauthorized)
        },
{
}

/// A contribution that succeeds was a transfer of exactly `amount` from the
/// caller to the custodian, and raises the pool by exactly `amount`; nothing
/// else changes. One that fails changes nothing.
pub proof fn contribution_is_exact(
    s: LedgerView,
    caller: Address,
    amount: i128,
    outcome: TransferOutcome,
)
    requires
        s.wf(),
    ensures
        ({
            let op = Operation::Contribute { caller, amount, outcome };
            &&& s.answer(op) is Ok ==> {
                &&& outcome == TransferOutcome::Completed
                &&& amount > 0
                &&& s.contribution(caller, amount) == Ok::<Transfer, Error>(
                    Transfer { token: s.token->0, from: caller, to: s.custodian, amount },
                )
                &&& s.step(op).royalties_pool == s.royalties_pool + amount
                &&& s.step(op) == s.with_pool(s.step(op).royalties_pool)
            }
            &&& s.answer(op) is Err ==> s.step(op) == s
        }),
{
}

/// Without artists nothing is distributed: the call fails, with
/// `InvalidArtistAddress` on an active ledger, and the ledger, its pool
/// included, stays as it was.
pub proof fn no_artists_no_distribution(s: LedgerView, outcome: TransferOutcome)
    requires
        s.wf(),
        s.artists.len() == 0,
    ensures
        s.distribute_result(outcome) is Err,
        s.state == Some(RoyaltiesState::Active) ==> s.distribute_result(outcome) == Err::<
            (),
            Error,
        >(Error::InvalidArtistAddress),
        s.step(Operation::DistributeRoyalties { outcome }) == s,
{
}

/// A sequence of transfers of one amount each sums to that amount times the
/// length.
pub proof fn total_of_equal_amounts(transfers: Seq<Transfer>, amount: int)
    requires
        forall|k: int| 0 <= k < transfers.len() ==> (#[trigger] transfers[k]).amount == amount,
    ensures
        total_amount(transfers) == transfers.len() * amount,
    decreases transfers.len(),
{
    if transfers.len() > 0 {
        total_of_equal_amounts(transfers.drop_last(), amount);
        assert(transfers.len() * amount == (transfers.len() - 1) * amount + amount)
            by (nonlinear_arith);
    }
}

/// A distribution that succeeds pays each artist, in the order of the
/// registry, the pool divided by the number of artists and rounded down. The
/// payments sum to no more than the pool, fall short of it by less than one
/// unit per artist, and the pool is empty afterwards.
pub proof fn distribution_is_equal_split(s: LedgerView, outcome: TransferOutcome)
    requires
        s.wf(),
        s.royalties_pool <= i128::MAX,
        s.distribute_result(outcome) is Ok,
    ensures
        s.artists.len() > 0,
        s.distribution().len() == s.artists.len(),
        forall|k: int|
            0 <= k < s.artists.len() ==> #[trigger] s.distribution()[k] == (Transfer {
                token: s.token->0,
                from: s.custodian,
                to: s.artists[k],
                amount: (s.royalties_pool / (s.artists.len() as int)) as i128,
            }),
        forall|k: int|
            0 <= k < s.artists.len() ==> (#[trigger] s.distribution()[k]).amount
                == s.royalties_pool / (s.artists.len() as int),
        total_amount(s.distribution()) == s.artists.len() * (s.royalties_pool / (
        s.artists.len() as int)),
        total_amount(s.distribution()) <= s.royalties_pool,
        s.royalties_pool - total_amount(s.distribution()) < s.artists.len(),
        s.step(Operation::DistributeRoyalties { outcome }).royalties_pool == 0,
        s.step(Operation::DistributeRoyalties { outcome }) == s.with_pool(0),
{
    let n = s.artists.len() as int;
    let p = s.royalties_pool;
    assert(0 <= p / n <= p && n * (p / n) <= p && p - n * (p / n) < n) by (nonlinear_arith)
        requires
            n > 0,
            p >= 0,
    ;
    total_of_equal_amounts(s.distribution(), p / n);
}

/// Royalties are distributed only while the ledger is active: in
/// `Initialized` and in `Finished` the call fails with `NotActive` and
/// changes nothing.
pub proof fn distribution_needs_active(s: LedgerView, outcome: TransferOutcome)
    requires
        s.wf(),
        s.state == Some(RoyaltiesState::Initialized) || s.state == Some(RoyaltiesState::Finished),
    ensures
        s.distribute_result(outcome) == Err::<(), Error>(Error::NotActive),
        s.step(Operation::DistributeRoyalties { outcome }) == s,
{
}

} // verus!
