//! What holds of the bridge over whole runs of operations.
//!
//! A run is a sequence of requests, each applied to what the one before it
//! left: an accepted request changes the state as its operation says, a
//! rejected one leaves it as it was.

use crate::error::BridgeError;
use crate::operations::{lock_rejection, release_rejection, released, ReleaseView};
use crate::registry::{has_record, lemma_push_keeps_well_formed, well_formed};
use crate::state::{BridgeState, MAX_SINGLE_TX};
use anchor_lang::prelude::Pubkey;
use vstd::prelude::*;

verus! {

/// What a caller asks for in one lock.
pub struct LockRequest {
    pub amount: u64,
    pub destination_address: Seq<char>,
}

/// What a caller asks for in one release.
pub struct ReleaseRequest {
    pub amount: u64,
    pub evm_tx_hash: Seq<char>,
    pub recipient: Pubkey,
    pub timestamp: i64,
}

/// The bridge's record after one lock request.
pub open spec fn after_lock(state: BridgeState, request: LockRequest) -> BridgeState {
    if lock_rejection(state, request.amount, request.destination_address) is None {
        state.plus(request.amount)
    } else {
        state
    }
}

/// The bridge's record after the lock requests of `requests`, in order.
pub open spec fn after_locks(state: BridgeState, requests: Seq<LockRequest>) -> BridgeState
    decreases requests.len(),
{
    if requests.len() == 0 {
        state
    } else {
        after_lock(after_locks(state, requests.drop_last()), requests.last())
    }
}

/// Whether each lock request of `requests` is accepted in its turn.
pub open spec fn all_locks_accepted(state: BridgeState, requests: Seq<LockRequest>) -> bool
    decreases requests.len(),
{
    requests.len() == 0 || (all_locks_accepted(state, requests.drop_last()) && lock_rejection(
        after_locks(state, requests.drop_last()),
        requests.last().amount,
        requests.last().destination_address,
    ) is None)
}

/// The amounts of `requests`, added up.
pub open spec fn sum_of_amounts(requests: Seq<LockRequest>) -> int
    decreases requests.len(),
{
    if requests.len() == 0 {
        0
    } else {
        sum_of_amounts(requests.drop_last()) + requests.last().amount
    }
}

/// After any run of locks that were all accepted, the locked total is what
/// it was before plus the exact sum of the amounts locked, and the admin is
/// who it was.
pub proof fn lemma_locked_total_is_sum_of_locks(state: BridgeState, requests: Seq<LockRequest>)
    requires
        all_locks_accepted(state, requests),
    ensures
        after_locks(state, requests).total_locked == state.total_locked + sum_of_amounts(requests),
        after_locks(state, requests).admin == state.admin,
        after_locks(state, requests).bump == state.bump,
    decreases requests.len(),
{
    if requests.len() > 0 {
        lemma_locked_total_is_sum_of_locks(state, requests.drop_last());
    }
}

/// The context after one release request.
pub open spec fn after_release(ctx: ReleaseView, request: ReleaseRequest) -> ReleaseView {
    if release_rejection(ctx, request.amount, request.evm_tx_hash) is None {
        released(ctx, request.amount, request.evm_tx_hash, request.recipient, request.timestamp)
    } else {
        ctx
    }
}

/// The context after the release requests of `requests`, in order.
pub open spec fn after_releases(ctx: ReleaseView, requests: Seq<ReleaseRequest>) -> ReleaseView
    decreases requests.len(),
{
    if requests.len() == 0 {
        ctx
    } else {
        after_release(after_releases(ctx, requests.drop_last()), requests.last())
    }
}

/// The outcome of the release request at `index` of `requests`: the error
/// with which it is rejected in its turn, or `None` if it is accepted.
pub open spec fn outcome_at(ctx: ReleaseView, requests: Seq<ReleaseRequest>, index: int) -> Option<
    BridgeError,
> {
    release_rejection(
        after_releases(ctx, requests.take(index)),
        requests[index].amount,
        requests[index].evm_tx_hash,
    )
}

/// How many release requests of `requests` on account of the foreign
/// transaction `evm_tx_hash` are accepted.
pub open spec fn accepted_releases(
    ctx: ReleaseView,
    requests: Seq<ReleaseRequest>,
    evm_tx_hash: Seq<char>,
) -> nat
    decreases requests.len(),
{
    if requests.len() == 0 {
        0
    } else {
        let earlier = accepted_releases(ctx, requests.drop_last(), evm_tx_hash);
        if requests.last().evm_tx_hash == evm_tx_hash && release_rejection(
            after_releases(ctx, requests.drop_last()),
            requests.last().amount,
            requests.last().evm_tx_hash,
        ) is None {
            earlier + 1
        } else {
            earlier
        }
    }
}

/// A release on account of a foreign transaction that is on record is
/// rejected: as already processed, unless the caller is not the admin or the
/// amount is out of range, which is found first.
pub proof fn lemma_processed_transaction_is_rejected(ctx: ReleaseView, request: ReleaseRequest)
    requires
        has_record(ctx.registry, request.evm_tx_hash),
    ensures
        release_rejection(ctx, request.amount, request.evm_tx_hash) is Some,
        after_release(ctx, request) == ctx,
        ctx.admin.key == ctx.bridge_state.admin && 0 < request.amount <= MAX_SINGLE_TX
            ==> release_rejection(ctx, request.amount, request.evm_tx_hash) == Some(
            BridgeError::TransactionAlreadyProcessed,
        ),
{
}

/// An accepted release puts its foreign transaction on record, once: the
/// registry stays well formed and loses no record, the admin stays who it
/// was, and the locked total goes down by the amount, not below zero.
pub proof fn lemma_accepted_release_is_recorded(ctx: ReleaseView, request: ReleaseRequest)
    requires
        well_formed(ctx.registry),
        release_rejection(ctx, request.amount, request.evm_tx_hash) is None,
    ensures
        has_record(after_release(ctx, request).registry, request.evm_tx_hash),
        well_formed(after_release(ctx, request).registry),
        after_release(ctx, request).registry.len() == ctx.registry.len() + 1,
        after_release(ctx, request).registry.take(ctx.registry.len() as int) == ctx.registry,
        after_release(ctx, request).bridge_state.admin == ctx.bridge_state.admin,
        after_release(ctx, request).bridge_state.total_locked == ctx.bridge_state.total_locked
            - request.amount,
        after_release(ctx, request).bridge_state.total_locked >= 0,
{
    let record = after_release(ctx, request).registry.last();
    lemma_push_keeps_well_formed(ctx.registry, record);
    assert(after_release(ctx, request).registry.take(ctx.registry.len() as int) =~= ctx.registry);
}

/// No release removes or alters a record: what is on record before a run of
/// releases is on record after it, at the same place.
pub proof fn lemma_records_persist(ctx: ReleaseView, requests: Seq<ReleaseRequest>)
    ensures
        after_releases(ctx, requests).registry.len() >= ctx.registry.len(),
        after_releases(ctx, requests).registry.take(ctx.registry.len() as int) == ctx.registry,
        forall|evm_tx_hash: Seq<char>| #[trigger]
            has_record(ctx.registry, evm_tx_hash) ==> has_record(
                after_releases(ctx, requests).registry,
                evm_tx_hash,
            ),
        well_formed(ctx.registry) ==> well_formed(after_releases(ctx, requests).registry),
    decreases requests.len(),
{
    let after = after_releases(ctx, requests).registry;
    if requests.len() == 0 {
        assert(after.take(ctx.registry.len() as int) =~= ctx.registry);
    } else {
        let before = after_releases(ctx, requests.drop_last());
        lemma_records_persist(ctx, requests.drop_last());
        assert(after.take(ctx.registry.len() as int) =~= before.registry.take(
            ctx.registry.len() as int,
        ));
        if well_formed(ctx.registry) && release_rejection(
            before,
            requests.last().amount,
            requests.last().evm_tx_hash,
        ) is None {
            lemma_accepted_release_is_recorded(before, requests.last());
        }
        assert forall|evm_tx_hash: Seq<char>| #[trigger]
            has_record(ctx.registry, evm_tx_hash) implies has_record(after, evm_tx_hash) by {
            let i = choose|i: int|
                0 <= i < ctx.registry.len() && (#[trigger] ctx.registry[i]).evm_tx_hash
                    == evm_tx_hash;
            assert(after[i] == after.take(ctx.registry.len() as int)[i]);
        }
    }
}

/// In any run of releases, at most one release on account of a given
/// foreign transaction is accepted, and none if the transaction was on
/// record before the run. Once one is accepted the transaction is on record.
pub proof fn lemma_released_at_most_once(
    ctx: ReleaseView,
    requests: Seq<ReleaseRequest>,
    evm_tx_hash: Seq<char>,
)
    ensures
        accepted_releases(ctx, requests, evm_tx_hash) <= 1,
        has_record(ctx.registry, evm_tx_hash) ==> accepted_releases(ctx, requests, evm_tx_hash)
            == 0,
        accepted_releases(ctx, requests, evm_tx_hash) == 1 ==> has_record(
            after_releases(ctx, requests).registry,
            evm_tx_hash,
        ),
    decreases requests.len(),
{
    if requests.len() > 0 {
        let earlier = requests.drop_last();
        let before = after_releases(ctx, earlier);
        lemma_released_at_most_once(ctx, earlier, evm_tx_hash);
        lemma_records_persist(ctx, earlier);
        if release_rejection(before, requests.last().amount, requests.last().evm_tx_hash) is None {
            let after = after_release(before, requests.last());
            assert(after.registry.last().evm_tx_hash == requests.last().evm_tx_hash);
            if has_record(before.registry, evm_tx_hash) {
                let i = choose|i: int|
                    0 <= i < before.registry.len() && (#[trigger] before.registry[i]).evm_tx_hash
                        == evm_tx_hash;
                assert(after.registry[i] == before.registry[i]);
            }
        }
    }
}

/// Whether the request at `index` is the one release that the run of
/// `requests` made: every request before it was rejected and left the
/// context as it was, this one was accepted, and every request after it was
/// rejected, as already processed unless the caller is not the admin or the
/// amount is out of range, which is found first. The run then leaves the
/// context as this one release alone leaves it.
pub open spec fn is_the_one_release(
    ctx: ReleaseView,
    requests: Seq<ReleaseRequest>,
    index: int,
) -> bool {
    &&& 0 <= index < requests.len()
    &&& after_releases(ctx, requests.take(index)) == ctx
    &&& outcome_at(ctx, requests, index) is None
    &&& after_releases(ctx, requests) == after_release(ctx, requests[index])
    &&& forall|j: int|
        index < j < requests.len() ==> (#[trigger] outcome_at(ctx, requests, j)) is Some
    &&& forall|j: int|
        index < j < requests.len() && ctx.admin.key == ctx.bridge_state.admin && 0
            < requests[j].amount <= MAX_SINGLE_TX ==> #[trigger] outcome_at(ctx, requests, j)
            == Some(BridgeError::TransactionAlreadyProcessed)
}

/// Of a run of release requests that are all on account of one foreign
/// transaction, at most one is accepted. If none is, the run changes
/// nothing. If one is, the accounts, the locked total and the registry show
/// exactly that one release, and every later request is rejected.
pub proof fn lemma_one_release_per_transaction(
    ctx: ReleaseView,
    requests: Seq<ReleaseRequest>,
    evm_tx_hash: Seq<char>,
)
    requires
        forall|i: int|
            0 <= i < requests.len() ==> (#[trigger] requests[i]).evm_tx_hash == evm_tx_hash,
    ensures
        accepted_releases(ctx, requests, evm_tx_hash) <= 1,
        accepted_releases(ctx, requests, evm_tx_hash) == 0 ==> after_releases(ctx, requests) == ctx,
        accepted_releases(ctx, requests, evm_tx_hash) == 1 ==> exists|index: int|
            is_the_one_release(ctx, requests, index),
    decreases requests.len(),
{
    lemma_released_at_most_once(ctx, requests, evm_tx_hash);
    if requests.len() > 0 {
        let earlier = requests.drop_last();
        let last = requests.len() - 1;
        lemma_one_release_per_transaction(ctx, earlier, evm_tx_hash);
        lemma_released_at_most_once(ctx, earlier, evm_tx_hash);
        assert(requests.take(last) == earlier);
        assert forall|j: int| 0 <= j < last implies #[trigger] outcome_at(ctx, earlier, j)
            == outcome_at(ctx, requests, j) by {
            assert(earlier.take(j) == requests.take(j));
        }
        if accepted_releases(ctx, earlier, evm_tx_hash) == 1 {
            let index = choose|index: int| is_the_one_release(ctx, earlier, index);
            lemma_processed_transaction_is_rejected(after_releases(ctx, earlier), requests.last());
            assert(earlier.take(index) == requests.take(index));
            assert forall|j: int| index < j < requests.len() implies (#[trigger] outcome_at(
                ctx,
                requests,
                j,
            )) is Some by {
                if j < last {
                    assert(outcome_at(ctx, earlier, j) is Some);
                }
            }
            assert forall|j: int|
                index < j < requests.len() && ctx.admin.key == ctx.bridge_state.admin && 0
                    < requests[j].amount <= MAX_SINGLE_TX implies #[trigger] outcome_at(
                ctx,
                requests,
                j,
            ) == Some(BridgeError::TransactionAlreadyProcessed) by {
                if j < last {
                    assert(outcome_at(ctx, earlier, j) == Some(
                        BridgeError::TransactionAlreadyProcessed,
                    ));
                }
            }
            assert(is_the_one_release(ctx, requests, index));
        } else if accepted_releases(ctx, requests, evm_tx_hash) == 1 {
            assert(is_the_one_release(ctx, requests, last));
        }
    }
}

} // verus!
