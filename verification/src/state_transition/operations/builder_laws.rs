//! What builder deposits keep and what they change.
use crate::constants::{FAR_FUTURE_EPOCH, MIN_BUILDER_WITHDRAWABILITY_DELAY};
use crate::containers::{BeaconStateView, Builder, BuilderDepositRequest};
use crate::primitives::{BLSPubkey, Bytes32, Epoch, Gwei};
use crate::state_transition::operations::deposits;
use vstd::prelude::*;

verus! {

/// The sum of builders' balances.
pub open spec fn total_stake(builders: Seq<Builder>) -> int
    decreases builders.len(),
{
    if builders.len() == 0 {
        0
    } else {
        total_stake(builders.drop_last()) + builders.last().balance.0
    }
}

/// Whether no two builders share a key.
pub open spec fn has_unique_builders(state: BeaconStateView) -> bool {
    forall|i: int, j: int|
        0 <= i < j < state.builders.len() ==> (#[trigger] state.builders[i]).pubkey != (
        #[trigger] state.builders[j]).pubkey
}

/// What the sum of balances becomes when one builder is replaced.
proof fn lemma_total_stake_update(builders: Seq<Builder>, index: int, builder: Builder)
    requires
        0 <= index < builders.len(),
    ensures
        total_stake(builders.update(index, builder)) == total_stake(builders)
            - builders[index].balance.0 + builder.balance.0,
    decreases builders.len(),
{
    let updated = builders.update(index, builder);
    if index == builders.len() - 1 {
        assert(updated.drop_last() =~= builders.drop_last());
    } else {
        assert(updated.drop_last() =~= builders.drop_last().update(index, builder));
        lemma_total_stake_update(builders.drop_last(), index, builder);
    }
}

/// Registering a builder changes one place of the registry and no other: a
/// builder that still has stake, or has not left yet, keeps its index. The
/// registry grows, by one, exactly where no place can be reused.
pub proof fn law_registration_keeps_indices(
    state: BeaconStateView,
    pubkey: BLSPubkey,
    withdrawal_credentials: Bytes32,
    amount: Gwei,
)
    ensures
        ({
            let after = state.with_builder(pubkey, withdrawal_credentials, amount);
            &&& forall|i: int|
                0 <= i < state.builders.len() && !deposits::is_reusable(
                    #[trigger] state.builders[i],
                    state.epoch(),
                ) ==> after.builders[i] == state.builders[i]
            &&& forall|i: int|
                0 <= i < state.builders.len() && i != state.new_builder_index()
                    ==> #[trigger] after.builders[i] == state.builders[i]
            &&& after.builders[state.new_builder_index()] == deposits::new_builder(
                pubkey,
                withdrawal_credentials,
                amount,
                state.epoch(),
            )
            &&& if exists|i: int|
                0 <= i < state.builders.len() && deposits::is_reusable(
                    #[trigger] state.builders[i],
                    state.epoch(),
                ) {
                after.builders.len() == state.builders.len()
            } else {
                after.builders.len() == state.builders.len() + 1
            }
        }),
{
    deposits::lemma_new_builder_index(state);
}

/// A builder that has just been registered has not left, so its place is not
/// up for reuse, whatever its balance.
pub proof fn law_new_builder_is_not_reusable(
    state: BeaconStateView,
    pubkey: BLSPubkey,
    withdrawal_credentials: Bytes32,
    amount: Gwei,
)
    ensures
        !deposits::is_reusable(
            deposits::new_builder(pubkey, withdrawal_credentials, amount, state.epoch()),
            state.epoch(),
        ),
{
}

/// A top-up changes the balance and the withdrawable epoch of one builder, and
/// nothing else of it.
pub proof fn law_top_up_keeps_identity(builder: Builder, amount: Gwei, epoch: Epoch)
    ensures
        ({
            let after = deposits::topped_up(builder, amount, epoch);
            &&& after.pubkey == builder.pubkey
            &&& after.version == builder.version
            &&& after.execution_address == builder.execution_address
            &&& after.deposit_epoch == builder.deposit_epoch
        }),
{
}

/// New stake is not paid out at once: after a top-up, a builder that had begun
/// to leave waits the whole delay from the current epoch, and still leaves; one
/// that had not stays.
pub proof fn law_top_up_defers_withdrawal(state: BeaconStateView, builder: Builder, amount: Gwei)
    ensures
        ({
            let after = deposits::topped_up(builder, amount, state.epoch());
            &&& if builder.withdrawable_epoch.0 == FAR_FUTURE_EPOCH {
                after.withdrawable_epoch == builder.withdrawable_epoch
            } else {
                &&& after.withdrawable_epoch.0 == state.epoch().0
                    + MIN_BUILDER_WITHDRAWABILITY_DELAY
                &&& after.withdrawable_epoch.0 != FAR_FUTURE_EPOCH
            }
            &&& after.withdrawable_epoch.0 > state.epoch().0
            &&& !deposits::is_reusable(after, state.epoch())
        }),
{
}

/// A top-up never brings the withdrawal of a builder forward, where that
/// builder waits no longer than the delay.
pub proof fn law_top_up_never_hastens(state: BeaconStateView, builder: Builder, amount: Gwei)
    requires
        builder.withdrawable_epoch.0 == FAR_FUTURE_EPOCH || builder.withdrawable_epoch.0
            <= state.epoch().0 + MIN_BUILDER_WITHDRAWABILITY_DELAY,
    ensures
        builder.withdrawable_epoch.0 <= deposits::topped_up(
            builder,
            amount,
            state.epoch(),
        ).withdrawable_epoch.0,
{
}

/// Only a builder's first deposit has to carry a valid signature: for a
/// registered key, what comes of a request does not depend on it.
pub proof fn law_registered_builder_needs_no_signature(
    state: BeaconStateView,
    request: BuilderDepositRequest,
)
    requires
        state.has_builder(request.pubkey),
    ensures
        state.after_builder_deposit(request, true) == state.after_builder_deposit(request, false),
{
}

/// An unregistered key's request without a valid signature changes nothing.
pub proof fn law_unsigned_builder_request_is_dropped(
    state: BeaconStateView,
    request: BuilderDepositRequest,
)
    requires
        !state.has_builder(request.pubkey),
    ensures
        state.after_builder_deposit(request, false) == Ok::<_, crate::error::TransitionError>(
            state,
        ),
{
}

/// No stake is lost or made: a request that is not dropped or refused adds its
/// amount, and nothing else, to the sum of builders' balances, also where a new
/// builder takes over the place of another.
pub proof fn law_builder_deposit_adds_its_amount(
    state: BeaconStateView,
    request: BuilderDepositRequest,
    valid: bool,
)
    requires
        state.after_builder_deposit(request, valid) is Ok,
    ensures
        total_stake(state.after_builder_deposit(request, valid)->Ok_0.builders) == total_stake(
            state.builders,
        ) + (if state.has_builder(request.pubkey) || valid {
            request.amount.0 as int
        } else {
            0
        }),
{
    let after = state.after_builder_deposit(request, valid)->Ok_0;
    if state.has_builder(request.pubkey) {
        deposits::lemma_builder_index(state, request.pubkey);
        let index = state.builder_index(request.pubkey);
        lemma_total_stake_update(
            state.builders,
            index,
            deposits::topped_up(state.builders[index], request.amount, state.epoch()),
        );
    } else if valid {
        deposits::lemma_new_builder_index(state);
        let index = state.new_builder_index();
        if index < state.builders.len() {
            lemma_total_stake_update(
                state.builders,
                index,
                deposits::new_builder(
                    request.pubkey,
                    request.withdrawal_credentials,
                    request.amount,
                    state.epoch(),
                ),
            );
        } else {
            assert(after.builders.drop_last() =~= state.builders);
        }
    }
}

/// Requests keep builders' keys unique.
pub proof fn law_builder_deposit_keeps_builders_unique(
    state: BeaconStateView,
    request: BuilderDepositRequest,
    valid: bool,
)
    requires
        has_unique_builders(state),
        state.after_builder_deposit(request, valid) is Ok,
    ensures
        has_unique_builders(state.after_builder_deposit(request, valid)->Ok_0),
{
    if state.has_builder(request.pubkey) {
        deposits::lemma_builder_index(state, request.pubkey);
        let index = state.builder_index(request.pubkey);
        let after = state.after_builder_deposit(request, valid)->Ok_0;
        assert forall|i: int| 0 <= i < state.builders.len() implies (
        #[trigger] after.builders[i]).pubkey == state.builders[i].pubkey by {
            assert(i == index || after.builders[i] == state.builders[i]);
        }
    } else {
        deposits::lemma_new_builder_index(state);
    }
}

/// After a request with a valid signature the key is registered, and the next
/// request for it tops up that same builder, whatever signature it carries: its
/// balance is then the sum of both amounts.
pub proof fn law_second_builder_deposit_tops_up(
    state: BeaconStateView,
    request: BuilderDepositRequest,
    second: BuilderDepositRequest,
    second_valid: bool,
)
    requires
        !state.has_builder(request.pubkey),
        second.pubkey == request.pubkey,
    ensures
        ({
            let first = state.with_builder(
                request.pubkey,
                request.withdrawal_credentials,
                request.amount,
            );
            let index = state.new_builder_index();
            &&& state.after_builder_deposit(request, true) == Ok::<
                _,
                crate::error::TransitionError,
            >(first)
            &&& first.has_builder(request.pubkey)
            &&& first.builder_index(request.pubkey) == index
            &&& first.after_builder_deposit(second, second_valid) == first.after_top_up(
                index,
                second.amount,
            )
            &&& request.amount.0 + second.amount.0 <= u64::MAX ==> {
                let after = first.after_builder_deposit(second, second_valid)->Ok_0;
                after.builders[index].balance.0 == request.amount.0 + second.amount.0
            }
        }),
{
    deposits::lemma_new_builder_index(state);
    let first = state.with_builder(
        request.pubkey,
        request.withdrawal_credentials,
        request.amount,
    );
    let index = state.new_builder_index();
    assert(first.builders[index].pubkey == request.pubkey);
    assert(first.has_builder(request.pubkey));
    assert forall|j: int| 0 <= j < index implies (#[trigger] first.builders[j]).pubkey
        != request.pubkey by {
        assert(first.builders[j] == state.builders[j]);
    }
    assert(first.is_builder_index(request.pubkey, index));
    deposits::lemma_builder_index(first, request.pubkey);
}

/// A request changes the builders and nothing else, and so keeps the
/// per-validator lists aligned.
pub proof fn law_builder_deposit_leaves_the_rest(
    state: BeaconStateView,
    request: BuilderDepositRequest,
    valid: bool,
)
    requires
        state.after_builder_deposit(request, valid) is Ok,
    ensures
        ({
            let after = state.after_builder_deposit(request, valid)->Ok_0;
            &&& after == BeaconStateView { builders: after.builders, ..state }
            &&& state.is_aligned() ==> after.is_aligned()
        }),
{
}

} // verus!
