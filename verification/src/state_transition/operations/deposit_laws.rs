//! What validator deposits keep and what they change.
use crate::constants::{EFFECTIVE_BALANCE_INCREMENT, GENESIS_SLOT};
use crate::containers::{BeaconStateView, PendingDeposit};
use crate::primitives::{BLSPubkey, BLSSignature, Bytes32, Gwei, Slot};
use crate::state_transition::operations::deposits;
use vstd::prelude::*;

verus! {

/// The sum of balances.
pub open spec fn total_balance(balances: Seq<Gwei>) -> int
    decreases balances.len(),
{
    if balances.len() == 0 {
        0
    } else {
        total_balance(balances.drop_last()) + balances.last().0
    }
}

/// The sum of the amounts of pending deposits.
pub open spec fn total_pending(pending: Seq<PendingDeposit>) -> int
    decreases pending.len(),
{
    if pending.len() == 0 {
        0
    } else {
        total_pending(pending.drop_last()) + pending.last().amount.0
    }
}

/// Whether no two validators share a key.
pub open spec fn has_unique_validators(state: BeaconStateView) -> bool {
    forall|i: int, j: int|
        0 <= i < j < state.validators.len() ==> (#[trigger] state.validators[i]).pubkey != (
        #[trigger] state.validators[j]).pubkey
}

/// A new validator's effective balance is a whole number of increments that
/// exceeds neither the cap of its credentials nor the amount, and less than an
/// increment below the smaller of the two.
pub proof fn law_effective_balance(withdrawal_credentials: Bytes32, amount: Gwei)
    ensures
        ({
            let effective = deposits::effective_balance(withdrawal_credentials, amount).0;
            let cap = deposits::effective_balance_cap(withdrawal_credentials);
            &&& effective % EFFECTIVE_BALANCE_INCREMENT == 0
            &&& effective <= cap
            &&& effective <= amount.0
            &&& effective == cap || amount.0 - effective < EFFECTIVE_BALANCE_INCREMENT
        }),
{
}

/// A larger deposit gives no smaller effective balance.
pub proof fn law_effective_balance_is_monotone(
    withdrawal_credentials: Bytes32,
    less: Gwei,
    more: Gwei,
)
    requires
        less.0 <= more.0,
    ensures
        deposits::effective_balance(withdrawal_credentials, less).0 <= deposits::effective_balance(
            withdrawal_credentials,
            more,
        ).0,
{
}

/// Registration keeps the per-validator lists aligned, and the new validator's
/// entries stand at its own index.
pub proof fn law_registration_keeps_alignment(
    state: BeaconStateView,
    pubkey: BLSPubkey,
    withdrawal_credentials: Bytes32,
    amount: Gwei,
)
    requires
        state.is_aligned(),
    ensures
        ({
            let after = state.with_validator(pubkey, withdrawal_credentials, amount);
            let index = state.validators.len() as int;
            &&& after.is_aligned()
            &&& after.validators[index].pubkey == pubkey
            &&& after.balances[index] == amount
            &&& after.previous_epoch_participation[index].0 == 0
            &&& after.current_epoch_participation[index].0 == 0
            &&& after.inactivity_scores[index] == 0
        }),
{
}

/// Deposits keep the per-validator lists aligned, on their own and behind the
/// step of the cursor.
pub proof fn law_deposit_keeps_alignment(
    state: BeaconStateView,
    pubkey: BLSPubkey,
    withdrawal_credentials: Bytes32,
    amount: Gwei,
    signature: BLSSignature,
    valid: bool,
)
    requires
        state.is_aligned(),
    ensures
        state.after_deposit(pubkey, withdrawal_credentials, amount, signature, valid).is_aligned(),
        state.with_next_deposit_index().after_deposit(
            pubkey,
            withdrawal_credentials,
            amount,
            signature,
            valid,
        ).is_aligned(),
{
}

/// Deposits keep validators' keys unique.
pub proof fn law_deposit_keeps_validators_unique(
    state: BeaconStateView,
    pubkey: BLSPubkey,
    withdrawal_credentials: Bytes32,
    amount: Gwei,
    signature: BLSSignature,
    valid: bool,
)
    requires
        has_unique_validators(state),
    ensures
        has_unique_validators(
            state.after_deposit(pubkey, withdrawal_credentials, amount, signature, valid),
        ),
        has_unique_validators(
            state.with_next_deposit_index().after_deposit(
                pubkey,
                withdrawal_credentials,
                amount,
                signature,
                valid,
            ),
        ),
{
    let next = state.with_next_deposit_index();
    assert(next.validators == state.validators);
    assert(next.has_validator(pubkey) == state.has_validator(pubkey));
}

/// Only a key's first deposit has to carry a valid signature: for a registered
/// key, what comes of a deposit does not depend on it.
pub proof fn law_registered_key_needs_no_signature(
    state: BeaconStateView,
    pubkey: BLSPubkey,
    withdrawal_credentials: Bytes32,
    amount: Gwei,
    signature: BLSSignature,
    valid: bool,
)
    requires
        state.has_validator(pubkey),
    ensures
        state.after_deposit(pubkey, withdrawal_credentials, amount, signature, valid)
            == state.with_pending_deposit(pubkey, withdrawal_credentials, amount, signature),
{
}

/// An unregistered key's deposit without a valid signature changes nothing.
pub proof fn law_unsigned_first_deposit_is_dropped(
    state: BeaconStateView,
    pubkey: BLSPubkey,
    withdrawal_credentials: Bytes32,
    amount: Gwei,
    signature: BLSSignature,
)
    requires
        !state.has_validator(pubkey),
    ensures
        state.after_deposit(pubkey, withdrawal_credentials, amount, signature, false) == state,
{
}

/// A key that has once deposited with a valid signature is registered, with no
/// effective balance, and its next deposit is queued behind the first one
/// without a second registration, whatever signature it carries.
pub proof fn law_second_deposit_is_queued(
    state: BeaconStateView,
    pubkey: BLSPubkey,
    withdrawal_credentials: Bytes32,
    amount: Gwei,
    signature: BLSSignature,
    second_credentials: Bytes32,
    second_amount: Gwei,
    second_signature: BLSSignature,
    second_valid: bool,
)
    requires
        !state.has_validator(pubkey),
    ensures
        ({
            let first = state.after_deposit(
                pubkey,
                withdrawal_credentials,
                amount,
                signature,
                true,
            );
            let second = first.after_deposit(
                pubkey,
                second_credentials,
                second_amount,
                second_signature,
                second_valid,
            );
            &&& first.has_validator(pubkey)
            &&& first.validators.len() == state.validators.len() + 1
            &&& first.validators.last().effective_balance == Gwei(0)
            &&& first.balances.last() == Gwei(0)
            &&& second.validators == first.validators
            &&& second.pending_deposits.len() == state.pending_deposits.len() + 2
        }),
{
    let first = state.after_deposit(pubkey, withdrawal_credentials, amount, signature, true);
    assert(first.validators.last().pubkey == pubkey);
    assert(first.validators[first.validators.len() - 1].pubkey == pubkey);
    assert(first.has_validator(pubkey));
}

/// A deposit only appends: validators, balances and pending deposits that were
/// there stay where they are, and at most one of each comes behind them.
pub proof fn law_deposit_only_appends(
    state: BeaconStateView,
    pubkey: BLSPubkey,
    withdrawal_credentials: Bytes32,
    amount: Gwei,
    signature: BLSSignature,
    valid: bool,
)
    ensures
        ({
            let after = state.after_deposit(
                pubkey,
                withdrawal_credentials,
                amount,
                signature,
                valid,
            );
            &&& state.validators.is_prefix_of(after.validators)
            &&& state.balances.is_prefix_of(after.balances)
            &&& state.pending_deposits.is_prefix_of(after.pending_deposits)
            &&& after.validators.len() <= state.validators.len() + 1
            &&& after.balances.len() <= state.balances.len() + 1
            &&& after.pending_deposits.len() <= state.pending_deposits.len() + 1
        }),
{
}

/// A deposit that is not dropped stands at the end of the queue, as it came and
/// at the genesis slot, which marks it as one that came over the bridge.
pub proof fn law_deposit_is_queued_as_bridge_deposit(
    state: BeaconStateView,
    pubkey: BLSPubkey,
    withdrawal_credentials: Bytes32,
    amount: Gwei,
    signature: BLSSignature,
    valid: bool,
)
    requires
        state.has_validator(pubkey) || valid,
    ensures
        state.after_deposit(pubkey, withdrawal_credentials, amount, signature, valid)
            .pending_deposits == state.pending_deposits.push(
            PendingDeposit {
                pubkey,
                withdrawal_credentials,
                amount,
                signature,
                slot: Slot(GENESIS_SLOT),
            },
        ),
{
}

/// A deposit credits no balance. Its whole amount, and nothing else, is added to
/// what is pending, unless the deposit is dropped.
pub proof fn law_deposit_amount_is_pending(
    state: BeaconStateView,
    pubkey: BLSPubkey,
    withdrawal_credentials: Bytes32,
    amount: Gwei,
    signature: BLSSignature,
    valid: bool,
)
    ensures
        ({
            let after = state.after_deposit(
                pubkey,
                withdrawal_credentials,
                amount,
                signature,
                valid,
            );
            &&& total_balance(after.balances) == total_balance(state.balances)
            &&& total_pending(after.pending_deposits) == total_pending(state.pending_deposits) + (
            if state.has_validator(pubkey) || valid {
                amount.0 as int
            } else {
                0
            })
        }),
{
    let after = state.after_deposit(pubkey, withdrawal_credentials, amount, signature, valid);
    if after.balances != state.balances {
        assert(after.balances.drop_last() =~= state.balances);
    }
    if after.pending_deposits != state.pending_deposits {
        assert(after.pending_deposits.drop_last() =~= state.pending_deposits);
    }
    if state.has_validator(pubkey) || valid {
        assert(after.pending_deposits.len() == state.pending_deposits.len() + 1);
    }
}

/// A deposit leaves the clock, the deposit root, the cursor and the builders as
/// they are.
pub proof fn law_deposit_leaves_the_rest(
    state: BeaconStateView,
    pubkey: BLSPubkey,
    withdrawal_credentials: Bytes32,
    amount: Gwei,
    signature: BLSSignature,
    valid: bool,
)
    ensures
        ({
            let after = state.after_deposit(
                pubkey,
                withdrawal_credentials,
                amount,
                signature,
                valid,
            );
            &&& after.slot == state.slot
            &&& after.eth1_data == state.eth1_data
            &&& after.eth1_deposit_index == state.eth1_deposit_index
            &&& after.builders == state.builders
        }),
{
}

} // verus!
