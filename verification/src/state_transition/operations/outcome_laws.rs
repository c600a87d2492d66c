//! What each step of the state comes to, field by field.
use crate::constants::{
    COMPOUNDING_WITHDRAWAL_PREFIX, EFFECTIVE_BALANCE_INCREMENT, FAR_FUTURE_EPOCH, GENESIS_SLOT,
    MAX_EFFECTIVE_BALANCE, MIN_ACTIVATION_BALANCE, MIN_BUILDER_WITHDRAWABILITY_DELAY,
    SLOTS_PER_EPOCH,
};
use crate::containers::{BeaconStateView, BuilderDepositRequest, PendingDeposit};
use crate::error::TransitionError;
use crate::primitives::{BLSPubkey, BLSSignature, Bytes32, Gwei, ParticipationFlags, Slot};
use crate::state_transition::operations::deposits;
use vstd::prelude::*;

verus! {

/// Registration appends one validator with the given key and credentials, not
/// slashed and with nothing scheduled. Its effective balance is the largest
/// number of whole increments within the amount and within the cap, which is
/// higher with compounding credentials. The amount is its balance, its other
/// entries are zero, and the rest of the state stays.
pub proof fn law_registration_outcome(
    state: BeaconStateView,
    pubkey: BLSPubkey,
    withdrawal_credentials: Bytes32,
    amount: Gwei,
)
    ensures
        ({
            let after = state.with_validator(pubkey, withdrawal_credentials, amount);
            let new = after.validators[state.validators.len() as int];
            let effective = new.effective_balance.0;
            let cap = if withdrawal_credentials.0@[0] == COMPOUNDING_WITHDRAWAL_PREFIX {
                MAX_EFFECTIVE_BALANCE
            } else {
                MIN_ACTIVATION_BALANCE
            };
            &&& after.validators == state.validators.push(new)
            &&& new.pubkey == pubkey
            &&& new.withdrawal_credentials == withdrawal_credentials
            &&& !new.slashed
            &&& new.activation_eligibility_epoch.0 == FAR_FUTURE_EPOCH
            &&& new.activation_epoch.0 == FAR_FUTURE_EPOCH
            &&& new.exit_epoch.0 == FAR_FUTURE_EPOCH
            &&& new.withdrawable_epoch.0 == FAR_FUTURE_EPOCH
            &&& effective % EFFECTIVE_BALANCE_INCREMENT == 0
            &&& effective <= amount.0
            &&& effective <= cap
            &&& effective == cap || amount.0 < effective + EFFECTIVE_BALANCE_INCREMENT
            &&& after.balances == state.balances.push(amount)
            &&& after.previous_epoch_participation == state.previous_epoch_participation.push(
                ParticipationFlags(0),
            )
            &&& after.current_epoch_participation == state.current_epoch_participation.push(
                ParticipationFlags(0),
            )
            &&& after.inactivity_scores == state.inactivity_scores.push(0)
            &&& after.slot == state.slot
            &&& after.eth1_data == state.eth1_data
            &&& after.eth1_deposit_index == state.eth1_deposit_index
            &&& after.pending_deposits == state.pending_deposits
            &&& after.builders == state.builders
        }),
{
}

/// The cap of the effective balance depends on the first byte of the
/// credentials, and on nothing else.
pub proof fn law_effective_balance_cap(withdrawal_credentials: Bytes32)
    ensures
        withdrawal_credentials.0@[0] == COMPOUNDING_WITHDRAWAL_PREFIX
            ==> deposits::effective_balance_cap(withdrawal_credentials) == MAX_EFFECTIVE_BALANCE,
        withdrawal_credentials.0@[0] != COMPOUNDING_WITHDRAWAL_PREFIX
            ==> deposits::effective_balance_cap(withdrawal_credentials) == MIN_ACTIVATION_BALANCE,
{
}

/// Queueing appends the deposit as it is, at the genesis slot, and leaves all
/// else.
pub proof fn law_queueing_outcome(
    state: BeaconStateView,
    pubkey: BLSPubkey,
    withdrawal_credentials: Bytes32,
    amount: Gwei,
    signature: BLSSignature,
)
    ensures
        ({
            let after = state.with_pending_deposit(
                pubkey,
                withdrawal_credentials,
                amount,
                signature,
            );
            let new = after.pending_deposits[state.pending_deposits.len() as int];
            &&& after.pending_deposits == state.pending_deposits.push(new)
            &&& new.pubkey == pubkey
            &&& new.withdrawal_credentials == withdrawal_credentials
            &&& new.amount == amount
            &&& new.signature == signature
            &&& new.slot.0 == GENESIS_SLOT
            &&& after.slot == state.slot
            &&& after.eth1_data == state.eth1_data
            &&& after.eth1_deposit_index == state.eth1_deposit_index
            &&& after.validators == state.validators
            &&& after.balances == state.balances
            &&& after.previous_epoch_participation == state.previous_epoch_participation
            &&& after.current_epoch_participation == state.current_epoch_participation
            &&& after.inactivity_scores == state.inactivity_scores
            &&& after.builders == state.builders
        }),
{
}

/// A deposit for a key that some validator has is queued and changes nothing
/// else.
pub proof fn law_known_key_deposit_outcome(
    state: BeaconStateView,
    pubkey: BLSPubkey,
    withdrawal_credentials: Bytes32,
    amount: Gwei,
    signature: BLSSignature,
    valid: bool,
    index: int,
)
    requires
        0 <= index < state.validators.len(),
        state.validators[index].pubkey == pubkey,
    ensures
        ({
            let after = state.after_deposit(
                pubkey,
                withdrawal_credentials,
                amount,
                signature,
                valid,
            );
            &&& state.has_validator(pubkey)
            &&& after.pending_deposits == state.pending_deposits.push(
                PendingDeposit {
                    pubkey,
                    withdrawal_credentials,
                    amount,
                    signature,
                    slot: Slot(GENESIS_SLOT),
                },
            )
            &&& after == BeaconStateView { pending_deposits: after.pending_deposits, ..state }
        }),
{
    assert(state.validators[index].pubkey == pubkey);
}

/// A deposit for a key that no validator has changes nothing without a valid
/// signature. With one, it registers a validator with the given key and
/// credentials, not slashed, with nothing scheduled and with no balance of any
/// kind, and queues the deposit.
pub proof fn law_new_key_deposit_outcome(
    state: BeaconStateView,
    pubkey: BLSPubkey,
    withdrawal_credentials: Bytes32,
    amount: Gwei,
    signature: BLSSignature,
    valid: bool,
)
    requires
        forall|i: int|
            0 <= i < state.validators.len() ==> (#[trigger] state.validators[i]).pubkey != pubkey,
    ensures
        !state.has_validator(pubkey),
        state.after_deposit(pubkey, withdrawal_credentials, amount, signature, valid)
            == state.after_first_deposit(
            pubkey,
            withdrawal_credentials,
            amount,
            signature,
            valid,
        ),
        !valid ==> state.after_deposit(
            pubkey,
            withdrawal_credentials,
            amount,
            signature,
            valid,
        ) == state,
        valid ==> ({
            let after = state.after_deposit(
                pubkey,
                withdrawal_credentials,
                amount,
                signature,
                valid,
            );
            let new = after.validators[state.validators.len() as int];
            &&& after.validators == state.validators.push(new)
            &&& new.pubkey == pubkey
            &&& new.withdrawal_credentials == withdrawal_credentials
            &&& new.effective_balance.0 == 0
            &&& !new.slashed
            &&& new.activation_eligibility_epoch.0 == FAR_FUTURE_EPOCH
            &&& new.activation_epoch.0 == FAR_FUTURE_EPOCH
            &&& new.exit_epoch.0 == FAR_FUTURE_EPOCH
            &&& new.withdrawable_epoch.0 == FAR_FUTURE_EPOCH
            &&& after.balances == state.balances.push(Gwei(0))
            &&& after.previous_epoch_participation == state.previous_epoch_participation.push(
                ParticipationFlags(0),
            )
            &&& after.current_epoch_participation == state.current_epoch_participation.push(
                ParticipationFlags(0),
            )
            &&& after.inactivity_scores == state.inactivity_scores.push(0)
            &&& after.pending_deposits == state.pending_deposits.push(
                PendingDeposit {
                    pubkey,
                    withdrawal_credentials,
                    amount,
                    signature,
                    slot: Slot(GENESIS_SLOT),
                },
            )
            &&& after.slot == state.slot
            &&& after.eth1_data == state.eth1_data
            &&& after.eth1_deposit_index == state.eth1_deposit_index
            &&& after.builders == state.builders
        }),
{
}

/// What the verdict on a signature does to a first deposit does not depend on
/// whether the key is known: nothing is changed where it is `false`, and a
/// validator and a pending deposit come to the ends of their lists where it is
/// `true`.
pub proof fn law_first_deposit_outcome(
    state: BeaconStateView,
    pubkey: BLSPubkey,
    withdrawal_credentials: Bytes32,
    amount: Gwei,
    signature: BLSSignature,
)
    ensures
        state.after_first_deposit(pubkey, withdrawal_credentials, amount, signature, false)
            == state,
        ({
            let registered = state.with_validator(pubkey, withdrawal_credentials, Gwei(0));
            let after = state.after_first_deposit(
                pubkey,
                withdrawal_credentials,
                amount,
                signature,
                true,
            );
            &&& after.pending_deposits == state.pending_deposits.push(
                PendingDeposit {
                    pubkey,
                    withdrawal_credentials,
                    amount,
                    signature,
                    slot: Slot(GENESIS_SLOT),
                },
            )
            &&& after == BeaconStateView { pending_deposits: after.pending_deposits, ..registered }
        }),
{
}

/// The cursor moves on by exactly one, unless it is at its end, where it stays.
/// Nothing else in the state changes, and nothing else in it matters.
pub proof fn law_cursor_outcome(state: BeaconStateView)
    ensures
        ({
            let after = state.with_next_deposit_index();
            &&& state.eth1_deposit_index < u64::MAX ==> after.eth1_deposit_index
                == state.eth1_deposit_index + 1
            &&& state.eth1_deposit_index == u64::MAX ==> after.eth1_deposit_index == u64::MAX
            &&& after.slot == state.slot
            &&& after.eth1_data == state.eth1_data
            &&& after.validators == state.validators
            &&& after.balances == state.balances
            &&& after.previous_epoch_participation == state.previous_epoch_participation
            &&& after.current_epoch_participation == state.current_epoch_participation
            &&& after.inactivity_scores == state.inactivity_scores
            &&& after.pending_deposits == state.pending_deposits
            &&& after.builders == state.builders
        }),
{
}

/// A processed deposit moves the cursor on by exactly one, whatever else comes
/// of the deposit.
pub proof fn law_processing_moves_the_cursor(
    state: BeaconStateView,
    pubkey: BLSPubkey,
    withdrawal_credentials: Bytes32,
    amount: Gwei,
    signature: BLSSignature,
    valid: bool,
)
    requires
        state.eth1_deposit_index < u64::MAX,
    ensures
        state.with_next_deposit_index().after_deposit(
            pubkey,
            withdrawal_credentials,
            amount,
            signature,
            valid,
        ).eth1_deposit_index == state.eth1_deposit_index + 1,
{
}

/// The execution address is the last 20 bytes of the credentials, whatever they
/// hold.
pub proof fn law_address_is_the_tail(withdrawal_credentials: Bytes32)
    ensures
        deposits::address_in(withdrawal_credentials).0@ == withdrawal_credentials.0@.subrange(
            12,
            32,
        ),
{
    assert(deposits::address_in(withdrawal_credentials).0@
        =~= withdrawal_credentials.0@.subrange(12, 32));
}

/// A new builder goes to the lowest place whose builder has left, by the current
/// epoch, with a balance of zero, and to the end where there is none. It has the
/// given key and amount, the version and the address of its credentials, and has
/// not begun to leave. All other builders, and the rest of the state, stay.
pub proof fn law_builder_registration_outcome(
    state: BeaconStateView,
    pubkey: BLSPubkey,
    withdrawal_credentials: Bytes32,
    amount: Gwei,
    index: int,
)
    requires
        0 <= index <= state.builders.len(),
        forall|j: int|
            0 <= j < index ==> (#[trigger] state.builders[j]).balance.0 != 0
                || state.builders[j].withdrawable_epoch.0 > state.slot.0 / SLOTS_PER_EPOCH,
        index < state.builders.len() ==> state.builders[index].balance.0 == 0
            && state.builders[index].withdrawable_epoch.0 <= state.slot.0 / SLOTS_PER_EPOCH,
    ensures
        state.new_builder_index() == index,
        ({
            let after = state.with_builder(pubkey, withdrawal_credentials, amount);
            let new = after.builders[index];
            &&& index < state.builders.len() ==> after.builders == state.builders.update(index, new)
            &&& index == state.builders.len() ==> after.builders == state.builders.push(new)
            &&& new.pubkey == pubkey
            &&& new.version == withdrawal_credentials.0@[0]
            &&& new.execution_address.0@ == withdrawal_credentials.0@.subrange(12, 32)
            &&& new.balance == amount
            &&& new.deposit_epoch.0 == state.slot.0 / SLOTS_PER_EPOCH
            &&& new.withdrawable_epoch.0 == FAR_FUTURE_EPOCH
            &&& after == BeaconStateView { builders: after.builders, ..state }
        }),
{
    deposits::lemma_new_builder_index(state);
    assert(state.is_new_builder_index(index));
    law_address_is_the_tail(withdrawal_credentials);
}

/// There is always a place for a new builder, and it is the lowest one whose
/// builder has left with a balance of zero, or the end where there is none.
pub proof fn law_builder_place(state: BeaconStateView)
    ensures
        ({
            let index = state.new_builder_index();
            &&& 0 <= index <= state.builders.len()
            &&& forall|j: int|
                0 <= j < index ==> (#[trigger] state.builders[j]).balance.0 != 0
                    || state.builders[j].withdrawable_epoch.0 > state.slot.0 / SLOTS_PER_EPOCH
            &&& index < state.builders.len() ==> state.builders[index].balance.0 == 0
                && state.builders[index].withdrawable_epoch.0 <= state.slot.0 / SLOTS_PER_EPOCH
        }),
{
    deposits::lemma_new_builder_index(state);
}

/// A top-up is refused where the balance would be too large. Otherwise it adds
/// the amount to the balance of that one builder, and puts its withdrawal off to
/// the delay from the current epoch if it had begun to leave. Nothing else
/// changes.
pub proof fn law_top_up_outcome(state: BeaconStateView, index: int, amount: Gwei)
    requires
        0 <= index < state.builders.len(),
    ensures
        state.builders[index].balance.0 + amount.0 > u64::MAX ==> state.after_top_up(index, amount)
            == Err::<BeaconStateView, _>(TransitionError::BalanceOverflow),
        state.builders[index].balance.0 + amount.0 <= u64::MAX ==> ({
            let before = state.builders[index];
            &&& state.after_top_up(index, amount) matches Ok(after)
            &&& {
                let new = after.builders[index];
                &&& after.builders == state.builders.update(index, new)
                &&& new.pubkey == before.pubkey
                &&& new.version == before.version
                &&& new.execution_address == before.execution_address
                &&& new.balance.0 == before.balance.0 + amount.0
                &&& new.deposit_epoch == before.deposit_epoch
                &&& before.withdrawable_epoch.0 == FAR_FUTURE_EPOCH ==> new.withdrawable_epoch.0
                    == FAR_FUTURE_EPOCH
                &&& before.withdrawable_epoch.0 != FAR_FUTURE_EPOCH ==> new.withdrawable_epoch.0
                    == state.slot.0 / SLOTS_PER_EPOCH + MIN_BUILDER_WITHDRAWABILITY_DELAY
                &&& after == BeaconStateView { builders: after.builders, ..state }
            }
        }),
{
}

/// A request for a key that some builder has is a top-up of the first builder
/// with that key, whatever the signature.
pub proof fn law_known_builder_request_outcome(
    state: BeaconStateView,
    request: BuilderDepositRequest,
    valid: bool,
    index: int,
)
    requires
        0 <= index < state.builders.len(),
        state.builders[index].pubkey == request.pubkey,
        forall|j: int|
            0 <= j < index ==> (#[trigger] state.builders[j]).pubkey != request.pubkey,
    ensures
        state.has_builder(request.pubkey),
        state.builder_index(request.pubkey) == index,
        state.after_builder_deposit(request, valid) == state.after_top_up(index, request.amount),
        state.builders[index].balance.0 + request.amount.0 > u64::MAX
            <==> state.after_builder_deposit(request, valid) is Err,
        state.after_builder_deposit(request, valid) matches Ok(after)
            ==> after.builders[index].balance.0 == state.builders[index].balance.0
            + request.amount.0,
{
    assert(state.builders[index].pubkey == request.pubkey);
    assert(state.is_builder_index(request.pubkey, index));
    deposits::lemma_builder_index(state, request.pubkey);
}

/// A request for a key that no builder has changes nothing without a valid
/// signature. With one, it registers a builder with the key, the credentials and
/// the amount of the request.
pub proof fn law_new_builder_request_outcome(
    state: BeaconStateView,
    request: BuilderDepositRequest,
)
    requires
        forall|j: int|
            0 <= j < state.builders.len() ==> (#[trigger] state.builders[j]).pubkey
                != request.pubkey,
    ensures
        !state.has_builder(request.pubkey),
        state.after_builder_deposit(request, false) == Ok::<_, TransitionError>(state),
        state.after_builder_deposit(request, true) == Ok::<_, TransitionError>(
            state.with_builder(request.pubkey, request.withdrawal_credentials, request.amount),
        ),
{
}

} // verus!
