//! What deliveries of envelopes keep and what they change, where what the check
//! of an envelope comes to depends on the block's state and the envelope alone.
use crate::containers::SignedExecutionPayloadEnvelope;
use crate::error::{ForkChoiceError, TransitionError};
use crate::fork_choice::on_execution_payload_envelope;
use crate::fork_choice::store::{Store, StoreView};
use crate::primitives::Root;
use vstd::prelude::*;

verus! {

/// An accepted envelope is filed under the root of its block, as it was
/// delivered, and nothing else in the store changes.
pub proof fn law_accepted_envelope_is_filed<S>(
    store: StoreView<S>,
    signed_envelope: SignedExecutionPayloadEnvelope,
    check: spec_fn(S, SignedExecutionPayloadEnvelope) -> Result<(), TransitionError>,
    other: Root,
)
    requires
        store.answer(signed_envelope, check) is Ok,
        other != signed_envelope.message.beacon_block_root,
    ensures
        ({
            let after = store.deliver(signed_envelope, check);
            let root = signed_envelope.message.beacon_block_root;
            &&& after.block_states == store.block_states
            &&& after.filed.contains_key(root)
            &&& after.filed[root] == signed_envelope.message@
            &&& after.filed.contains_key(other) == store.filed.contains_key(other)
            &&& store.filed.contains_key(other) ==> after.filed[other] == store.filed[other]
        }),
{
}

/// A refused envelope leaves the store as it was.
pub proof fn law_refused_envelope_changes_nothing<S>(
    store: StoreView<S>,
    signed_envelope: SignedExecutionPayloadEnvelope,
    check: spec_fn(S, SignedExecutionPayloadEnvelope) -> Result<(), TransitionError>,
)
    requires
        store.answer(signed_envelope, check) is Err,
    ensures
        store.deliver(signed_envelope, check) == store,
{
}

/// An envelope that is delivered again gets the same answer again, and leaves
/// the store as the first delivery left it.
pub proof fn law_redelivery_changes_nothing<S>(
    store: StoreView<S>,
    signed_envelope: SignedExecutionPayloadEnvelope,
    check: spec_fn(S, SignedExecutionPayloadEnvelope) -> Result<(), TransitionError>,
)
    ensures
        ({
            let first = store.deliver(signed_envelope, check);
            &&& first.answer(signed_envelope, check) == store.answer(signed_envelope, check)
            &&& first.deliver(signed_envelope, check) == first
        }),
{
    let first = store.deliver(signed_envelope, check);
    assert(first.deliver(signed_envelope, check).filed =~= first.filed);
}

/// Envelopes for different blocks get the same answers and leave the same store
/// in whichever order they are delivered.
pub proof fn law_envelopes_of_different_blocks_commute<S>(
    store: StoreView<S>,
    left: SignedExecutionPayloadEnvelope,
    right: SignedExecutionPayloadEnvelope,
    check: spec_fn(S, SignedExecutionPayloadEnvelope) -> Result<(), TransitionError>,
)
    requires
        left.message.beacon_block_root != right.message.beacon_block_root,
    ensures
        store.answer(left, check) == store.deliver(right, check).answer(left, check),
        store.deliver(left, check).answer(right, check) == store.answer(right, check),
        store.deliver(left, check).deliver(right, check) == store.deliver(right, check).deliver(
            left,
            check,
        ),
{
    assert(store.deliver(left, check).deliver(right, check).filed =~= store.deliver(
        right,
        check,
    ).deliver(left, check).filed);
}

/// What an envelope is answered depends on the state of its block, if that is
/// known, and on nothing else in the store: not on other blocks, and not on what
/// was filed before.
pub proof fn law_answer_reads_the_named_block_only<S>(
    left: StoreView<S>,
    right: StoreView<S>,
    signed_envelope: SignedExecutionPayloadEnvelope,
    check: spec_fn(S, SignedExecutionPayloadEnvelope) -> Result<(), TransitionError>,
)
    requires
        ({
            let root = signed_envelope.message.beacon_block_root;
            &&& left.block_states.contains_key(root) == right.block_states.contains_key(root)
            &&& left.block_states.contains_key(root) ==> left.block_states[root]
                == right.block_states[root]
        }),
    ensures
        left.answer(signed_envelope, check) == right.answer(signed_envelope, check),
{
}

/// The view of a store leaves nothing out and changes nothing.
pub proof fn law_store_view_is_faithful<S>(store: Store<S>, root: Root)
    ensures
        store@.block_states == store.block_states@,
        store@.filed.contains_key(root) == store.payloads@.contains_key(root),
        store.payloads@.contains_key(root) ==> store@.filed[root].beacon_block_root
            == store.payloads@[root].beacon_block_root && store@.filed[root].payload
            == store.payloads@[root].payload@,
{
}

/// The first check that fails decides: missing data, then the check against the
/// state, with the error that it gave, then the engine. An envelope that passes
/// all three is accepted.
pub proof fn law_first_failing_check_decides(
    root: Root,
    available: bool,
    verified: Result<(), TransitionError>,
    accepted: bool,
)
    ensures
        on_execution_payload_envelope::checks_result(root, available, verified, accepted) is Ok
            <==> available && verified is Ok && accepted,
        !available ==> on_execution_payload_envelope::checks_result(
            root,
            available,
            verified,
            accepted,
        ) == Err::<(), _>(ForkChoiceError::PayloadDataUnavailable(root)),
        available && verified is Err ==> on_execution_payload_envelope::checks_result(
            root,
            available,
            verified,
            accepted,
        ) == Err::<(), _>(ForkChoiceError::Transition(verified->Err_0)),
        available && verified is Ok && !accepted ==> on_execution_payload_envelope::checks_result(
            root,
            available,
            verified,
            accepted,
        ) == Err::<(), _>(ForkChoiceError::PayloadExecutionInvalid(root)),
{
}

/// For a known block the check against its state decides, whatever the envelope
/// holds: where it fails, its error is the answer and the store stays; where it
/// passes, the message is filed under the block's root. For an unknown block the
/// answer says so and the store stays.
pub proof fn law_check_decides<S>(
    store: StoreView<S>,
    signed_envelope: SignedExecutionPayloadEnvelope,
    verified: Result<(), TransitionError>,
)
    ensures
        ({
            let root = signed_envelope.message.beacon_block_root;
            let answer = store.envelope_answer(signed_envelope, verified);
            let after = store.after_envelope(signed_envelope, verified);
            &&& !store.block_states.contains_key(root) ==> answer == Err::<(), _>(
                ForkChoiceError::PayloadEnvelopeForUnknownBlock(root),
            ) && after == store
            &&& store.block_states.contains_key(root) && verified is Err ==> answer == Err::<(), _>(
                ForkChoiceError::Transition(verified->Err_0),
            ) && after == store
            &&& store.block_states.contains_key(root) && verified is Ok ==> answer is Ok
                && after.block_states == store.block_states && after.filed == store.filed.insert(
                root,
                signed_envelope.message@,
            )
        }),
{
}

/// The check that decides is that of the envelope, as it was delivered, against
/// the state of the block that it names.
pub proof fn law_check_is_of_the_named_block<S>(
    store: StoreView<S>,
    signed_envelope: SignedExecutionPayloadEnvelope,
    check: spec_fn(S, SignedExecutionPayloadEnvelope) -> Result<(), TransitionError>,
    state: S,
)
    requires
        store.block_states.contains_key(signed_envelope.message.beacon_block_root),
        store.block_states[signed_envelope.message.beacon_block_root] == state,
    ensures
        check(state, signed_envelope) matches Err(error) ==> store.answer(signed_envelope, check)
            == Err::<(), _>(ForkChoiceError::Transition(error)) && store.deliver(
            signed_envelope,
            check,
        ) == store,
        check(state, signed_envelope) is Ok ==> store.answer(signed_envelope, check) is Ok
            && store.deliver(signed_envelope, check).filed == store.filed.insert(
            signed_envelope.message.beacon_block_root,
            signed_envelope.message@,
        ) && store.deliver(signed_envelope, check).block_states == store.block_states,
{
}

/// Deliveries file only what belongs to known blocks, each under its own root.
pub proof fn law_filed_blocks_are_known<S>(
    store: StoreView<S>,
    signed_envelope: SignedExecutionPayloadEnvelope,
    verified: Result<(), TransitionError>,
    root: Root,
)
    requires
        store.filed.contains_key(root) ==> store.block_states.contains_key(root)
            && store.filed[root].beacon_block_root == root,
    ensures
        ({
            let after = store.after_envelope(signed_envelope, verified);
            after.filed.contains_key(root) ==> after.block_states.contains_key(root)
                && after.filed[root].beacon_block_root == root
        }),
{
}

} // verus!
