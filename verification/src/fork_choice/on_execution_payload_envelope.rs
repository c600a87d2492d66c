//! Taking in a delivered execution payload.
//!
//! When the payload of a block arrives, in a signed envelope, it is checked and
//! filed. Filing it is what lets the block's full branch appear in the
//! fork-choice tree. The checks are the consensus ones, which the caller
//! brings, that of data availability and that of the execution engine.
use crate::containers::SignedExecutionPayloadEnvelope;
use crate::error::{ForkChoiceError, TransitionError};
use crate::fork_choice::store::{Store, StoreView};
use crate::primitives::Root;
use vstd::prelude::*;

verus! {

/// What the checks of an envelope for the block with `root` come to: the first
/// of them that failed, in the order in which they are made.
pub open spec fn checks_result(
    root: Root,
    available: bool,
    verified: Result<(), TransitionError>,
    accepted: bool,
) -> Result<(), ForkChoiceError> {
    if !available {
        Err(ForkChoiceError::PayloadDataUnavailable(root))
    } else {
        match verified {
            Err(error) => Err(ForkChoiceError::Transition(error)),
            Ok(()) => if accepted {
                Ok(())
            } else {
                Err(ForkChoiceError::PayloadExecutionInvalid(root))
            },
        }
    }
}

/// What the checks of an envelope for the block with `root` come to: data
/// availability, verification against the block's state, and the execution
/// engine, in this order.
pub fn conclude_envelope_checks(
    root: Root,
    available: bool,
    verified: Result<(), TransitionError>,
    accepted: bool,
) -> (result: Result<(), ForkChoiceError>)
    ensures
        result == checks_result(root, available, verified, accepted),
        !available ==> result == Err::<(), _>(ForkChoiceError::PayloadDataUnavailable(root)),
        available && verified is Err ==> result == Err::<(), _>(
            ForkChoiceError::Transition(verified->Err_0),
        ),
        available && verified is Ok && !accepted ==> result == Err::<(), _>(
            ForkChoiceError::PayloadExecutionInvalid(root),
        ),
        available && verified is Ok && accepted ==> result is Ok,
{
    if !available {
        return Err(ForkChoiceError::PayloadDataUnavailable(root));
    }
    match verified {
        Ok(()) => {},
        Err(error) => return Err(ForkChoiceError::from(error)),
    }
    if !accepted {
        return Err(ForkChoiceError::PayloadExecutionInvalid(root));
    }
    Ok(())
}

impl<S> StoreView<S> {
    /// What an envelope is answered whose check against its block's state, if
    /// the block is known, comes to `verified`.
    pub open spec fn envelope_answer(
        self,
        signed_envelope: SignedExecutionPayloadEnvelope,
        verified: Result<(), TransitionError>,
    ) -> Result<(), ForkChoiceError> {
        let root = signed_envelope.message.beacon_block_root;
        if self.block_states.contains_key(root) {
            checks_result(root, true, verified, true)
        } else {
            Err(ForkChoiceError::PayloadEnvelopeForUnknownBlock(root))
        }
    }

    /// The store after an envelope was delivered, with its message filed if it
    /// was accepted.
    pub open spec fn after_envelope(
        self,
        signed_envelope: SignedExecutionPayloadEnvelope,
        verified: Result<(), TransitionError>,
    ) -> Self {
        if self.envelope_answer(signed_envelope, verified) is Ok {
            StoreView {
                filed: self.filed.insert(
                    signed_envelope.message.beacon_block_root,
                    signed_envelope.message@,
                ),
                ..self
            }
        } else {
            self
        }
    }

    /// What a delivered envelope is answered, where `check` tells for each
    /// state and envelope what their check comes to.
    pub open spec fn answer(
        self,
        signed_envelope: SignedExecutionPayloadEnvelope,
        check: spec_fn(S, SignedExecutionPayloadEnvelope) -> Result<(), TransitionError>,
    ) -> Result<(), ForkChoiceError> {
        self.envelope_answer(
            signed_envelope,
            check(
                self.block_states[signed_envelope.message.beacon_block_root],
                signed_envelope,
            ),
        )
    }

    /// The store after an envelope was delivered, where `check` tells for each
    /// state and envelope what their check comes to.
    pub open spec fn deliver(
        self,
        signed_envelope: SignedExecutionPayloadEnvelope,
        check: spec_fn(S, SignedExecutionPayloadEnvelope) -> Result<(), TransitionError>,
    ) -> Self {
        self.after_envelope(
            signed_envelope,
            check(
                self.block_states[signed_envelope.message.beacon_block_root],
                signed_envelope,
            ),
        )
    }
}

/// Whether everything that `verify` can return is what `check` tells.
pub open spec fn follows<
    S,
    F: FnOnce(&S, &SignedExecutionPayloadEnvelope) -> Result<(), TransitionError>,
>(
    verify: F,
    check: spec_fn(S, SignedExecutionPayloadEnvelope) -> Result<(), TransitionError>,
) -> bool {
    forall|
        state: &S,
        signed_envelope: &SignedExecutionPayloadEnvelope,
        verified: Result<(), TransitionError>,
    | #[trigger]
        call_ensures(verify, (state, signed_envelope), verified) ==> verified == check(
            *state,
            *signed_envelope,
        )
}

impl<S> Store<S> {
    /// Checks a delivered payload against its block and files it in the store.
    ///
    /// In order: the block is known, its data is available, the envelope
    /// verifies against the block's state, and the execution engine accepts
    /// it. Only then is the envelope filed, in `payloads`. The state itself
    /// stays as it is: a payload's lasting effects come with a child block.
    ///
    /// `verify` checks the envelope against the state of its block: the
    /// signature, and that the payload is the one that the block committed to.
    /// Where what it returns depends on its arguments alone, so does what is
    /// answered and filed.
    pub fn on_execution_payload_envelope<F>(
        &mut self,
        signed_envelope: &SignedExecutionPayloadEnvelope,
        verify: F,
    ) -> (result: Result<(), ForkChoiceError>) where
        F: FnOnce(&S, &SignedExecutionPayloadEnvelope) -> Result<(), TransitionError>,

        requires
            old(self)@.block_states.contains_key(signed_envelope.message.beacon_block_root)
                ==> call_requires(
                verify,
                (
                    &old(self)@.block_states[signed_envelope.message.beacon_block_root],
                    signed_envelope,
                ),
            ),
        ensures
            !old(self)@.block_states.contains_key(signed_envelope.message.beacon_block_root)
                ==> result == Err::<(), _>(
                ForkChoiceError::PayloadEnvelopeForUnknownBlock(
                    signed_envelope.message.beacon_block_root,
                ),
            ) && final(self)@ == old(self)@ && final(self).payloads@ == old(self).payloads@,
            final(self).block_states@ == old(self).block_states@,
            old(self)@.block_states.contains_key(signed_envelope.message.beacon_block_root)
                ==> exists|verified: Result<(), TransitionError>| #[trigger]
                call_ensures(
                    verify,
                    (
                        &old(self)@.block_states[signed_envelope.message.beacon_block_root],
                        signed_envelope,
                    ),
                    verified,
                ) && result == old(self)@.envelope_answer(*signed_envelope, verified)
                    && final(self)@ == old(self)@.after_envelope(*signed_envelope, verified) && (
                match verified {
                    Ok(()) => {
                        let root = signed_envelope.message.beacon_block_root;
                        let filed = final(self).payloads@[root];
                        &&& result is Ok
                        &&& final(self).payloads@ == old(self).payloads@.insert(root, filed)
                        &&& filed.beacon_block_root == root
                        &&& filed.payload@ == signed_envelope.message.payload@
                    },
                    Err(error) => {
                        &&& result == Err::<(), _>(ForkChoiceError::Transition(error))
                        &&& final(self).payloads@ == old(self).payloads@
                    },
                }),
            forall|
                check: spec_fn(S, SignedExecutionPayloadEnvelope) -> Result<(), TransitionError>,
            | #[trigger]
                follows(verify, check) ==> result == old(self)@.answer(*signed_envelope, check)
                    && final(self)@ == old(self)@.deliver(*signed_envelope, check),
            old(self)@.files_known_blocks() ==> final(self)@.files_known_blocks(),
    {
        let beacon_block_root = signed_envelope.message.beacon_block_root;
        let block_state = match self.block_states.get(&beacon_block_root) {
            Some(state) => state,
            None => return Err(
                ForkChoiceError::PayloadEnvelopeForUnknownBlock(beacon_block_root),
            ),
        };
        // Each check is made only where those before it have passed.
        let available = is_data_available(beacon_block_root);
        let verified = if available {
            verify(block_state, signed_envelope)
        } else {
            Ok(())
        };
        let accepted = available && verified.is_ok() && verify_and_notify_new_payload(
            signed_envelope,
        );
        let result = conclude_envelope_checks(beacon_block_root, available, verified, accepted);
        if result.is_ok() {
            self.payloads.insert(beacon_block_root, signed_envelope.message.clone());
            assert(self@.filed =~= old(self)@.filed.insert(
                beacon_block_root,
                signed_envelope.message@,
            ));
        }
        result
    }
}

/// Whether the payload data of a block can be had. No sampling of data columns
/// is wired in, so all data counts as available.
pub fn is_data_available(_beacon_block_root: Root) -> (available: bool)
    ensures
        available,
{
    true
}

/// Whether the execution engine accepts a payload. No engine is wired in, so
/// every payload counts as valid.
pub fn verify_and_notify_new_payload(
    _signed_envelope: &SignedExecutionPayloadEnvelope,
) -> (valid: bool)
    ensures
        valid,
{
    true
}

} // verus!
