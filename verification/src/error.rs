//! What can go wrong in a state transition and in fork choice.
use crate::primitives::Root;
use vstd::prelude::*;

verus! {

/// The container whose hash tree root could not be computed.
#[derive(Clone, Copy, Debug, PartialEq, Eq, Structural)]
pub enum MerkleError {
    /// A deposit, or the message that a deposit signs.
    DepositMessage,
    /// The fork data that a domain commits to.
    ForkData,
}

/// The object whose signature did not verify.
#[derive(Clone, Copy, Debug, PartialEq, Eq, Structural)]
pub enum SignatureError {
    /// A validator or builder deposit.
    Deposit,
}

/// An operation that the block may not carry.
#[derive(Clone, Copy, Debug, PartialEq, Eq, Structural)]
pub enum OperationError {
    /// The deposit's inclusion proof does not lead to the deposit root.
    DepositMerkleInvalid,
}

/// Why a state transition was refused.
#[derive(Clone, Copy, Debug, PartialEq, Eq, Structural)]
pub enum TransitionError {
    /// A hash tree root could not be computed.
    Merkle(MerkleError),
    /// A signature did not verify.
    Signature(SignatureError),
    /// An operation is invalid.
    Operation(OperationError),
    /// A balance would exceed the largest representable amount.
    BalanceOverflow,
}

impl From<OperationError> for TransitionError {
    fn from(error: OperationError) -> (wrapped: Self) {
        TransitionError::Operation(error)
    }
}

impl vstd::std_specs::convert::FromSpecImpl<OperationError> for TransitionError {
    open spec fn obeys_from_spec() -> bool {
        true
    }

    open spec fn from_spec(error: OperationError) -> Self {
        TransitionError::Operation(error)
    }
}

/// Why the fork-choice store refused an event.
#[derive(Clone, Copy, Debug, PartialEq, Eq)]
pub enum ForkChoiceError {
    /// No block with this root is known.
    PayloadEnvelopeForUnknownBlock(Root),
    /// The payload data of the block with this root cannot be had.
    PayloadDataUnavailable(Root),
    /// The execution engine rejects the payload of the block with this root.
    PayloadExecutionInvalid(Root),
    /// The envelope does not verify against the block's state.
    Transition(TransitionError),
}

impl From<TransitionError> for ForkChoiceError {
    fn from(error: TransitionError) -> (wrapped: Self) {
        ForkChoiceError::Transition(error)
    }
}

impl vstd::std_specs::convert::FromSpecImpl<TransitionError> for ForkChoiceError {
    open spec fn obeys_from_spec() -> bool {
        true
    }

    open spec fn from_spec(error: TransitionError) -> Self {
        ForkChoiceError::Transition(error)
    }
}

} // verus!
