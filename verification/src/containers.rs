//! The records of the beacon state that deposits touch, and the envelope in
//! which an execution payload is delivered.
use crate::primitives::{
    BLSPubkey, BLSSignature, Bytes32, Epoch, ExecutionAddress, Gwei, ParticipationFlags, Root, Slot,
};
use vstd::prelude::*;

verus! {

/// A validator's entry in the registry.
#[derive(Clone, Copy, Debug, PartialEq, Eq)]
pub struct Validator {
    pub pubkey: BLSPubkey,
    pub withdrawal_credentials: Bytes32,
    pub effective_balance: Gwei,
    pub slashed: bool,
    pub activation_eligibility_epoch: Epoch,
    pub activation_epoch: Epoch,
    pub exit_epoch: Epoch,
    pub withdrawable_epoch: Epoch,
}

/// A builder's entry in the registry.
#[derive(Clone, Copy, Debug, PartialEq, Eq)]
pub struct Builder {
    pub pubkey: BLSPubkey,
    pub version: u8,
    pub execution_address: ExecutionAddress,
    pub balance: Gwei,
    pub deposit_epoch: Epoch,
    pub withdrawable_epoch: Epoch,
}

/// A deposit that waits to be credited.
#[derive(Clone, Copy, Debug, PartialEq, Eq)]
pub struct PendingDeposit {
    pub pubkey: BLSPubkey,
    pub withdrawal_credentials: Bytes32,
    pub amount: Gwei,
    pub signature: BLSSignature,
    pub slot: Slot,
}

/// What a depositor committed to the deposit contract.
#[derive(Clone, Copy, Debug, PartialEq, Eq)]
pub struct DepositData {
    pub pubkey: BLSPubkey,
    pub withdrawal_credentials: Bytes32,
    pub amount: Gwei,
    pub signature: BLSSignature,
}

/// A deposit with the proof that the deposit contract holds it. The proof has
/// one sibling for each level of the contract's tree and, last, the number of
/// deposits.
#[derive(Clone, Copy, Debug, PartialEq, Eq)]
pub struct Deposit {
    pub proof: [Bytes32; 33],
    pub data: DepositData,
}

/// A builder's deposit, as the execution layer requests it.
#[derive(Clone, Copy, Debug, PartialEq, Eq)]
pub struct BuilderDepositRequest {
    pub pubkey: BLSPubkey,
    pub withdrawal_credentials: Bytes32,
    pub amount: Gwei,
    pub signature: BLSSignature,
}

/// What the chain has voted to know of the deposit contract.
#[derive(Clone, Copy, Debug, PartialEq, Eq)]
pub struct Eth1Data {
    pub deposit_root: Root,
}

/// The part of the beacon state that deposits read and write.
///
/// `balances`, the two participation lists and `inactivity_scores` hold one
/// entry for each validator, in the order of `validators`.
#[derive(Clone, Debug, PartialEq, Eq)]
pub struct BeaconState {
    pub slot: Slot,
    pub eth1_data: Eth1Data,
    pub eth1_deposit_index: u64,
    pub validators: Vec<Validator>,
    pub balances: Vec<Gwei>,
    pub previous_epoch_participation: Vec<ParticipationFlags>,
    pub current_epoch_participation: Vec<ParticipationFlags>,
    pub inactivity_scores: Vec<u64>,
    pub pending_deposits: Vec<PendingDeposit>,
    pub builders: Vec<Builder>,
}

/// A [`BeaconState`] with its lists as sequences.
#[verifier::ext_equal]
pub struct BeaconStateView {
    pub slot: Slot,
    pub eth1_data: Eth1Data,
    pub eth1_deposit_index: u64,
    pub validators: Seq<Validator>,
    pub balances: Seq<Gwei>,
    pub previous_epoch_participation: Seq<ParticipationFlags>,
    pub current_epoch_participation: Seq<ParticipationFlags>,
    pub inactivity_scores: Seq<u64>,
    pub pending_deposits: Seq<PendingDeposit>,
    pub builders: Seq<Builder>,
}

impl View for BeaconState {
    type V = BeaconStateView;

    open spec fn view(&self) -> BeaconStateView {
        BeaconStateView {
            slot: self.slot,
            eth1_data: self.eth1_data,
            eth1_deposit_index: self.eth1_deposit_index,
            validators: self.validators@,
            balances: self.balances@,
            previous_epoch_participation: self.previous_epoch_participation@,
            current_epoch_participation: self.current_epoch_participation@,
            inactivity_scores: self.inactivity_scores@,
            pending_deposits: self.pending_deposits@,
            builders: self.builders@,
        }
    }
}

/// An execution payload on its way to the beacon block that it completes.
#[derive(Debug, PartialEq, Eq)]
pub struct ExecutionPayloadEnvelope {
    /// Root of the beacon block that the payload belongs to.
    pub beacon_block_root: Root,
    /// The payload, with all that comes along with it, serialized.
    pub payload: Vec<u8>,
}

/// An [`ExecutionPayloadEnvelope`] with its payload as a sequence.
pub struct ExecutionPayloadEnvelopeView {
    pub beacon_block_root: Root,
    pub payload: Seq<u8>,
}

impl View for ExecutionPayloadEnvelope {
    type V = ExecutionPayloadEnvelopeView;

    open spec fn view(&self) -> ExecutionPayloadEnvelopeView {
        ExecutionPayloadEnvelopeView {
            beacon_block_root: self.beacon_block_root,
            payload: self.payload@,
        }
    }
}

impl Clone for ExecutionPayloadEnvelope {
    fn clone(&self) -> (copy: Self)
        ensures
            copy@ == self@,
            copy.beacon_block_root == self.beacon_block_root,
            copy.payload@ == self.payload@,
    {
        let payload = self.payload.clone();
        assert(payload@ =~= self.payload@);
        ExecutionPayloadEnvelope { beacon_block_root: self.beacon_block_root, payload }
    }
}

/// An envelope, signed by the builder of its payload.
#[derive(Clone, Debug, PartialEq, Eq)]
pub struct SignedExecutionPayloadEnvelope {
    pub message: ExecutionPayloadEnvelope,
    pub signature: BLSSignature,
}

/// The view of a state leaves nothing out and changes nothing.
pub proof fn law_state_view_is_faithful(state: BeaconState)
    ensures
        state@.slot == state.slot,
        state@.eth1_data == state.eth1_data,
        state@.eth1_deposit_index == state.eth1_deposit_index,
        state@.validators == state.validators@,
        state@.balances == state.balances@,
        state@.previous_epoch_participation == state.previous_epoch_participation@,
        state@.current_epoch_participation == state.current_epoch_participation@,
        state@.inactivity_scores == state.inactivity_scores@,
        state@.pending_deposits == state.pending_deposits@,
        state@.builders == state.builders@,
{
}

/// The view of an envelope leaves nothing out and changes nothing.
pub proof fn law_envelope_view_is_faithful(envelope: ExecutionPayloadEnvelope)
    ensures
        envelope@.beacon_block_root == envelope.beacon_block_root,
        envelope@.payload == envelope.payload@,
{
}

} // verus!
