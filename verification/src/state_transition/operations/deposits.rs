//! Deposit processing and the validator and builder registries.
//!
//! Validator deposits enter `pending_deposits` and are credited later, when the
//! epoch processing drains that queue. Builder deposit requests arrive apart
//! from them and register a new builder or top up an existing one.
use crate::constants::{
    BLS_SIGNATURE_TAG, COMPOUNDING_WITHDRAWAL_PREFIX, DEPOSIT_CONTRACT_TREE_DEPTH, DOMAIN_BUILDER_DEPOSIT,
    DOMAIN_DEPOSIT, EFFECTIVE_BALANCE_INCREMENT, FAR_FUTURE_EPOCH, GENESIS_FORK_VERSION,
    GENESIS_SLOT, MAX_EFFECTIVE_BALANCE, MIN_ACTIVATION_BALANCE, MIN_BUILDER_WITHDRAWABILITY_DELAY,
    SLOTS_PER_EPOCH,
};
use crate::containers::{
    BeaconState, BeaconStateView, Builder, BuilderDepositRequest, Deposit, DepositData,
    PendingDeposit, Validator,
};
use crate::error::{MerkleError, OperationError, SignatureError, TransitionError};
use crate::hashing;
use crate::hashing::{append_bytes, byte_vector_root, sha256_digest, u64_root};
use crate::primitives;
use crate::primitives::{
    BLSPubkey, BLSSignature, Bytes32, Epoch, ExecutionAddress, Gwei, ParticipationFlags, Root, Slot,
};
use crate::state_transition::operations::message_laws;
use crate::state_transition::signing;
use crate::state_transition::signing::{
    compute_domain, compute_signing_root, merkle_result, verify_signature,
};
use vstd::prelude::*;

verus! {

/// What is hashed into the parent of `value` and its sibling. `value` is the
/// right child where the path is odd.
pub open spec fn merkle_children(value: Seq<u8>, sibling: Seq<u8>, path: nat) -> Seq<u8> {
    if path % 2 == 1 {
        sibling + value
    } else {
        value + sibling
    }
}

/// The parent of `value` and its sibling.
pub open spec fn merkle_parent(value: Seq<u8>, sibling: Seq<u8>, path: nat) -> Seq<u8> {
    hashing::sha256(merkle_children(value, sibling, path))@
}

/// The root that `value` leads to when it is hashed with each sibling in turn,
/// from the bottom up, along `path`.
pub open spec fn merkle_fold(value: Seq<u8>, branch: Seq<Bytes32>, path: nat) -> Seq<u8>
    decreases branch.len(),
{
    if branch.len() == 0 {
        value
    } else {
        merkle_fold(
            merkle_parent(value, branch[0].0@, path),
            branch.drop_first(),
            path / 2,
        )
    }
}

/// Whether `branch` proves that `leaf` stands at `index` of a tree of `depth`
/// levels with `root`.
pub open spec fn merkle_branch_valid(
    leaf: Root,
    branch: Seq<Bytes32>,
    depth: nat,
    index: nat,
    root: Root,
) -> bool {
    branch.len() == depth && merkle_fold(leaf.0@, branch, index) == root.0@
}

/// The hash of two nodes.
fn hash_pair(left: &[u8; 32], right: &[u8; 32]) -> (parent: [u8; 32])
    ensures
        parent == hashing::sha256(left@ + right@),
{
    let mut data: Vec<u8> = Vec::new();
    append_bytes(&mut data, left.as_slice());
    append_bytes(&mut data, right.as_slice());
    assert(data@ =~= left@ + right@);
    sha256_digest(data.as_slice())
}

/// SHA-256 Merkle inclusion check against `root`. `leaf` is hashed with
/// `branch[i]`, on the side that bit `i` of `index` tells, for `depth` levels.
/// A branch of another length proves nothing.
#[must_use]
pub fn is_valid_merkle_branch(
    leaf: Root,
    branch: &[Bytes32],
    depth: usize,
    index: u64,
    root: Root,
) -> (valid: bool)
    requires
        branch@.len() == depth ==> depth <= 64,
    ensures
        valid == merkle_branch_valid(leaf, branch@, depth as nat, index as nat, root),
{
    if branch.len() != depth {
        return false;
    }
    let mut value: [u8; 32] = leaf.0;
    let mut path: u64 = index;
    let mut i: usize = 0;
    assert(branch@.skip(0) =~= branch@);
    while i < branch.len()
        invariant
            i <= branch@.len(),
            merkle_fold(leaf.0@, branch@, index as nat) == merkle_fold(
                value@,
                branch@.skip(i as int),
                path as nat,
            ),
        decreases branch@.len() - i,
    {
        let sibling = branch[i];
        assert(path & 1 == path % 2) by (bit_vector);
        assert(path >> 1 == path / 2) by (bit_vector);
        assert(branch@.skip(i as int).drop_first() =~= branch@.skip(i + 1));
        if path & 1 == 1 {
            value = hash_pair(&sibling.0, &value);
        } else {
            value = hash_pair(&value, &sibling.0);
        }
        path = path >> 1;
        i = i + 1;
    }
    let folded = Root(value);
    assert(folded.0@ == root.0@ ==> folded.0 =~= root.0);
    folded == root
}

/// What a depositor signs.
struct DepositMessage {
    pubkey: BLSPubkey,
    withdrawal_credentials: Bytes32,
    amount: Gwei,
}

/// The hash tree root of the message that a depositor signs.
pub open spec fn deposit_message_root(
    pubkey: BLSPubkey,
    withdrawal_credentials: Bytes32,
    amount: Gwei,
) -> Seq<u8> {
    hashing::merkle_root(
        hashing::merkle_root(pubkey.0@) + withdrawal_credentials.0@
            + hashing::u64_chunk(amount.0),
    )
}

/// The hash tree root of deposit data.
pub open spec fn deposit_data_root(data: DepositData) -> Seq<u8> {
    hashing::merkle_root(
        hashing::merkle_root(data.pubkey.0@) + data.withdrawal_credentials.0@
            + hashing::u64_chunk(data.amount.0) + hashing::merkle_root(
            data.signature.0@,
        ),
    )
}

/// Appends the roots of a public key, withdrawal credentials and an amount to
/// `fields`.
fn append_deposit_fields(
    fields: &mut Vec<u8>,
    pubkey: &BLSPubkey,
    withdrawal_credentials: &Bytes32,
    amount: Gwei,
) -> (result: Result<(), TransitionError>)
    ensures
        result is Ok,
        final(fields)@ == old(fields)@ + (hashing::merkle_root(pubkey.0@)
            + withdrawal_credentials.0@ + hashing::u64_chunk(amount.0)),
        hashing::merkle_root(pubkey.0@).len() == 32,
{
    let mut key: Vec<u8> = Vec::new();
    append_bytes(&mut key, pubkey.0.as_slice());
    assert(key@ =~= pubkey.0@);
    let key_root = match merkle_result(byte_vector_root::<48>(key), MerkleError::DepositMessage) {
        Ok(root) => root,
        Err(error) => return Err(error),
    };
    let amount_root = match merkle_result(
        u64_root(amount.as_u64()),
        MerkleError::DepositMessage,
    ) {
        Ok(root) => root,
        Err(error) => return Err(error),
    };
    append_bytes(fields, key_root.0.as_slice());
    append_bytes(fields, withdrawal_credentials.0.as_slice());
    append_bytes(fields, amount_root.0.as_slice());
    assert(fields@ =~= old(fields)@ + (key_root.0@ + withdrawal_credentials.0@ + amount_root.0@));
    Ok(())
}

impl DepositMessage {
    /// The hash tree root of the message.
    fn tree_root(&self) -> (result: Result<Root, TransitionError>)
        ensures
            result matches Ok(root) && root.0@ == deposit_message_root(
                self.pubkey,
                self.withdrawal_credentials,
                self.amount,
            ),
    {
        let mut fields: Vec<u8> = Vec::new();
        match append_deposit_fields(
            &mut fields,
            &self.pubkey,
            &self.withdrawal_credentials,
            self.amount,
        ) {
            Ok(()) => {},
            Err(error) => return Err(error),
        }
        assert(fields@ =~= hashing::merkle_root(self.pubkey.0@)
            + self.withdrawal_credentials.0@ + hashing::u64_chunk(self.amount.0));
        merkle_result(byte_vector_root::<96>(fields), MerkleError::DepositMessage)
    }
}

impl DepositData {
    /// The hash tree root of the deposit data, which is the leaf that the
    /// deposit contract holds.
    pub fn tree_root(&self) -> (result: Result<Root, TransitionError>)
        ensures
            result matches Ok(root) && root.0@ == deposit_data_root(*self),
    {
        let mut fields: Vec<u8> = Vec::new();
        match append_deposit_fields(
            &mut fields,
            &self.pubkey,
            &self.withdrawal_credentials,
            self.amount,
        ) {
            Ok(()) => {},
            Err(error) => return Err(error),
        }
        let mut signature: Vec<u8> = Vec::new();
        append_bytes(&mut signature, self.signature.0.as_slice());
        assert(signature@ =~= self.signature.0@);
        let signature_root = match merkle_result(
            byte_vector_root::<96>(signature),
            MerkleError::DepositMessage,
        ) {
            Ok(root) => root,
            Err(error) => return Err(error),
        };
        append_bytes(&mut fields, signature_root.0.as_slice());
        assert(fields@ =~= hashing::merkle_root(self.pubkey.0@)
            + self.withdrawal_credentials.0@ + hashing::u64_chunk(self.amount.0)
            + signature_root.0@);
        merkle_result(byte_vector_root::<128>(fields), MerkleError::DepositMessage)
    }
}

/// The message of a deposit signature under `domain_type`: the deposit's own
/// message, bound to the genesis fork and to no chain in particular.
pub open spec fn deposit_signing_root(
    domain_type: Seq<u8>,
    pubkey: BLSPubkey,
    withdrawal_credentials: Bytes32,
    amount: Gwei,
) -> Seq<u8> {
    signing::signing_root(
        deposit_message_root(pubkey, withdrawal_credentials, amount),
        deposit_domain(domain_type),
    )
}

/// The domain of deposits of one type: that of the genesis fork and of the
/// all-zero genesis validators root.
pub open spec fn deposit_domain(domain_type: Seq<u8>) -> Seq<u8> {
    signing::domain_bytes(
        domain_type,
        GENESIS_FORK_VERSION@,
        primitives::zero_bytes(32),
    )
}

/// Whether a deposit carries a signature by its own key, under `domain_type`.
pub open spec fn deposit_signature_valid(
    domain_type: Seq<u8>,
    pubkey: BLSPubkey,
    withdrawal_credentials: Bytes32,
    amount: Gwei,
    signature: BLSSignature,
) -> bool {
    signing::bls_verifies(
        pubkey.0@,
        deposit_signing_root(domain_type, pubkey, withdrawal_credentials, amount),
        BLS_SIGNATURE_TAG@,
        signature.0@,
    )
}

/// Whether deposit data carries a valid signature.
pub open spec fn deposit_data_signature_valid(data: DepositData) -> bool {
    deposit_signature_valid(
        DOMAIN_DEPOSIT@,
        data.pubkey,
        data.withdrawal_credentials,
        data.amount,
        data.signature,
    )
}

/// Whether a builder's deposit request carries a valid signature.
pub open spec fn builder_deposit_signature_valid(request: BuilderDepositRequest) -> bool {
    deposit_signature_valid(
        DOMAIN_BUILDER_DEPOSIT@,
        request.pubkey,
        request.withdrawal_credentials,
        request.amount,
        request.signature,
    )
}

/// Verifies a deposit signature under the deposit domain of `domain_type`.
fn verify_signature_under(
    domain_type: [u8; 4],
    pubkey: &BLSPubkey,
    withdrawal_credentials: Bytes32,
    amount: Gwei,
    signature: &BLSSignature,
) -> (result: Result<(), TransitionError>)
    ensures
        result == (if deposit_signature_valid(
            domain_type@,
            *pubkey,
            withdrawal_credentials,
            amount,
            *signature,
        ) {
            Ok(())
        } else {
            Err(TransitionError::Signature(SignatureError::Deposit))
        }),
{
    let domain = match compute_domain(domain_type, GENESIS_FORK_VERSION, Root::default()) {
        Ok(domain) => domain,
        Err(error) => return Err(error),
    };
    let message = DepositMessage { pubkey: *pubkey, withdrawal_credentials, amount };
    let message_root = match message.tree_root() {
        Ok(root) => root,
        Err(error) => return Err(error),
    };
    let signing_root = match compute_signing_root(
        message_root,
        domain,
        MerkleError::DepositMessage,
    ) {
        Ok(root) => root,
        Err(error) => return Err(error),
    };
    verify_signature(pubkey, signing_root, signature, SignatureError::Deposit)
}

/// Tells a signature that fails from a check that could not be made: the one
/// is the answer `false`, the other stays an error.
pub fn signature_verdict(outcome: Result<(), TransitionError>) -> (verdict: Result<
    bool,
    TransitionError,
>)
    ensures
        verdict == (match outcome {
            Ok(()) => Ok(true),
            Err(TransitionError::Signature(_)) => Ok(false),
            Err(error) => Err(error),
        }),
{
    match outcome {
        Ok(()) => Ok(true),
        Err(TransitionError::Signature(_)) => Ok(false),
        Err(error) => Err(error),
    }
}

/// The largest effective balance that withdrawal credentials admit.
pub open spec fn effective_balance_cap(withdrawal_credentials: Bytes32) -> u64 {
    if withdrawal_credentials.0@[0] == COMPOUNDING_WITHDRAWAL_PREFIX {
        MAX_EFFECTIVE_BALANCE
    } else {
        MIN_ACTIVATION_BALANCE
    }
}

/// The effective balance of a new validator: `amount` in whole increments, up
/// to the cap.
pub open spec fn effective_balance(withdrawal_credentials: Bytes32, amount: Gwei) -> Gwei {
    let whole = amount.0 - amount.0 % EFFECTIVE_BALANCE_INCREMENT;
    let cap = effective_balance_cap(withdrawal_credentials);
    if whole <= cap {
        Gwei(whole as u64)
    } else {
        Gwei(cap)
    }
}

/// A validator that has just deposited `amount`, with nothing scheduled.
pub open spec fn new_validator(
    pubkey: BLSPubkey,
    withdrawal_credentials: Bytes32,
    amount: Gwei,
) -> Validator {
    Validator {
        pubkey,
        withdrawal_credentials,
        effective_balance: effective_balance(withdrawal_credentials, amount),
        slashed: false,
        activation_eligibility_epoch: Epoch(FAR_FUTURE_EPOCH),
        activation_epoch: Epoch(FAR_FUTURE_EPOCH),
        exit_epoch: Epoch(FAR_FUTURE_EPOCH),
        withdrawable_epoch: Epoch(FAR_FUTURE_EPOCH),
    }
}

/// The execution address in withdrawal credentials: their last 20 bytes.
pub open spec fn address_in(withdrawal_credentials: Bytes32) -> ExecutionAddress {
    let bytes = withdrawal_credentials.0@;
    ExecutionAddress(
        [
            bytes[12], bytes[13], bytes[14], bytes[15], bytes[16], bytes[17], bytes[18], bytes[19],
            bytes[20], bytes[21], bytes[22], bytes[23], bytes[24], bytes[25], bytes[26], bytes[27],
            bytes[28], bytes[29], bytes[30], bytes[31],
        ],
    )
}

/// A builder that has just deposited `amount` in `epoch`.
pub open spec fn new_builder(
    pubkey: BLSPubkey,
    withdrawal_credentials: Bytes32,
    amount: Gwei,
    epoch: Epoch,
) -> Builder {
    Builder {
        pubkey,
        version: withdrawal_credentials.0@[0],
        execution_address: address_in(withdrawal_credentials),
        balance: amount,
        deposit_epoch: epoch,
        withdrawable_epoch: Epoch(FAR_FUTURE_EPOCH),
    }
}

/// Whether a new builder may take over the place of `builder`: it has left and
/// has nothing more to withdraw.
pub open spec fn is_reusable(builder: Builder, epoch: Epoch) -> bool {
    builder.withdrawable_epoch.0 <= epoch.0 && builder.balance.0 == 0
}

/// `builder` after a deposit of `amount` in `epoch`. If it had begun to leave,
/// it waits anew.
pub open spec fn topped_up(builder: Builder, amount: Gwei, epoch: Epoch) -> Builder {
    Builder {
        balance: Gwei((builder.balance.0 + amount.0) as u64),
        withdrawable_epoch: if builder.withdrawable_epoch.0 != FAR_FUTURE_EPOCH {
            primitives::epochs_after(epoch, MIN_BUILDER_WITHDRAWABILITY_DELAY)
        } else {
            builder.withdrawable_epoch
        },
        ..builder
    }
}

impl BeaconStateView {
    /// The epoch that the state is in.
    pub open spec fn epoch(self) -> Epoch {
        primitives::epoch_of(self.slot)
    }

    /// Whether every list that is kept per validator has as many entries as
    /// there are validators.
    pub open spec fn is_aligned(self) -> bool {
        &&& self.balances.len() == self.validators.len()
        &&& self.previous_epoch_participation.len() == self.validators.len()
        &&& self.current_epoch_participation.len() == self.validators.len()
        &&& self.inactivity_scores.len() == self.validators.len()
    }

    /// Whether some validator has this key.
    pub open spec fn has_validator(self, pubkey: BLSPubkey) -> bool {
        exists|i: int| 0 <= i < self.validators.len() && self.validators[i].pubkey == pubkey
    }

    /// The state with one more validator, and an entry for it in every list
    /// that is kept per validator.
    pub open spec fn with_validator(
        self,
        pubkey: BLSPubkey,
        withdrawal_credentials: Bytes32,
        amount: Gwei,
    ) -> Self {
        BeaconStateView {
            validators: self.validators.push(
                new_validator(pubkey, withdrawal_credentials, amount),
            ),
            balances: self.balances.push(amount),
            previous_epoch_participation: self.previous_epoch_participation.push(
                ParticipationFlags(0),
            ),
            current_epoch_participation: self.current_epoch_participation.push(
                ParticipationFlags(0),
            ),
            inactivity_scores: self.inactivity_scores.push(0),
            ..self
        }
    }

    /// The state with one more deposit in the queue, marked as one that came
    /// over the bridge.
    pub open spec fn with_pending_deposit(
        self,
        pubkey: BLSPubkey,
        withdrawal_credentials: Bytes32,
        amount: Gwei,
        signature: BLSSignature,
    ) -> Self {
        BeaconStateView {
            pending_deposits: self.pending_deposits.push(
                PendingDeposit {
                    pubkey,
                    withdrawal_credentials,
                    amount,
                    signature,
                    slot: Slot(GENESIS_SLOT),
                },
            ),
            ..self
        }
    }

    /// The state after the first deposit of a key whose signature is `valid`
    /// or not.
    pub open spec fn after_first_deposit(
        self,
        pubkey: BLSPubkey,
        withdrawal_credentials: Bytes32,
        amount: Gwei,
        signature: BLSSignature,
        valid: bool,
    ) -> Self {
        if valid {
            self.with_validator(pubkey, withdrawal_credentials, Gwei(0)).with_pending_deposit(
                pubkey,
                withdrawal_credentials,
                amount,
                signature,
            )
        } else {
            self
        }
    }

    /// The state after a deposit whose signature is `valid` or not. Only a key
    /// that the registry does not hold yet has to show a valid signature.
    pub open spec fn after_deposit(
        self,
        pubkey: BLSPubkey,
        withdrawal_credentials: Bytes32,
        amount: Gwei,
        signature: BLSSignature,
        valid: bool,
    ) -> Self {
        if self.has_validator(pubkey) {
            self.with_pending_deposit(pubkey, withdrawal_credentials, amount, signature)
        } else {
            self.after_first_deposit(pubkey, withdrawal_credentials, amount, signature, valid)
        }
    }

    /// The state with the deposit cursor one further, or at its end.
    pub open spec fn with_next_deposit_index(self) -> Self {
        BeaconStateView {
            eth1_deposit_index: if self.eth1_deposit_index < u64::MAX {
                (self.eth1_deposit_index + 1) as u64
            } else {
                u64::MAX
            },
            ..self
        }
    }

    /// Whether the deposit's proof leads from its data, at the cursor, to the
    /// root of the deposit contract.
    pub open spec fn deposit_proof_valid(self, deposit: Deposit) -> bool {
        merkle_fold(
            deposit_data_root(deposit.data),
            deposit.proof@,
            self.eth1_deposit_index as nat,
        ) == self.eth1_data.deposit_root.0@
    }

    /// Whether `index` is the place for a new builder: the lowest that can be
    /// reused, or the end of the registry where none can.
    pub open spec fn is_new_builder_index(self, index: int) -> bool {
        &&& 0 <= index <= self.builders.len()
        &&& forall|j: int| 0 <= j < index ==> !is_reusable(#[trigger] self.builders[j], self.epoch())
        &&& index < self.builders.len() ==> is_reusable(self.builders[index], self.epoch())
    }

    /// The place for a new builder.
    pub open spec fn new_builder_index(self) -> int {
        choose|index: int| self.is_new_builder_index(index)
    }

    /// The state with `builder` at `index`, which is a place in the registry
    /// or its end.
    pub open spec fn with_builder_at(self, index: int, builder: Builder) -> Self {
        BeaconStateView {
            builders: if index < self.builders.len() {
                self.builders.update(index, builder)
            } else {
                self.builders.push(builder)
            },
            ..self
        }
    }

    /// The state with one more builder.
    pub open spec fn with_builder(
        self,
        pubkey: BLSPubkey,
        withdrawal_credentials: Bytes32,
        amount: Gwei,
    ) -> Self {
        self.with_builder_at(
            self.new_builder_index(),
            new_builder(pubkey, withdrawal_credentials, amount, self.epoch()),
        )
    }

    /// Whether the first builder with `pubkey` stands at `index`.
    pub open spec fn is_builder_index(self, pubkey: BLSPubkey, index: int) -> bool {
        &&& 0 <= index < self.builders.len()
        &&& self.builders[index].pubkey == pubkey
        &&& forall|j: int| 0 <= j < index ==> (#[trigger] self.builders[j]).pubkey != pubkey
    }

    /// Whether some builder has this key.
    pub open spec fn has_builder(self, pubkey: BLSPubkey) -> bool {
        exists|i: int| 0 <= i < self.builders.len() && self.builders[i].pubkey == pubkey
    }

    /// Where the first builder with `pubkey` stands.
    pub open spec fn builder_index(self, pubkey: BLSPubkey) -> int {
        choose|index: int| self.is_builder_index(pubkey, index)
    }

    /// What a deposit of `amount` for the builder at `index` leads to.
    pub open spec fn after_top_up(self, index: int, amount: Gwei) -> Result<Self, TransitionError> {
        let builder = self.builders[index];
        if builder.balance.0 + amount.0 > u64::MAX {
            Err(TransitionError::BalanceOverflow)
        } else {
            Ok(self.with_builder_at(index, topped_up(builder, amount, self.epoch())))
        }
    }

    /// What a builder's deposit request leads to, where its signature is
    /// `valid` or not. Only a key that the registry does not hold yet has to
    /// show a valid signature.
    pub open spec fn after_builder_deposit(
        self,
        request: BuilderDepositRequest,
        valid: bool,
    ) -> Result<Self, TransitionError> {
        if self.has_builder(request.pubkey) {
            self.after_top_up(self.builder_index(request.pubkey), request.amount)
        } else if valid {
            Ok(
                self.with_builder(
                    request.pubkey,
                    request.withdrawal_credentials,
                    request.amount,
                ),
            )
        } else {
            Ok(self)
        }
    }
}

/// There is exactly one place for a new builder.
pub proof fn lemma_new_builder_index(state: BeaconStateView)
    ensures
        state.is_new_builder_index(state.new_builder_index()),
        forall|index: int|
            state.is_new_builder_index(index) ==> index == state.new_builder_index(),
{
    let end = state.builders.len() as int;
    lemma_new_builder_index_exists(state, end);
    if !(exists|index: int| state.is_new_builder_index(index)) {
        assert(state.is_new_builder_index(end));
    }
}

/// A place for a new builder exists, unless all of the first `bound` builders
/// stay where they are.
proof fn lemma_new_builder_index_exists(state: BeaconStateView, bound: int)
    requires
        0 <= bound <= state.builders.len(),
    ensures
        (exists|index: int| state.is_new_builder_index(index)) || forall|j: int|
            0 <= j < bound ==> !is_reusable(#[trigger] state.builders[j], state.epoch()),
    decreases bound,
{
    if bound > 0 {
        lemma_new_builder_index_exists(state, bound - 1);
        if is_reusable(state.builders[bound - 1], state.epoch()) && !(exists|index: int|
            state.is_new_builder_index(index)) {
            assert(state.is_new_builder_index(bound - 1));
        }
    }
}

/// A key that some builder has belongs to exactly one first builder.
pub proof fn lemma_builder_index(state: BeaconStateView, pubkey: BLSPubkey)
    requires
        state.has_builder(pubkey),
    ensures
        state.is_builder_index(pubkey, state.builder_index(pubkey)),
        forall|index: int|
            state.is_builder_index(pubkey, index) ==> index == state.builder_index(pubkey),
{
    let some = choose|i: int|
        0 <= i < state.builders.len() && state.builders[i].pubkey == pubkey;
    lemma_builder_index_up_to(state, pubkey, some);
}

/// Where a builder at `bound` has the key, the first one with it exists.
proof fn lemma_builder_index_up_to(state: BeaconStateView, pubkey: BLSPubkey, bound: int)
    requires
        0 <= bound < state.builders.len(),
        state.builders[bound].pubkey == pubkey,
    ensures
        exists|index: int| state.is_builder_index(pubkey, index),
    decreases bound,
{
    if exists|j: int| 0 <= j < bound && (#[trigger] state.builders[j]).pubkey == pubkey {
        let j = choose|j: int| 0 <= j < bound && (#[trigger] state.builders[j]).pubkey == pubkey;
        lemma_builder_index_up_to(state, pubkey, j);
    } else {
        assert(state.is_builder_index(pubkey, bound));
    }
}

impl BeaconState {
    /// Appends a fresh validator to the registry, and an entry for it to every
    /// list that is kept per validator. Epoch processing later schedules its
    /// eligibility and activation.
    pub fn add_validator_to_registry(
        &mut self,
        pubkey: BLSPubkey,
        withdrawal_credentials: Bytes32,
        amount: Gwei,
    ) -> (result: Result<(), TransitionError>)
        ensures
            result is Ok,
            final(self)@ == old(self)@.with_validator(pubkey, withdrawal_credentials, amount),
            ({
                let new = final(self).validators@[old(self).validators@.len() as int];
                &&& final(self).validators@ == old(self).validators@.push(new)
                &&& new.pubkey == pubkey
                &&& new.withdrawal_credentials == withdrawal_credentials
                &&& !new.slashed
                &&& new.activation_eligibility_epoch.0 == FAR_FUTURE_EPOCH
                &&& new.activation_epoch.0 == FAR_FUTURE_EPOCH
                &&& new.exit_epoch.0 == FAR_FUTURE_EPOCH
                &&& new.withdrawable_epoch.0 == FAR_FUTURE_EPOCH
            }),
            final(self).balances@ == old(self).balances@.push(amount),
    {
        let compounding = withdrawal_credentials.0[0] == COMPOUNDING_WITHDRAWAL_PREFIX;
        let max: u64 = if compounding {
            MAX_EFFECTIVE_BALANCE
        } else {
            MIN_ACTIVATION_BALANCE
        };
        let whole: u64 = amount.as_u64() - amount.as_u64() % EFFECTIVE_BALANCE_INCREMENT;
        let effective = Gwei(
            if whole <= max {
                whole
            } else {
                max
            },
        );
        let validator = Validator {
            pubkey,
            withdrawal_credentials,
            effective_balance: effective,
            slashed: false,
            activation_eligibility_epoch: Epoch(FAR_FUTURE_EPOCH),
            activation_epoch: Epoch(FAR_FUTURE_EPOCH),
            exit_epoch: Epoch(FAR_FUTURE_EPOCH),
            withdrawable_epoch: Epoch(FAR_FUTURE_EPOCH),
        };
        self.validators.push(validator);
        self.balances.push(amount);
        self.previous_epoch_participation.push(ParticipationFlags(0));
        self.current_epoch_participation.push(ParticipationFlags(0));
        self.inactivity_scores.push(0);
        Ok(())
    }

    /// The registry index that a new builder should occupy: the lowest one of
    /// a builder that has left with its balance fully drained, else the end.
    #[must_use]
    pub fn index_for_new_builder(&self) -> (index: usize)
        ensures
            self@.is_new_builder_index(index as int),
            index == self@.new_builder_index(),
            index <= self.builders@.len(),
            forall|j: int|
                0 <= j < index ==> (#[trigger] self.builders@[j]).balance.0 != 0
                    || self.builders@[j].withdrawable_epoch.0 > self.slot.0 / SLOTS_PER_EPOCH,
            index < self.builders@.len() ==> self.builders@[index as int].balance.0 == 0
                && self.builders@[index as int].withdrawable_epoch.0 <= self.slot.0
                / SLOTS_PER_EPOCH,
    {
        let current_epoch = self.slot.epoch();
        proof {
            lemma_new_builder_index(self@);
        }
        let mut i: usize = 0;
        while i < self.builders.len()
            invariant
                i <= self.builders@.len(),
                current_epoch == self@.epoch(),
                forall|j: int|
                    0 <= j < i ==> !is_reusable(#[trigger] self@.builders[j], current_epoch),
                forall|index: int|
                    self@.is_new_builder_index(index) ==> index == self@.new_builder_index(),
            decreases self.builders@.len() - i,
        {
            let builder = &self.builders[i];
            if builder.withdrawable_epoch.0 <= current_epoch.0 && builder.balance == Gwei(0) {
                assert(self@.is_new_builder_index(i as int));
                return i;
            }
            i = i + 1;
        }
        assert(self@.is_new_builder_index(i as int));
        self.builders.len()
    }

    /// Puts a new builder into the registry, in a place that can be reused or
    /// at the end.
    pub fn add_builder_to_registry(
        &mut self,
        pubkey: BLSPubkey,
        withdrawal_credentials: Bytes32,
        amount: Gwei,
    ) -> (result: Result<(), TransitionError>)
        ensures
            result is Ok,
            final(self)@ == old(self)@.with_builder(pubkey, withdrawal_credentials, amount),
            old(self)@.is_new_builder_index(old(self)@.new_builder_index()),
            ({
                let new = final(self).builders@[old(self)@.new_builder_index()];
                &&& new.pubkey == pubkey
                &&& new.version == withdrawal_credentials.0@[0]
                &&& forall|k: int|
                    0 <= k < 20 ==> #[trigger] new.execution_address.0@[k]
                        == withdrawal_credentials.0@[12 + k]
                &&& new.balance == amount
                &&& new.deposit_epoch.0 == old(self).slot.0 / SLOTS_PER_EPOCH
                &&& new.withdrawable_epoch.0 == FAR_FUTURE_EPOCH
            }),
    {
        let mut execution_address = [0u8; 20];
        let mut i: usize = 0;
        while i < 20
            invariant
                i <= 20,
                forall|k: int|
                    0 <= k < i ==> execution_address@[k] == withdrawal_credentials.0@[12 + k],
            decreases 20 - i,
        {
            execution_address[i] = withdrawal_credentials.0[12 + i];
            i = i + 1;
        }
        assert(execution_address =~= address_in(withdrawal_credentials).0);
        let deposit_epoch = self.slot.epoch();
        let builder = Builder {
            pubkey,
            version: withdrawal_credentials.0[0],
            execution_address: ExecutionAddress(execution_address),
            balance: amount,
            deposit_epoch,
            withdrawable_epoch: Epoch(FAR_FUTURE_EPOCH),
        };
        let index = self.index_for_new_builder();
        if index < self.builders.len() {
            self.builders[index] = builder;
        } else {
            self.builders.push(builder);
        }
        Ok(())
    }

    /// Where in the registry the first builder with `pubkey` stands.
    fn find_builder(&self, pubkey: &BLSPubkey) -> (index: Option<usize>)
        ensures
            index is Some == self@.has_builder(*pubkey),
            index matches Some(index) ==> index == self@.builder_index(*pubkey)
                && self@.is_builder_index(*pubkey, index as int),
    {
        let mut i: usize = 0;
        while i < self.builders.len()
            invariant
                i <= self.builders@.len(),
                forall|j: int| 0 <= j < i ==> (#[trigger] self@.builders[j]).pubkey != *pubkey,
            decreases self.builders@.len() - i,
        {
            if self.builders[i].pubkey == *pubkey {
                assert(self@.builders[i as int].pubkey == *pubkey);
                assert(self@.is_builder_index(*pubkey, i as int));
                proof {
                    lemma_builder_index(self@, *pubkey);
                }
                return Some(i);
            }
            i = i + 1;
        }
        None
    }

    /// Applies a builder's deposit request.
    ///
    /// A request for a key that is not in the registry registers a new builder
    /// when its signature verifies under the builder deposit domain, and is
    /// dropped when it does not. A request for an existing builder tops up its
    /// balance, and if that builder had begun to leave, puts its withdrawable
    /// epoch off so that the new stake is not paid out at once.
    pub fn process_builder_deposit_request(
        &mut self,
        request: &BuilderDepositRequest,
    ) -> (result: Result<(), TransitionError>)
        ensures
            match old(self)@.after_builder_deposit(
                *request,
                builder_deposit_signature_valid(*request),
            ) {
                Ok(state) => result is Ok && final(self)@ == state,
                Err(error) => result == Err::<(), _>(error) && final(self)@ == old(self)@,
            },
            old(self)@.is_new_builder_index(old(self)@.new_builder_index()),
            old(self)@.has_builder(request.pubkey) ==> old(self)@.is_builder_index(
                request.pubkey,
                old(self)@.builder_index(request.pubkey),
            ),
            (forall|j: int|
                0 <= j < old(self).builders@.len() ==> (#[trigger] old(self).builders@[j]).pubkey
                    != request.pubkey) ==> result is Ok && final(self)@ == (
            if builder_deposit_signature_valid(*request) {
                old(self)@.with_builder(
                    request.pubkey,
                    request.withdrawal_credentials,
                    request.amount,
                )
            } else {
                old(self)@
            }),
            forall|i: int|
                0 <= i < old(self).builders@.len() && (
                #[trigger] old(self).builders@[i]).pubkey == request.pubkey && (forall|j: int|
                    0 <= j < i ==> (#[trigger] old(self).builders@[j]).pubkey != request.pubkey)
                    ==> (result is Ok <==> old(self).builders@[i].balance.0 + request.amount.0
                    <= u64::MAX) && (result is Ok ==> final(self).builders@[i].balance.0 == old(
                    self,
                ).builders@[i].balance.0 + request.amount.0),
    {
        proof {
            lemma_new_builder_index(self@);
        }
        match self.find_builder(&request.pubkey) {
            None => {
                let verdict = Self::is_valid_builder_deposit_signature(request);
                self.register_builder(request, verdict)
            },
            Some(index) => self.top_up_builder(index, request.amount),
        }
    }

    /// Registers the builder that a request names, or does not, as the verdict
    /// on the request's signature tells.
    pub fn register_builder(
        &mut self,
        request: &BuilderDepositRequest,
        verdict: Result<bool, TransitionError>,
    ) -> (result: Result<(), TransitionError>)
        ensures
            verdict matches Err(error) ==> result == Err::<(), _>(error),
            verdict is Ok ==> result is Ok,
            final(self)@ == (if verdict == Ok::<bool, TransitionError>(true) {
                old(self)@.with_builder(
                    request.pubkey,
                    request.withdrawal_credentials,
                    request.amount,
                )
            } else {
                old(self)@
            }),
            old(self)@.is_new_builder_index(old(self)@.new_builder_index()),
    {
        proof {
            lemma_new_builder_index(self@);
        }
        match verdict {
            Ok(true) => self.add_builder_to_registry(
                request.pubkey,
                request.withdrawal_credentials,
                request.amount,
            ),
            Ok(false) => Ok(()),
            Err(error) => Err(error),
        }
    }

    /// Adds `amount` to the balance of the builder at `index`, which waits
    /// anew if it had begun to leave.
    pub fn top_up_builder(&mut self, index: usize, amount: Gwei) -> (result: Result<
        (),
        TransitionError,
    >)
        requires
            index < old(self).builders@.len(),
        ensures
            match old(self)@.after_top_up(index as int, amount) {
                Ok(state) => result is Ok && final(self)@ == state,
                Err(error) => result == Err::<(), _>(error) && final(self)@ == old(self)@,
            },
            result is Ok <==> old(self).builders@[index as int].balance.0 + amount.0 <= u64::MAX,
            result is Err ==> result == Err::<(), _>(TransitionError::BalanceOverflow)
                && final(self).builders@ == old(self).builders@,
            result is Ok ==> ({
                let before = old(self).builders@[index as int];
                let new = final(self).builders@[index as int];
                &&& final(self).builders@ == old(self).builders@.update(index as int, new)
                &&& new.pubkey == before.pubkey
                &&& new.version == before.version
                &&& new.execution_address == before.execution_address
                &&& new.balance.0 == before.balance.0 + amount.0
                &&& new.deposit_epoch == before.deposit_epoch
                &&& before.withdrawable_epoch.0 == FAR_FUTURE_EPOCH ==> new.withdrawable_epoch.0
                    == FAR_FUTURE_EPOCH
                &&& before.withdrawable_epoch.0 != FAR_FUTURE_EPOCH ==> new.withdrawable_epoch.0
                    == old(self).slot.0 / SLOTS_PER_EPOCH + MIN_BUILDER_WITHDRAWABILITY_DELAY
            }),
    {
        let current_epoch = self.slot.epoch();
        let mut builder = self.builders[index];
        builder.balance = match builder.balance.checked_add(amount) {
            Some(balance) => balance,
            None => return Err(TransitionError::BalanceOverflow),
        };
        if builder.withdrawable_epoch != Epoch(FAR_FUTURE_EPOCH) {
            builder.withdrawable_epoch =
            current_epoch.saturating_add(MIN_BUILDER_WITHDRAWABILITY_DELAY);
        }
        self.builders[index] = builder;
        Ok(())
    }

    /// Verifies a builder deposit's signature under the builder deposit
    /// domain, so that no validator deposit's signature passes for it.
    fn is_valid_builder_deposit_signature(request: &BuilderDepositRequest) -> (verdict: Result<
        bool,
        TransitionError,
    >)
        ensures
            verdict == Ok::<bool, TransitionError>(builder_deposit_signature_valid(*request)),
    {
        signature_verdict(
            verify_signature_under(
                DOMAIN_BUILDER_DEPOSIT,
                &request.pubkey,
                request.withdrawal_credentials,
                request.amount,
                &request.signature,
            ),
        )
    }

    /// Whether the registry holds a validator with `pubkey`.
    fn knows_validator(&self, pubkey: &BLSPubkey) -> (known: bool)
        ensures
            known == self@.has_validator(*pubkey),
    {
        let mut i: usize = 0;
        while i < self.validators.len()
            invariant
                i <= self.validators@.len(),
                forall|j: int| 0 <= j < i ==> (#[trigger] self@.validators[j]).pubkey != *pubkey,
            decreases self.validators@.len() - i,
        {
            if self.validators[i].pubkey == *pubkey {
                assert(self@.validators[i as int].pubkey == *pubkey);
                return true;
            }
            i = i + 1;
        }
        false
    }

    /// Puts a bridge deposit into the queue.
    fn queue_deposit(
        &mut self,
        pubkey: BLSPubkey,
        withdrawal_credentials: Bytes32,
        amount: Gwei,
        signature: BLSSignature,
    )
        ensures
            final(self)@ == old(self)@.with_pending_deposit(
                pubkey,
                withdrawal_credentials,
                amount,
                signature,
            ),
    {
        self.pending_deposits.push(
            PendingDeposit {
                pubkey,
                withdrawal_credentials,
                amount,
                signature,
                slot: Slot(GENESIS_SLOT),
            },
        );
    }

    /// Applies a bridge deposit.
    ///
    /// The first deposit of a key has to prove possession of it: with a valid
    /// signature the validator enters the registry at once, without any
    /// effective balance, and with an invalid one the deposit is dropped. The
    /// deposit is then queued, at the genesis slot, which tells it from the
    /// execution layer's deposit requests when the queue is drained.
    pub fn apply_deposit(
        &mut self,
        pubkey: BLSPubkey,
        withdrawal_credentials: Bytes32,
        amount: Gwei,
        signature: BLSSignature,
    ) -> (result: Result<(), TransitionError>)
        ensures
            result is Ok,
            final(self)@ == old(self)@.after_deposit(
                pubkey,
                withdrawal_credentials,
                amount,
                signature,
                deposit_signature_valid(
                    DOMAIN_DEPOSIT@,
                    pubkey,
                    withdrawal_credentials,
                    amount,
                    signature,
                ),
            ),
            (exists|i: int|
                0 <= i < old(self).validators@.len() && (
                #[trigger] old(self).validators@[i]).pubkey == pubkey) ==> final(self).validators@
                == old(self).validators@ && final(self).pending_deposits@ == old(
                self,
            ).pending_deposits@.push(
                PendingDeposit {
                    pubkey,
                    withdrawal_credentials,
                    amount,
                    signature,
                    slot: Slot(GENESIS_SLOT),
                },
            ),
            final(self).eth1_deposit_index == old(self).eth1_deposit_index,
            final(self).builders@ == old(self).builders@,
    {
        if self.knows_validator(&pubkey) {
            self.queue_deposit(pubkey, withdrawal_credentials, amount, signature);
            return Ok(());
        }
        assert forall|i: int| 0 <= i < self.validators@.len() implies (
        #[trigger] self.validators@[i]).pubkey != pubkey by {
            assert(self@.validators[i].pubkey != pubkey);
        }
        let verdict = self.is_valid_deposit_signature(
            &pubkey,
            withdrawal_credentials,
            amount,
            &signature,
        );
        self.admit_first_deposit(pubkey, withdrawal_credentials, amount, signature, verdict)
    }

    /// Admits the first deposit of a key, or does not, as the verdict on its
    /// signature tells.
    pub fn admit_first_deposit(
        &mut self,
        pubkey: BLSPubkey,
        withdrawal_credentials: Bytes32,
        amount: Gwei,
        signature: BLSSignature,
        verdict: Result<bool, TransitionError>,
    ) -> (result: Result<(), TransitionError>)
        ensures
            verdict matches Err(error) ==> result == Err::<(), _>(error),
            verdict is Ok ==> result is Ok,
            final(self)@ == old(self)@.after_first_deposit(
                pubkey,
                withdrawal_credentials,
                amount,
                signature,
                verdict == Ok::<bool, TransitionError>(true),
            ),
    {
        match verdict {
            Ok(true) => {
                match self.add_validator_to_registry(pubkey, withdrawal_credentials, Gwei(0)) {
                    Ok(()) => {
                        self.queue_deposit(pubkey, withdrawal_credentials, amount, signature);
                        Ok(())
                    },
                    Err(error) => Err(error),
                }
            },
            Ok(false) => Ok(()),
            Err(error) => Err(error),
        }
    }

    /// Checks that the deposit contract holds the deposit at the cursor, moves
    /// the cursor on, and applies the deposit.
    pub fn process_deposit(&mut self, deposit: &Deposit) -> (result: Result<(), TransitionError>)
        ensures
            old(self)@.deposit_proof_valid(*deposit) ==> result is Ok && final(self)@ == old(
                self,
            )@.with_next_deposit_index().after_deposit(
                deposit.data.pubkey,
                deposit.data.withdrawal_credentials,
                deposit.data.amount,
                deposit.data.signature,
                deposit_data_signature_valid(deposit.data),
            ),
            !old(self)@.deposit_proof_valid(*deposit) ==> result == Err::<(), _>(
                TransitionError::Operation(OperationError::DepositMerkleInvalid),
            ) && final(self)@ == old(self)@,
            old(self)@.deposit_proof_valid(*deposit) && old(self).eth1_deposit_index < u64::MAX
                ==> final(self).eth1_deposit_index == old(self).eth1_deposit_index + 1,
            old(self)@.deposit_proof_valid(*deposit) && old(self).eth1_deposit_index == u64::MAX
                ==> final(self).eth1_deposit_index == u64::MAX,
            !old(self)@.deposit_proof_valid(*deposit) ==> final(self).eth1_deposit_index == old(
                self,
            ).eth1_deposit_index,
    {
        let leaf = match deposit.data.tree_root() {
            Ok(root) => root,
            Err(error) => return Err(error),
        };
        if !is_valid_merkle_branch(
            leaf,
            deposit.proof.as_slice(),
            DEPOSIT_CONTRACT_TREE_DEPTH + 1,
            self.eth1_deposit_index,
            self.eth1_data.deposit_root,
        ) {
            return Err(TransitionError::from(OperationError::DepositMerkleInvalid));
        }
        self.eth1_deposit_index = self.eth1_deposit_index.saturating_add(1);
        self.apply_deposit(
            deposit.data.pubkey,
            deposit.data.withdrawal_credentials,
            deposit.data.amount,
            deposit.data.signature,
        )
    }

    /// Whether the deposit's signature verifies as a proof of possession under
    /// the deposit domain of the genesis fork. A signature that fails is an
    /// answer; a root or a domain that cannot be computed is an error.
    pub fn is_valid_deposit_signature(
        &self,
        pubkey: &BLSPubkey,
        withdrawal_credentials: Bytes32,
        amount: Gwei,
        signature: &BLSSignature,
    ) -> (verdict: Result<bool, TransitionError>)
        ensures
            verdict == Ok::<bool, TransitionError>(
                deposit_signature_valid(
                    DOMAIN_DEPOSIT@,
                    *pubkey,
                    withdrawal_credentials,
                    amount,
                    *signature,
                ),
            ),
            verdict == Ok::<bool, TransitionError>(
                signing::bls_verifies(
                    pubkey.0@,
                    hashing::sha256(
                        hashing::sha256(
                            hashing::sha256(
                                hashing::sha256(pubkey.0@ + Seq::new(16, |i: int| 0u8))@
                                    + withdrawal_credentials.0@,
                            )@ + hashing::sha256(
                                vstd::bytes::spec_u64_to_le_bytes(amount.0) + Seq::new(
                                    56,
                                    |i: int| 0u8,
                                ),
                            )@,
                        )@ + (DOMAIN_DEPOSIT@ + hashing::sha256(
                            Seq::new(64, |i: int| 0u8),
                        )@.take(28)),
                    )@,
                    BLS_SIGNATURE_TAG@,
                    signature.0@,
                ),
            ),
    {
        proof {
            message_laws::law_signature_is_over_this_deposit(
                DOMAIN_DEPOSIT@,
                *pubkey,
                withdrawal_credentials,
                amount,
                *signature,
            );
        }
        signature_verdict(
            Self::verify_deposit_signature(pubkey, withdrawal_credentials, amount, signature),
        )
    }

    /// Verifies a deposit's signature under the deposit domain of the genesis
    /// fork. The genesis validators root is that of all zeros, so that a
    /// signed deposit stays valid across forks.
    fn verify_deposit_signature(
        pubkey: &BLSPubkey,
        withdrawal_credentials: Bytes32,
        amount: Gwei,
        signature: &BLSSignature,
    ) -> (result: Result<(), TransitionError>)
        ensures
            result == (if deposit_signature_valid(
                DOMAIN_DEPOSIT@,
                *pubkey,
                withdrawal_credentials,
                amount,
                *signature,
            ) {
                Ok(())
            } else {
                Err(TransitionError::Signature(SignatureError::Deposit))
            }),
    {
        verify_signature_under(DOMAIN_DEPOSIT, pubkey, withdrawal_credentials, amount, signature)
    }
}

} // verus!
