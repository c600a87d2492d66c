use blst::min_pk::SecretKey;
use moonglass::constants::{
    BLS_SIGNATURE_TAG, DOMAIN_BUILDER_DEPOSIT, DOMAIN_DEPOSIT, FAR_FUTURE_EPOCH,
};
use moonglass::containers::{
    BeaconState, Builder, BuilderDepositRequest, Deposit, DepositData, Eth1Data, PendingDeposit,
    Validator,
};
use moonglass::error::{MerkleError, OperationError, TransitionError};
use moonglass::primitives::{
    BLSPubkey, BLSSignature, Bytes32, Epoch, ExecutionAddress, Gwei, ParticipationFlags, Root, Slot,
};
use sha2::{Digest, Sha256};

fn empty_state(slot: u64) -> BeaconState {
    BeaconState {
        slot: Slot(slot),
        eth1_data: Eth1Data { deposit_root: Root::default() },
        eth1_deposit_index: 0,
        validators: vec![],
        balances: vec![],
        previous_epoch_participation: vec![],
        current_epoch_participation: vec![],
        inactivity_scores: vec![],
        pending_deposits: vec![],
        builders: vec![],
    }
}

fn pair(left: &[u8], right: &[u8]) -> [u8; 32] {
    let mut hasher = Sha256::new();
    hasher.update(left);
    hasher.update(right);
    hasher.finalize().into()
}

/// The message that a deposit of this kind signs, computed step by step.
fn signed_message(kind: [u8; 4], pubkey: &[u8; 48], credentials: &[u8; 32], amount: u64) -> [u8; 32] {
    let mut key_tail = [0u8; 32];
    key_tail[..16].copy_from_slice(&pubkey[32..]);
    let mut amount_chunk = [0u8; 32];
    amount_chunk[..8].copy_from_slice(&amount.to_le_bytes());
    let key_root = pair(&pubkey[..32], &key_tail);
    let message_root = pair(&pair(&key_root, credentials), &pair(&amount_chunk, &[0; 32]));
    let mut domain = [0u8; 32];
    domain[..4].copy_from_slice(&kind);
    domain[4..].copy_from_slice(&pair(&[0; 32], &[0; 32])[..28]);
    pair(&message_root, &domain)
}

fn secret(seed: u8) -> SecretKey {
    SecretKey::key_gen(&[seed; 32], &[]).unwrap()
}

fn key_of(secret: &SecretKey) -> BLSPubkey {
    BLSPubkey(secret.sk_to_pk().to_bytes())
}

fn sign(secret: &SecretKey, kind: [u8; 4], credentials: &Bytes32, amount: Gwei) -> BLSSignature {
    let message = signed_message(kind, &key_of(secret).0, &credentials.0, amount.0);
    BLSSignature(secret.sign(&message, BLS_SIGNATURE_TAG.as_bytes(), &[]).to_bytes())
}

fn deposit_data(seed: u8, amount: u64) -> DepositData {
    let secret = secret(seed);
    let credentials = Bytes32([1; 32]);
    DepositData {
        pubkey: key_of(&secret),
        withdrawal_credentials: credentials,
        amount: Gwei(amount),
        signature: sign(&secret, DOMAIN_DEPOSIT, &credentials, Gwei(amount)),
    }
}

fn builder_request(seed: u8, amount: u64) -> BuilderDepositRequest {
    let secret = secret(seed);
    let mut credentials = Bytes32([0; 32]);
    for i in 0..32u8 {
        credentials.0[i as usize] = i + 3;
    }
    BuilderDepositRequest {
        pubkey: key_of(&secret),
        withdrawal_credentials: credentials,
        amount: Gwei(amount),
        signature: sign(&secret, DOMAIN_BUILDER_DEPOSIT, &credentials, Gwei(amount)),
    }
}

fn builder(key: u8, balance: u64, withdrawable_epoch: u64) -> Builder {
    Builder {
        pubkey: BLSPubkey([key; 48]),
        version: 3,
        execution_address: ExecutionAddress([key; 20]),
        balance: Gwei(balance),
        deposit_epoch: Epoch(0),
        withdrawable_epoch: Epoch(withdrawable_epoch),
    }
}

fn is_aligned(state: &BeaconState) -> bool {
    let n = state.validators.len();
    state.balances.len() == n
        && state.previous_epoch_participation.len() == n
        && state.current_epoch_participation.len() == n
        && state.inactivity_scores.len() == n
}

#[test]
fn new_validator_starts_with_nothing_scheduled() {
    let mut state = empty_state(100);
    let amount = Gwei(31_999_999_999);
    assert_eq!(
        state.add_validator_to_registry(BLSPubkey([5; 48]), Bytes32([1; 32]), amount),
        Ok(())
    );
    assert_eq!(
        state.validators,
        vec![Validator {
            pubkey: BLSPubkey([5; 48]),
            withdrawal_credentials: Bytes32([1; 32]),
            effective_balance: Gwei(31_000_000_000),
            slashed: false,
            activation_eligibility_epoch: Epoch(FAR_FUTURE_EPOCH),
            activation_epoch: Epoch(FAR_FUTURE_EPOCH),
            exit_epoch: Epoch(FAR_FUTURE_EPOCH),
            withdrawable_epoch: Epoch(FAR_FUTURE_EPOCH),
        }]
    );
    assert_eq!(state.balances, vec![amount]);
    assert_eq!(state.previous_epoch_participation, vec![ParticipationFlags(0)]);
    assert_eq!(state.current_epoch_participation, vec![ParticipationFlags(0)]);
    assert_eq!(state.inactivity_scores, vec![0]);
    assert!(state.pending_deposits.is_empty());
}

#[test]
fn effective_balance_is_whole_and_capped() {
    let mut compounding = Bytes32([7; 32]);
    compounding.0[0] = 2;
    let mut plain = Bytes32([2; 32]);
    plain.0[0] = 1;
    for (credentials, amount, effective) in [
        (plain, 0, 0),
        (plain, 999_999_999, 0),
        (plain, 1_000_000_000, 1_000_000_000),
        (plain, 32_000_000_000, 32_000_000_000),
        (plain, 40_500_000_000, 32_000_000_000),
        (compounding, 40_500_000_000, 40_000_000_000),
        (compounding, 2_048_000_000_000, 2_048_000_000_000),
        (compounding, u64::MAX, 2_048_000_000_000),
    ] {
        let mut state = empty_state(0);
        state.add_validator_to_registry(BLSPubkey([1; 48]), credentials, Gwei(amount)).unwrap();
        assert_eq!(state.validators[0].effective_balance, Gwei(effective));
        assert_eq!(state.balances[0], Gwei(amount));
    }
}

#[test]
fn place_for_a_new_builder_is_the_lowest_drained_one() {
    let mut state = empty_state(10 * 32);
    assert_eq!(state.index_for_new_builder(), 0);
    state.builders = vec![
        builder(1, 0, FAR_FUTURE_EPOCH),
        builder(2, 5, 10),
        builder(3, 0, 11),
        builder(4, 0, 10),
        builder(5, 0, 3),
    ];
    assert_eq!(state.index_for_new_builder(), 3);
    state.builders[3].balance = Gwei(1);
    assert_eq!(state.index_for_new_builder(), 4);
    state.builders[4].balance = Gwei(1);
    assert_eq!(state.index_for_new_builder(), 5);
}

#[test]
fn new_builder_takes_over_a_drained_place() {
    let mut state = empty_state(10 * 32 + 31);
    state.builders = vec![builder(1, 9, 0), builder(2, 0, 10), builder(3, 0, 10)];
    let request = builder_request(1, 42);
    assert_eq!(
        state.add_builder_to_registry(
            request.pubkey,
            request.withdrawal_credentials,
            request.amount
        ),
        Ok(())
    );
    let mut address = [0u8; 20];
    for i in 0..20u8 {
        address[i as usize] = i + 15;
    }
    let expected = Builder {
        pubkey: request.pubkey,
        version: 3,
        execution_address: ExecutionAddress(address),
        balance: Gwei(42),
        deposit_epoch: Epoch(10),
        withdrawable_epoch: Epoch(FAR_FUTURE_EPOCH),
    };
    assert_eq!(state.builders, vec![builder(1, 9, 0), expected, builder(3, 0, 10)]);
}

#[test]
fn new_builder_is_appended_where_no_place_is_free() {
    let mut state = empty_state(0);
    state.builders = vec![builder(1, 9, 0)];
    state.add_builder_to_registry(BLSPubkey([8; 48]), Bytes32([0; 32]), Gwei(0)).unwrap();
    state.add_builder_to_registry(BLSPubkey([9; 48]), Bytes32([0; 32]), Gwei(0)).unwrap();
    assert_eq!(state.builders.len(), 3);
    assert_eq!(state.builders[0], builder(1, 9, 0));
    assert_eq!(state.builders[2].pubkey, BLSPubkey([9; 48]));
}

#[test]
fn signed_builder_request_registers_and_the_next_one_tops_up() {
    let mut state = empty_state(64);
    let request = builder_request(1, 100);
    assert_eq!(state.process_builder_deposit_request(&request), Ok(()));
    assert_eq!(state.builders.len(), 1);
    assert_eq!(state.builders[0].pubkey, request.pubkey);
    assert_eq!(state.builders[0].balance, Gwei(100));
    assert_eq!(state.builders[0].deposit_epoch, Epoch(2));

    let mut unsigned = request;
    unsigned.amount = Gwei(11);
    assert_eq!(state.process_builder_deposit_request(&unsigned), Ok(()));
    assert_eq!(state.builders.len(), 1);
    assert_eq!(state.builders[0].balance, Gwei(111));
    assert_eq!(state.builders[0].withdrawable_epoch, Epoch(FAR_FUTURE_EPOCH));
    assert!(state.validators.is_empty());
}

#[test]
fn unsigned_builder_request_is_dropped() {
    let mut state = empty_state(64);
    let before = state.clone();
    let mut request = builder_request(1, 100);
    request.amount = Gwei(101);
    assert_eq!(state.process_builder_deposit_request(&request), Ok(()));
    assert_eq!(state, before);
}

#[test]
fn validator_signature_does_not_pass_for_a_builder() {
    let mut state = empty_state(0);
    let data = deposit_data(1, 7);
    let request = BuilderDepositRequest {
        pubkey: data.pubkey,
        withdrawal_credentials: data.withdrawal_credentials,
        amount: data.amount,
        signature: data.signature,
    };
    assert_eq!(state.process_builder_deposit_request(&request), Ok(()));
    assert!(state.builders.is_empty());
    assert_eq!(
        state.is_valid_deposit_signature(
            &data.pubkey,
            data.withdrawal_credentials,
            data.amount,
            &data.signature
        ),
        Ok(true)
    );
    let builder = builder_request(1, 7);
    assert_eq!(
        state.is_valid_deposit_signature(
            &builder.pubkey,
            builder.withdrawal_credentials,
            builder.amount,
            &builder.signature
        ),
        Ok(false)
    );
}

#[test]
fn top_up_puts_off_the_withdrawal_of_a_leaving_builder() {
    let mut state = empty_state(10 * 32);
    state.builders = vec![builder(1, 5, 12), builder(2, 6, FAR_FUTURE_EPOCH)];
    assert_eq!(state.top_up_builder(0, Gwei(1)), Ok(()));
    assert_eq!(state.builders[0], builder(1, 6, 74));
    assert_eq!(state.top_up_builder(1, Gwei(1)), Ok(()));
    assert_eq!(state.builders[1], builder(2, 7, FAR_FUTURE_EPOCH));
}

#[test]
fn top_up_of_a_builder_that_waits_longer_than_the_delay() {
    let mut state = empty_state(0);
    state.builders = vec![builder(1, 5, 1000)];
    assert_eq!(state.top_up_builder(0, Gwei(0)), Ok(()));
    assert_eq!(state.builders[0], builder(1, 5, 64));
}

#[test]
fn top_up_beyond_the_largest_balance_is_refused() {
    let mut state = empty_state(10 * 32);
    let mut request = builder_request(1, 2);
    let mut rich = builder(1, u64::MAX - 1, 12);
    rich.pubkey = request.pubkey;
    state.builders = vec![builder(9, 1, 0), rich];
    let before = state.clone();
    assert_eq!(
        state.process_builder_deposit_request(&request),
        Err(TransitionError::BalanceOverflow)
    );
    assert_eq!(state, before);
    request.amount = Gwei(1);
    assert_eq!(state.process_builder_deposit_request(&request), Ok(()));
    assert_eq!(state.builders[1].balance, Gwei(u64::MAX));
    assert_eq!(state.builders[0], builder(9, 1, 0));
}

#[test]
fn request_tops_up_the_first_of_two_builders_with_one_key() {
    let mut state = empty_state(0);
    state.builders = vec![builder(4, 1, 9), builder(7, 1, 9), builder(7, 2, 9)];
    let mut request = builder_request(1, 10);
    request.pubkey = BLSPubkey([7; 48]);
    assert_eq!(state.process_builder_deposit_request(&request), Ok(()));
    assert_eq!(state.builders, vec![builder(4, 1, 9), builder(7, 11, 64), builder(7, 2, 9)]);
}

#[test]
fn registering_follows_the_verdict() {
    let request = builder_request(1, 10);
    let mut state = empty_state(0);
    assert_eq!(state.register_builder(&request, Ok(false)), Ok(()));
    assert!(state.builders.is_empty());
    let error = TransitionError::Merkle(MerkleError::ForkData);
    assert_eq!(state.register_builder(&request, Err(error)), Err(error));
    assert!(state.builders.is_empty());
    assert_eq!(state.register_builder(&request, Ok(true)), Ok(()));
    assert_eq!(state.builders.len(), 1);
}

#[test]
fn stake_of_builders_grows_by_the_deposit() {
    let mut state = empty_state(10 * 32);
    state.builders = vec![builder(1, 3, 0), builder(2, 0, 1), builder(3, 4, 20)];
    let total = |state: &BeaconState| state.builders.iter().map(|b| b.balance.0).sum::<u64>();
    state.process_builder_deposit_request(&builder_request(1, 50)).unwrap();
    assert_eq!(total(&state), 57);
    state.process_builder_deposit_request(&builder_request(1, 50)).unwrap();
    assert_eq!(total(&state), 107);
    assert_eq!(state.builders.len(), 3);
}

#[test]
fn first_deposit_registers_without_balance_and_is_queued() {
    let mut state = empty_state(99);
    let data = deposit_data(1, 32_000_000_000);
    assert_eq!(
        state.apply_deposit(data.pubkey, data.withdrawal_credentials, data.amount, data.signature),
        Ok(())
    );
    assert_eq!(state.validators.len(), 1);
    assert_eq!(state.validators[0].pubkey, data.pubkey);
    assert_eq!(state.validators[0].effective_balance, Gwei(0));
    assert_eq!(state.balances, vec![Gwei(0)]);
    assert_eq!(
        state.pending_deposits,
        vec![PendingDeposit {
            pubkey: data.pubkey,
            withdrawal_credentials: data.withdrawal_credentials,
            amount: data.amount,
            signature: data.signature,
            slot: Slot(0),
        }]
    );
    assert!(is_aligned(&state));
}

#[test]
fn first_deposit_without_a_valid_signature_is_dropped() {
    let mut state = empty_state(99);
    let before = state.clone();
    let data = deposit_data(1, 32_000_000_000);
    let result = state.apply_deposit(
        data.pubkey,
        data.withdrawal_credentials,
        Gwei(31_000_000_000),
        data.signature,
    );
    assert_eq!(result, Ok(()));
    assert_eq!(state, before);
    state
        .apply_deposit(data.pubkey, Bytes32([2; 32]), data.amount, data.signature)
        .unwrap();
    assert_eq!(state, before);
}

#[test]
fn second_deposit_is_queued_whatever_its_signature() {
    let mut state = empty_state(99);
    let data = deposit_data(1, 5);
    state
        .apply_deposit(data.pubkey, data.withdrawal_credentials, data.amount, data.signature)
        .unwrap();
    state
        .apply_deposit(data.pubkey, Bytes32([9; 32]), Gwei(6), BLSSignature([0; 96]))
        .unwrap();
    assert_eq!(state.validators.len(), 1);
    assert_eq!(state.validators[0].withdrawal_credentials, data.withdrawal_credentials);
    assert_eq!(state.pending_deposits.len(), 2);
    assert_eq!(state.pending_deposits[1].amount, Gwei(6));
    assert_eq!(state.pending_deposits[1].slot, Slot(0));
    assert_eq!(state.balances, vec![Gwei(0)]);
}

#[test]
fn admission_follows_the_verdict() {
    let data = deposit_data(1, 5);
    let mut state = empty_state(0);
    let before = state.clone();
    let credentials = data.withdrawal_credentials;
    let error = TransitionError::Merkle(MerkleError::DepositMessage);
    assert_eq!(
        state.admit_first_deposit(data.pubkey, credentials, Gwei(5), data.signature, Err(error)),
        Err(error)
    );
    assert_eq!(state, before);
    assert_eq!(
        state.admit_first_deposit(data.pubkey, credentials, Gwei(5), data.signature, Ok(false)),
        Ok(())
    );
    assert_eq!(state, before);
    assert_eq!(
        state.admit_first_deposit(data.pubkey, credentials, Gwei(5), data.signature, Ok(true)),
        Ok(())
    );
    assert_eq!(state.validators.len(), 1);
    assert_eq!(state.pending_deposits.len(), 1);
}

/// A deposit at `index` of a contract whose other nodes are made up, with
/// the contract's root.
fn proven_deposit(data: DepositData, index: u64) -> (Deposit, Root) {
    let mut proof = [Bytes32([0; 32]); 33];
    let mut value = data.tree_root().unwrap().0;
    for i in 0..33usize {
        proof[i] = Bytes32([i as u8 + 1; 32]);
        value = if (index >> i) & 1 == 1 {
            pair(&proof[i].0, &value)
        } else {
            pair(&value, &proof[i].0)
        };
    }
    (Deposit { proof, data }, Root(value))
}

#[test]
fn proven_deposit_moves_the_cursor_and_is_applied() {
    let mut state = empty_state(0);
    state.eth1_deposit_index = 5;
    let (deposit, root) = proven_deposit(deposit_data(1, 5), 5);
    state.eth1_data.deposit_root = root;
    assert_eq!(state.process_deposit(&deposit), Ok(()));
    assert_eq!(state.eth1_deposit_index, 6);
    assert_eq!(state.validators.len(), 1);
    assert_eq!(state.pending_deposits.len(), 1);
    assert_eq!(state.pending_deposits[0].amount, Gwei(5));
    assert!(is_aligned(&state));
}

#[test]
fn deposit_that_is_not_proven_at_the_cursor_is_refused() {
    let refused = Err(TransitionError::Operation(OperationError::DepositMerkleInvalid));
    let mut state = empty_state(0);
    state.eth1_deposit_index = 5;
    let (deposit, root) = proven_deposit(deposit_data(1, 5), 5);
    state.eth1_data.deposit_root = root;

    let before = state.clone();
    let mut forged = deposit;
    forged.data.amount = Gwei(6);
    assert_eq!(state.process_deposit(&forged), refused);
    assert_eq!(state, before);
    let mut forged = deposit;
    forged.proof[32].0[31] = 0;
    assert_eq!(state.process_deposit(&forged), refused);
    assert_eq!(state, before);

    assert_eq!(state.process_deposit(&deposit), Ok(()));
    let after = state.clone();
    assert_eq!(state.process_deposit(&deposit), refused);
    assert_eq!(state, after);
}

#[test]
fn proven_deposit_with_a_bad_signature_only_moves_the_cursor() {
    let mut state = empty_state(0);
    let mut data = deposit_data(1, 5);
    data.signature = BLSSignature([0; 96]);
    let (deposit, root) = proven_deposit(data, 0);
    state.eth1_data.deposit_root = root;
    assert_eq!(state.process_deposit(&deposit), Ok(()));
    assert_eq!(state.eth1_deposit_index, 1);
    assert!(state.validators.is_empty());
    assert!(state.pending_deposits.is_empty());
}

#[test]
fn cursor_stays_at_its_end() {
    let mut state = empty_state(0);
    state.eth1_deposit_index = u64::MAX;
    let (deposit, root) = proven_deposit(deposit_data(1, 5), u64::MAX);
    state.eth1_data.deposit_root = root;
    assert_eq!(state.process_deposit(&deposit), Ok(()));
    assert_eq!(state.eth1_deposit_index, u64::MAX);
}

#[test]
fn registered_builder_is_not_disturbed_by_validator_deposits() {
    let mut state = empty_state(0);
    state.builders = vec![builder(1, 2, 3)];
    let data = deposit_data(1, 5);
    state
        .apply_deposit(data.pubkey, data.withdrawal_credentials, data.amount, data.signature)
        .unwrap();
    assert_eq!(state.builders, vec![builder(1, 2, 3)]);
    assert_eq!(state.eth1_deposit_index, 0);
}
