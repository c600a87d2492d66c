use moonglass::containers::DepositData;
use moonglass::error::{MerkleError, OperationError, SignatureError, TransitionError};
use moonglass::primitives::{
    BLSPubkey, BLSSignature, Bytes32, Domain, Epoch, Gwei, Root, Slot,
};
use moonglass::state_transition::operations::deposits::signature_verdict;
use moonglass::state_transition::signing::{
    compute_domain, compute_signing_root, verify_signature,
};

fn hex(bytes: &[u8]) -> String {
    bytes.iter().map(|byte| format!("{byte:02x}")).collect()
}

#[test]
fn domain_of_deposits_on_the_genesis_fork() {
    let domain = compute_domain([3, 0, 0, 0], [0; 4], Root::default()).unwrap();
    assert_eq!(hex(&domain.0), "03000000f5a5fd42d16a20302798ef6ed309979b43003d2320d9f0e8ea9831a9");
}

#[test]
fn domain_depends_on_every_argument() {
    let domain = compute_domain([3, 0, 0, 0], [0; 4], Root([0; 32])).unwrap();
    assert_ne!(domain, compute_domain([14, 0, 0, 0], [0; 4], Root([0; 32])).unwrap());
    assert_ne!(domain, compute_domain([3, 0, 0, 0], [1, 0, 0, 0], Root([0; 32])).unwrap());
    assert_ne!(domain, compute_domain([3, 0, 0, 0], [0; 4], Root([1; 32])).unwrap());
}

#[test]
fn signing_root_of_an_object() {
    let domain = compute_domain([3, 0, 0, 0], [0; 4], Root::default()).unwrap();
    let root = compute_signing_root(Root([7; 32]), domain, MerkleError::DepositMessage).unwrap();
    assert_eq!(hex(&root.0), "50301c3b82aceefa8f0b804463bd60ace94cbdae4d182d1b8bdda657067f8548");
    let other = Domain([1; 32]);
    assert_ne!(
        root,
        compute_signing_root(Root([7; 32]), other, MerkleError::DepositMessage).unwrap()
    );
}

#[test]
fn root_of_deposit_data() {
    let mut pubkey = [0u8; 48];
    for i in 0..48u8 {
        pubkey[i as usize] = i;
    }
    let data = DepositData {
        pubkey: BLSPubkey(pubkey),
        withdrawal_credentials: Bytes32([1; 32]),
        amount: Gwei(32_000_000_000),
        signature: BLSSignature([9; 96]),
    };
    let root = data.tree_root().unwrap();
    assert_eq!(hex(&root.0), "a5a2819a404462f05a400053baf891b6106b7251eef53e52f798d63be6535680");
}

#[test]
fn root_of_deposit_data_binds_each_field() {
    let data = DepositData {
        pubkey: BLSPubkey([1; 48]),
        withdrawal_credentials: Bytes32([2; 32]),
        amount: Gwei(3),
        signature: BLSSignature([4; 96]),
    };
    let root = data.tree_root().unwrap();
    let mut other = data;
    other.pubkey.0[47] = 9;
    assert_ne!(root, other.tree_root().unwrap());
    let mut other = data;
    other.withdrawal_credentials.0[31] = 9;
    assert_ne!(root, other.tree_root().unwrap());
    let mut other = data;
    other.amount = Gwei(3 << 56);
    assert_ne!(root, other.tree_root().unwrap());
    let mut other = data;
    other.signature.0[95] = 9;
    assert_ne!(root, other.tree_root().unwrap());
}

#[test]
fn signature_verifies_for_its_own_key_and_message_only() {
    let tag = moonglass::constants::BLS_SIGNATURE_TAG;
    let secret = blst::min_pk::SecretKey::key_gen(&[5; 32], &[]).unwrap();
    let pubkey = BLSPubkey(secret.sk_to_pk().to_bytes());
    let message = Root([8; 32]);
    let signature = BLSSignature(secret.sign(&message.0, tag.as_bytes(), &[]).to_bytes());
    assert_eq!(verify_signature(&pubkey, message, &signature, SignatureError::Deposit), Ok(()));

    let failed = Err(TransitionError::Signature(SignatureError::Deposit));
    let other = Root([9; 32]);
    assert_eq!(verify_signature(&pubkey, other, &signature, SignatureError::Deposit), failed);
    let stranger = blst::min_pk::SecretKey::key_gen(&[6; 32], &[]).unwrap();
    let stranger = BLSPubkey(stranger.sk_to_pk().to_bytes());
    assert_eq!(verify_signature(&stranger, message, &signature, SignatureError::Deposit), failed);
    let untagged = BLSSignature(secret.sign(&message.0, b"another tag", &[]).to_bytes());
    assert_eq!(verify_signature(&pubkey, message, &untagged, SignatureError::Deposit), failed);
}

#[test]
fn malformed_keys_and_signatures_verify_nothing() {
    let failed = Err(TransitionError::Signature(SignatureError::Deposit));
    let secret = blst::min_pk::SecretKey::key_gen(&[5; 32], &[]).unwrap();
    let pubkey = BLSPubkey(secret.sk_to_pk().to_bytes());
    let message = Root([8; 32]);
    assert_eq!(
        verify_signature(&pubkey, message, &BLSSignature([0; 96]), SignatureError::Deposit),
        failed
    );
    let mut infinity_key = [0u8; 48];
    infinity_key[0] = 0xc0;
    let mut infinity_signature = [0u8; 96];
    infinity_signature[0] = 0xc0;
    assert_eq!(
        verify_signature(
            &BLSPubkey(infinity_key),
            message,
            &BLSSignature(infinity_signature),
            SignatureError::Deposit
        ),
        failed
    );
    assert_eq!(
        verify_signature(
            &BLSPubkey([0; 48]),
            message,
            &BLSSignature(infinity_signature),
            SignatureError::Deposit
        ),
        failed
    );
}

#[test]
fn verdicts_tell_failure_from_error() {
    assert_eq!(signature_verdict(Ok(())), Ok(true));
    assert_eq!(
        signature_verdict(Err(TransitionError::Signature(SignatureError::Deposit))),
        Ok(false)
    );
    let merkle = TransitionError::Merkle(MerkleError::DepositMessage);
    assert_eq!(signature_verdict(Err(merkle)), Err(merkle));
    let operation = TransitionError::from(OperationError::DepositMerkleInvalid);
    assert_eq!(signature_verdict(Err(operation)), Err(operation));
    let overflow = TransitionError::BalanceOverflow;
    assert_eq!(signature_verdict(Err(overflow)), Err(overflow));
}

#[test]
fn quantities() {
    assert_eq!(Slot(0).epoch(), Epoch(0));
    assert_eq!(Slot(31).epoch(), Epoch(0));
    assert_eq!(Slot(32).epoch(), Epoch(1));
    assert_eq!(Epoch(5).saturating_add(64), Epoch(69));
    assert_eq!(Epoch(u64::MAX - 1).saturating_add(64), Epoch(u64::MAX));
    assert_eq!(Gwei(1).checked_add(Gwei(2)), Some(Gwei(3)));
    assert_eq!(Gwei(u64::MAX).checked_add(Gwei(0)), Some(Gwei(u64::MAX)));
    assert_eq!(Gwei(u64::MAX).checked_add(Gwei(1)), None);
}
