//! What deposits sign, down to the bytes that are hashed.
use crate::constants::{BLS_SIGNATURE_TAG, DOMAIN_BUILDER_DEPOSIT, DOMAIN_DEPOSIT};
use crate::containers::{BuilderDepositRequest, DepositData};
use crate::hashing;
use crate::primitives::{BLSPubkey, BLSSignature, Bytes32, Gwei};
use crate::state_transition::operations::deposits;
use crate::state_transition::signing;
use vstd::prelude::*;

verus! {

/// The root of a deposit message is the root of a tree of four leaves: the root
/// of the key, the credentials, the amount and a zero chunk. The root of the key
/// is the digest of its 48 bytes and 16 zeros.
pub proof fn law_message_root_layout(
    pubkey: BLSPubkey,
    withdrawal_credentials: Bytes32,
    amount: Gwei,
)
    ensures
        deposits::deposit_message_root(pubkey, withdrawal_credentials, amount) == hashing::sha256(
            hashing::sha256(
                hashing::sha256(pubkey.0@ + Seq::new(16, |i: int| 0u8))@
                    + withdrawal_credentials.0@,
            )@ + hashing::sha256(
                vstd::bytes::spec_u64_to_le_bytes(amount.0) + Seq::new(56, |i: int| 0u8),
            )@,
        )@,
{
    vstd::bytes::lemma_auto_spec_u64_to_from_le_bytes();
    hashing::law_root_of_two_chunks(pubkey.0@);
    hashing::law_u64_chunk_is_little_endian(amount.0);
    let key_root = hashing::sha256(pubkey.0@ + Seq::new(16, |i: int| 0u8))@;
    assert(pubkey.0@ + Seq::new((64 - 48) as nat, |i: int| 0u8) =~= pubkey.0@ + Seq::new(
        16,
        |i: int| 0u8,
    ));
    assert(hashing::merkle_root(pubkey.0@) == key_root);
    let fields = key_root + withdrawal_credentials.0@ + hashing::u64_chunk(amount.0);
    hashing::law_root_of_four_chunks(fields);
    assert(fields.take(64) =~= key_root + withdrawal_credentials.0@);
    assert(fields.skip(64) + Seq::new((128 - fields.len()) as nat, |i: int| 0u8)
        =~= vstd::bytes::spec_u64_to_le_bytes(amount.0) + Seq::new(56, |i: int| 0u8));
}

/// The root of deposit data is the root of a tree of four leaves: the root of
/// the key, the credentials, the amount and the root of the signature. The root
/// of the signature is that of its three chunks and a zero chunk.
pub proof fn law_data_root_layout(data: DepositData)
    ensures
        deposits::deposit_data_root(data) == hashing::sha256(
            hashing::sha256(
                hashing::sha256(data.pubkey.0@ + Seq::new(16, |i: int| 0u8))@
                    + data.withdrawal_credentials.0@,
            )@ + hashing::sha256(
                vstd::bytes::spec_u64_to_le_bytes(data.amount.0) + Seq::new(24, |i: int| 0u8)
                    + hashing::sha256(
                    hashing::sha256(data.signature.0@.take(64))@ + hashing::sha256(
                        data.signature.0@.skip(64) + Seq::new(32, |i: int| 0u8),
                    )@,
                )@,
            )@,
        )@,
{
    vstd::bytes::lemma_auto_spec_u64_to_from_le_bytes();
    hashing::law_root_of_two_chunks(data.pubkey.0@);
    hashing::law_u64_chunk_is_little_endian(data.amount.0);
    hashing::law_root_of_four_chunks(data.signature.0@);
    let key_root = hashing::sha256(data.pubkey.0@ + Seq::new(16, |i: int| 0u8))@;
    assert(data.pubkey.0@ + Seq::new((64 - 48) as nat, |i: int| 0u8) =~= data.pubkey.0@ + Seq::new(
        16,
        |i: int| 0u8,
    ));
    assert(hashing::merkle_root(data.pubkey.0@) == key_root);
    assert(data.signature.0@.skip(64) + Seq::new((128 - 96) as nat, |i: int| 0u8)
        =~= data.signature.0@.skip(64) + Seq::new(32, |i: int| 0u8));
    let signature_root = hashing::sha256(
        hashing::sha256(data.signature.0@.take(64))@ + hashing::sha256(
            data.signature.0@.skip(64) + Seq::new(32, |i: int| 0u8),
        )@,
    )@;
    assert(hashing::merkle_root(data.signature.0@) == signature_root);
    let fields = key_root + data.withdrawal_credentials.0@ + hashing::u64_chunk(data.amount.0)
        + signature_root;
    hashing::law_root_of_four_chunks(fields);
    assert(fields.take(64) =~= key_root + data.withdrawal_credentials.0@);
    assert(fields.skip(64) + Seq::new((128 - fields.len()) as nat, |i: int| 0u8)
        =~= vstd::bytes::spec_u64_to_le_bytes(data.amount.0) + Seq::new(24, |i: int| 0u8)
        + signature_root);
}

/// The domain of deposits of one type is the type, followed by the first 28
/// bytes of the digest of 64 zeros: the genesis fork of no chain in particular.
pub proof fn law_deposit_domain_layout(domain_type: Seq<u8>)
    requires
        domain_type.len() == 4,
    ensures
        deposits::deposit_domain(domain_type) == domain_type + hashing::sha256(
            Seq::new(64, |i: int| 0u8),
        )@.take(28),
{
    let zeros = Seq::new(64, |i: int| 0u8);
    let version = crate::constants::GENESIS_FORK_VERSION@;
    let root = crate::primitives::zero_bytes(32);
    signing::law_domain_layout(domain_type, version, root);
    assert(version + Seq::new(28, |i: int| 0u8) + root =~= zeros);
}

/// A deposit signature is valid exactly if it is one by the deposit's own key
/// over the digest of the root of this very message, with this key, these
/// credentials and this amount, and of the domain.
pub proof fn law_signature_is_over_this_deposit(
    domain_type: Seq<u8>,
    pubkey: BLSPubkey,
    withdrawal_credentials: Bytes32,
    amount: Gwei,
    signature: BLSSignature,
)
    requires
        domain_type.len() == 4,
    ensures
        deposits::deposit_signature_valid(
            domain_type,
            pubkey,
            withdrawal_credentials,
            amount,
            signature,
        ) == signing::bls_verifies(
            pubkey.0@,
            hashing::sha256(
                hashing::sha256(
                    hashing::sha256(
                        hashing::sha256(pubkey.0@ + Seq::new(16, |i: int| 0u8))@
                            + withdrawal_credentials.0@,
                    )@ + hashing::sha256(
                        vstd::bytes::spec_u64_to_le_bytes(amount.0) + Seq::new(56, |i: int| 0u8),
                    )@,
                )@ + (domain_type + hashing::sha256(Seq::new(64, |i: int| 0u8))@.take(28)),
            )@,
            BLS_SIGNATURE_TAG@,
            signature.0@,
        ),
{
    law_message_root_layout(pubkey, withdrawal_credentials, amount);
    law_deposit_domain_layout(domain_type);
    signing::law_signing_root_layout(
        deposits::deposit_message_root(pubkey, withdrawal_credentials, amount),
        deposits::deposit_domain(domain_type),
    );
}

/// A validator deposit and a builder's request are each judged by their own
/// key, credentials, amount and signature, under the domain of their kind.
pub proof fn law_signatures_are_judged_by_kind(data: DepositData, request: BuilderDepositRequest)
    ensures
        deposits::deposit_data_signature_valid(data) == deposits::deposit_signature_valid(
            DOMAIN_DEPOSIT@,
            data.pubkey,
            data.withdrawal_credentials,
            data.amount,
            data.signature,
        ),
        deposits::builder_deposit_signature_valid(request) == deposits::deposit_signature_valid(
            DOMAIN_BUILDER_DEPOSIT@,
            request.pubkey,
            request.withdrawal_credentials,
            request.amount,
            request.signature,
        ),
        DOMAIN_DEPOSIT@ != DOMAIN_BUILDER_DEPOSIT@,
{
    assert(DOMAIN_DEPOSIT@[0] != DOMAIN_BUILDER_DEPOSIT@[0]);
}

} // verus!
