//! Signing roots, domains and signature verification.
use crate::constants::BLS_SIGNATURE_TAG;
use crate::error::{MerkleError, SignatureError, TransitionError};
use crate::hashing;
use crate::hashing::{append_bytes, byte_vector_root};
use crate::primitives::{BLSPubkey, BLSSignature, Domain, Root};
use vstd::prelude::*;

verus! {

/// Whether `signature` is a signature of `message` by the holder of `pubkey`,
/// under the domain separation tag `tag`.
pub uninterp spec fn bls_verifies(
    pubkey: Seq<u8>,
    message: Seq<u8>,
    tag: Seq<char>,
    signature: Seq<u8>,
) -> bool;

/// An error of `blst`.
#[verifier::external_type_specification]
#[verifier::external_body]
pub struct ExBlstError(blst::BLST_ERROR);

/// Verifies a signature with `blst::min_pk::Signature::verify`, with the group
/// checks of both key and signature, after `PublicKey::from_bytes` and
/// `Signature::from_bytes` have decoded the two.
///
/// Trusted: whether all three succeed depends on the four arguments alone.
/// Which error comes otherwise is left unsaid.
#[verifier::external_body]
fn bls_verify(pubkey: &[u8], message: &[u8], tag: &str, signature: &[u8]) -> (outcome: Result<
    (),
    blst::BLST_ERROR,
>)
    ensures
        outcome is Ok == bls_verifies(pubkey@, message@, tag@, signature@),
{
    let key = blst::min_pk::PublicKey::from_bytes(pubkey)?;
    let signature = blst::min_pk::Signature::from_bytes(signature)?;
    match signature.verify(true, message, tag.as_bytes(), &[], &key, true) {
        blst::BLST_ERROR::BLST_SUCCESS => Ok(()),
        error => Err(error),
    }
}

/// Turns the outcome of a hash tree root computation into the library's own
/// terms.
pub(crate) fn merkle_result(
    root: Result<[u8; 32], ssz_rs::MerkleizationError>,
    kind: MerkleError,
) -> (result: Result<Root, TransitionError>)
    ensures
        root matches Ok(bytes) ==> result == Ok::<Root, TransitionError>(Root(bytes)),
        root is Err ==> result == Err::<Root, TransitionError>(TransitionError::Merkle(kind)),
{
    match root {
        Ok(bytes) => Ok(Root(bytes)),
        Err(_) => Err(TransitionError::Merkle(kind)),
    }
}

/// The bytes of the domain of `domain_type` on the fork with `fork_version` of
/// the chain with `genesis_validators_root`: the type, and what fits of the
/// root of the fork data.
pub open spec fn domain_bytes(
    domain_type: Seq<u8>,
    fork_version: Seq<u8>,
    genesis_validators_root: Seq<u8>,
) -> Seq<u8> {
    domain_type + fork_data_root(fork_version, genesis_validators_root).take(28)
}

/// The hash tree root of a fork version and a genesis validators root.
pub open spec fn fork_data_root(
    fork_version: Seq<u8>,
    genesis_validators_root: Seq<u8>,
) -> Seq<u8> {
    hashing::merkle_root(
        hashing::merkle_root(fork_version) + genesis_validators_root,
    )
}

/// The hash tree root of an object's root and the domain it is signed under.
pub open spec fn signing_root(object_root: Seq<u8>, domain: Seq<u8>) -> Seq<u8> {
    hashing::merkle_root(object_root + domain)
}

/// The domain that signatures of one type are bound to on one fork.
pub fn compute_domain(
    domain_type: [u8; 4],
    fork_version: [u8; 4],
    genesis_validators_root: Root,
) -> (result: Result<Domain, TransitionError>)
    ensures
        result matches Ok(domain) && domain.0@ == domain_bytes(
            domain_type@,
            fork_version@,
            genesis_validators_root.0@,
        ),
        result matches Ok(domain) && domain.0@ == domain_type@ + hashing::sha256(
            fork_version@ + Seq::new(28, |i: int| 0u8) + genesis_validators_root.0@,
        )@.take(28),
{
    let mut version: Vec<u8> = Vec::new();
    append_bytes(&mut version, fork_version.as_slice());
    let version_root = match merkle_result(byte_vector_root::<4>(version), MerkleError::ForkData) {
        Ok(root) => root,
        Err(error) => return Err(error),
    };
    let mut fields: Vec<u8> = Vec::new();
    append_bytes(&mut fields, version_root.0.as_slice());
    append_bytes(&mut fields, genesis_validators_root.0.as_slice());
    let root = match merkle_result(byte_vector_root::<64>(fields), MerkleError::ForkData) {
        Ok(root) => root,
        Err(error) => return Err(error),
    };
    let mut domain = [0u8; 32];
    let mut i: usize = 0;
    while i < 32
        invariant
            i <= 32,
            forall|k: int| 0 <= k < i && k < 4 ==> domain@[k] == domain_type@[k],
            forall|k: int| 4 <= k < i ==> domain@[k] == root.0@[k - 4],
        decreases 32 - i,
    {
        domain[i] = if i < 4 {
            domain_type[i]
        } else {
            root.0[i - 4]
        };
        i = i + 1;
    }
    assert(version@ =~= fork_version@);
    assert(domain@ =~= domain_type@ + root.0@.take(28));
    proof {
        law_domain_layout(domain_type@, fork_version@, genesis_validators_root.0@);
    }
    Ok(Domain(domain))
}

/// The message that is signed for an object with `object_root` under `domain`.
pub fn compute_signing_root(
    object_root: Root,
    domain: Domain,
    kind: MerkleError,
) -> (result: Result<Root, TransitionError>)
    ensures
        result matches Ok(root) && root.0@ == signing_root(object_root.0@, domain.0@),
        result matches Ok(root) && root.0 == hashing::sha256(object_root.0@ + domain.0@),
{
    proof {
        law_signing_root_layout(object_root.0@, domain.0@);
    }
    let mut fields: Vec<u8> = Vec::new();
    append_bytes(&mut fields, object_root.0.as_slice());
    append_bytes(&mut fields, domain.0.as_slice());
    assert(fields@ =~= object_root.0@ + domain.0@);
    let result = merkle_result(byte_vector_root::<64>(fields), kind);
    assert(result->Ok_0.0 =~= hashing::sha256(object_root.0@ + domain.0@));
    result
}

/// Checks a signature of `message`, and blames a failure on `kind`.
pub fn verify_signature(
    pubkey: &BLSPubkey,
    message: Root,
    signature: &BLSSignature,
    kind: SignatureError,
) -> (result: Result<(), TransitionError>)
    ensures
        result == (if bls_verifies(
            pubkey.0@,
            message.0@,
            BLS_SIGNATURE_TAG@,
            signature.0@,
        ) {
            Ok(())
        } else {
            Err(TransitionError::Signature(kind))
        }),
{
    let outcome = bls_verify(
        pubkey.0.as_slice(),
        message.0.as_slice(),
        BLS_SIGNATURE_TAG,
        signature.0.as_slice(),
    );
    match outcome {
        Ok(()) => Ok(()),
        Err(_) => Err(TransitionError::Signature(kind)),
    }
}

/// A domain is its type, followed by the first 28 bytes of the digest of the
/// fork version, 28 zeros and the genesis validators root.
pub proof fn law_domain_layout(
    domain_type: Seq<u8>,
    fork_version: Seq<u8>,
    genesis_validators_root: Seq<u8>,
)
    requires
        domain_type.len() == 4,
        fork_version.len() == 4,
        genesis_validators_root.len() == 32,
    ensures
        domain_bytes(domain_type, fork_version, genesis_validators_root) == domain_type
            + hashing::sha256(
            fork_version + Seq::new(28, |i: int| 0u8) + genesis_validators_root,
        )@.take(28),
{
    hashing::law_root_of_one_chunk(fork_version);
    let fields = fork_version + Seq::new(28, |i: int| 0u8) + genesis_validators_root;
    hashing::law_root_of_two_chunks(fields);
    assert(fields + Seq::new(0, |i: int| 0u8) =~= fields);
    assert(hashing::merkle_root(fork_version) + genesis_validators_root =~= fields);
}

/// A signing root is the digest of the object's root and the domain.
pub proof fn law_signing_root_layout(object_root: Seq<u8>, domain: Seq<u8>)
    requires
        object_root.len() == 32,
        domain.len() == 32,
    ensures
        signing_root(object_root, domain) == hashing::sha256(object_root + domain)@,
{
    let fields = object_root + domain;
    hashing::law_root_of_two_chunks(fields);
    assert(fields + Seq::new(0, |i: int| 0u8) =~= fields);
}

} // verus!
