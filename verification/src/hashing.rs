//! SHA-256 and the hash tree roots built on it.
use sha2::{Digest, Sha256};
use ssz_rs::{Merkleized, Vector};
use vstd::prelude::*;

verus! {

/// The SHA-256 digest of `data`.
pub uninterp spec fn sha256(data: Seq<u8>) -> [u8; 32];

/// Hashes `data` with `sha2::Sha256::digest`.
///
/// Trusted: the digest depends on `data` alone. Which 32 bytes it consists of
/// is left to [`sha256`].
#[verifier::external_body]
pub(crate) fn sha256_digest(data: &[u8]) -> (digest: [u8; 32])
    ensures
        digest == sha256(data@),
{
    Sha256::digest(data).into()
}

/// The `i`-th 32-byte chunk of `bytes`, filled up with zeros beyond their end.
pub open spec fn chunk(bytes: Seq<u8>, i: int) -> Seq<u8> {
    Seq::new(32, |k: int| if 32 * i + k < bytes.len() { bytes[32 * i + k] } else { 0u8 })
}

/// The root of the smallest perfect binary tree whose leaves hold the chunks
/// of `bytes`, for at most four chunks.
pub open spec fn merkle_root(bytes: Seq<u8>) -> Seq<u8>
    recommends
        0 < bytes.len() <= 128,
{
    if bytes.len() <= 32 {
        chunk(bytes, 0)
    } else if bytes.len() <= 64 {
        sha256(chunk(bytes, 0) + chunk(bytes, 1))@
    } else {
        sha256(
            sha256(chunk(bytes, 0) + chunk(bytes, 1))@ + sha256(chunk(bytes, 2) + chunk(bytes, 3))@,
        )@
    }
}

/// What is hashed on the way to [`merkle_root`], with the root's own input
/// last.
pub open spec fn merkle_inputs(bytes: Seq<u8>) -> Seq<Seq<u8>>
    recommends
        0 < bytes.len() <= 128,
{
    let left = chunk(bytes, 0) + chunk(bytes, 1);
    let right = chunk(bytes, 2) + chunk(bytes, 3);
    if bytes.len() <= 32 {
        seq![]
    } else if bytes.len() <= 64 {
        seq![left]
    } else {
        seq![left, right, sha256(left)@ + sha256(right)@]
    }
}

/// Two different inputs with one digest.
pub open spec fn is_collision(left: Seq<u8>, right: Seq<u8>) -> bool {
    left != right && sha256(left) == sha256(right)
}

/// Whether two lists hold a collision in one place.
pub open spec fn inputs_collide(left: Seq<Seq<u8>>, right: Seq<Seq<u8>>) -> bool {
    exists|i: int|
        0 <= i < left.len() && i < right.len() && #[trigger] is_collision(left[i], right[i])
}

/// A hash tree root binds what it was computed of: byte strings of one length
/// with one root are equal, or their computations exhibit a collision of
/// SHA-256.
pub proof fn law_merkle_root_binds(left: Seq<u8>, right: Seq<u8>)
    requires
        left.len() == right.len(),
        0 < left.len() <= 128,
        merkle_root(left) == merkle_root(right),
    ensures
        left == right || inputs_collide(merkle_inputs(left), merkle_inputs(right)),
{
    let n = left.len() as int;
    let l = merkle_inputs(left);
    let r = merkle_inputs(right);
    if !inputs_collide(l, r) {
        if n > 64 {
            assert(sha256(l[2]) =~= sha256(r[2]));
            assert(!is_collision(l[2], r[2]));
            assert(sha256(l[0])@ =~= l[2].take(32));
            assert(sha256(r[0])@ =~= r[2].take(32));
            assert(sha256(l[1])@ =~= l[2].skip(32));
            assert(sha256(r[1])@ =~= r[2].skip(32));
            assert(sha256(l[0]) =~= sha256(r[0]));
            assert(sha256(l[1]) =~= sha256(r[1]));
            assert(!is_collision(l[0], r[0]));
            assert(!is_collision(l[1], r[1]));
        } else if n > 32 {
            assert(sha256(l[0]) =~= sha256(r[0]));
            assert(!is_collision(l[0], r[0]));
        }
        assert forall|k: int| 0 <= k < n implies left[k] == right[k] by {
            let i = k / 32;
            let offset = k % 32;
            assert(left[k] == chunk(left, i)[offset]);
            assert(right[k] == chunk(right, i)[offset]);
            if n > 32 {
                assert(chunk(left, 0) =~= l[0].take(32));
                assert(chunk(right, 0) =~= r[0].take(32));
                assert(chunk(left, 1) =~= l[0].skip(32));
                assert(chunk(right, 1) =~= r[0].skip(32));
            }
            if n > 64 {
                assert(chunk(left, 2) =~= l[1].take(32));
                assert(chunk(right, 2) =~= r[1].take(32));
                assert(chunk(left, 3) =~= l[1].skip(32));
                assert(chunk(right, 3) =~= r[1].skip(32));
            }
        }
        assert(left =~= right);
    }
}

/// The little-endian bytes of `value`, filled up to a chunk.
pub open spec fn u64_chunk(value: u64) -> Seq<u8> {
    Seq::new(
        32,
        |i: int| if i < 8 { ((value >> (8 * i) as u64) & 0xff) as u8 } else { 0u8 },
    )
}

/// An error of `ssz_rs` while it computes a hash tree root.
#[verifier::external_type_specification]
#[verifier::external_body]
pub struct ExMerkleizationError(ssz_rs::MerkleizationError);

/// The hash tree root of a vector of `N` bytes, from
/// `ssz_rs::Vector::<u8, N>::hash_tree_root`.
///
/// Trusted: for one to four chunks this succeeds with [`merkle_root`]. The
/// vector packs its bytes into chunks and hashes the tree over them, with
/// SHA-256 and with zero chunks where leaves are missing; the only error in
/// that path is a limit on the number of chunks, and a vector sets none.
///
/// The root of a container is that of its fields' roots laid end to end.
#[verifier::external_body]
pub(crate) fn byte_vector_root<const N: usize>(bytes: Vec<u8>) -> (root: Result<
    [u8; 32],
    ssz_rs::MerkleizationError,
>)
    requires
        bytes@.len() == N,
        0 < N <= 128,
    ensures
        root matches Ok(root) && root@ == merkle_root(bytes@),
{
    let mut vector = Vector::<u8, N>::try_from(bytes).expect("the vector has N bytes");
    let node = vector.hash_tree_root()?;
    let mut root = [0u8; 32];
    root.copy_from_slice(node.as_ref());
    Ok(root)
}

/// The hash tree root of a number, from `<u64 as ssz_rs::Merkleized>::hash_tree_root`.
///
/// Trusted: this succeeds with [`u64_chunk`].
#[verifier::external_body]
pub(crate) fn u64_root(value: u64) -> (root: Result<[u8; 32], ssz_rs::MerkleizationError>)
    ensures
        root matches Ok(root) && root@ == u64_chunk(value),
{
    let mut value = value;
    let node = value.hash_tree_root()?;
    let mut root = [0u8; 32];
    root.copy_from_slice(node.as_ref());
    Ok(root)
}

/// Appends `extra` to `bytes`.
pub(crate) fn append_bytes(bytes: &mut Vec<u8>, extra: &[u8])
    ensures
        final(bytes)@ == old(bytes)@ + extra@,
{
    bytes.extend_from_slice(extra);
    assert(bytes@ =~= old(bytes)@ + extra@);
}

/// Up to 32 bytes are their own root, filled up with zeros.
pub proof fn law_root_of_one_chunk(bytes: Seq<u8>)
    requires
        0 < bytes.len() <= 32,
    ensures
        merkle_root(bytes) == bytes + Seq::new((32 - bytes.len()) as nat, |i: int| 0u8),
{
    assert(merkle_root(bytes) =~= bytes + Seq::new((32 - bytes.len()) as nat, |i: int| 0u8));
}

/// The root of 33 to 64 bytes is the digest of these bytes, filled up with
/// zeros to 64.
pub proof fn law_root_of_two_chunks(bytes: Seq<u8>)
    requires
        32 < bytes.len() <= 64,
    ensures
        merkle_root(bytes) == sha256(
            bytes + Seq::new((64 - bytes.len()) as nat, |i: int| 0u8),
        )@,
{
    assert(chunk(bytes, 0) + chunk(bytes, 1) =~= bytes + Seq::new(
        (64 - bytes.len()) as nat,
        |i: int| 0u8,
    ));
}

/// The root of 65 to 128 bytes is the digest of two digests: that of the first
/// 64 bytes, and that of the others, filled up with zeros to 64.
pub proof fn law_root_of_four_chunks(bytes: Seq<u8>)
    requires
        64 < bytes.len() <= 128,
    ensures
        merkle_root(bytes) == sha256(
            sha256(bytes.take(64))@ + sha256(
                bytes.skip(64) + Seq::new((128 - bytes.len()) as nat, |i: int| 0u8),
            )@,
        )@,
{
    assert(chunk(bytes, 0) + chunk(bytes, 1) =~= bytes.take(64));
    assert(chunk(bytes, 2) + chunk(bytes, 3) =~= bytes.skip(64) + Seq::new(
        (128 - bytes.len()) as nat,
        |i: int| 0u8,
    ));
}

/// The chunk of a number is its eight little-endian bytes and 24 zeros.
pub proof fn law_u64_chunk_is_little_endian(value: u64)
    ensures
        u64_chunk(value) == vstd::bytes::spec_u64_to_le_bytes(value) + Seq::new(
            24,
            |i: int| 0u8,
        ),
{
    vstd::bytes::spec_u64_to_le_bytes_to_open(value);
    assert(value >> 0u64 == value) by (bit_vector);
    let expected = vstd::bytes::spec_u64_to_le_bytes(value) + Seq::new(24, |i: int| 0u8);
    assert(u64_chunk(value)[0] == expected[0]);
    assert(u64_chunk(value) =~= expected);
}

} // verus!
