//! What a deposit's signature and its inclusion proof commit to.
//!
//! A digest commits to its input only as far as no collision of SHA-256 is
//! known. So each law here says that two inputs are equal or that the two
//! computations, of which it names every step, exhibit a collision.
use crate::constants::{DOMAIN_BUILDER_DEPOSIT, DOMAIN_DEPOSIT};
use crate::containers::{BeaconStateView, BuilderDepositRequest, Deposit, DepositData};
use crate::hashing;
use crate::primitives::{BLSPubkey, Bytes32, Gwei};
use crate::state_transition::operations::{branch_laws, deposits};
use vstd::prelude::*;

verus! {

/// The roots of the fields of a deposit message, laid end to end.
pub open spec fn message_fields(
    pubkey: BLSPubkey,
    withdrawal_credentials: Bytes32,
    amount: Gwei,
) -> Seq<u8> {
    hashing::merkle_root(pubkey.0@) + withdrawal_credentials.0@ + hashing::u64_chunk(amount.0)
}

/// The roots of the fields of deposit data, laid end to end.
pub open spec fn data_fields(data: DepositData) -> Seq<u8> {
    message_fields(data.pubkey, data.withdrawal_credentials, data.amount) + hashing::merkle_root(
        data.signature.0@,
    )
}

/// Everything that is hashed into the message of a deposit signature, the
/// domain apart.
pub open spec fn signing_inputs(
    domain_type: Seq<u8>,
    pubkey: BLSPubkey,
    withdrawal_credentials: Bytes32,
    amount: Gwei,
) -> Seq<Seq<u8>> {
    hashing::merkle_inputs(pubkey.0@) + hashing::merkle_inputs(
        message_fields(pubkey, withdrawal_credentials, amount),
    ) + hashing::merkle_inputs(
        deposits::deposit_message_root(pubkey, withdrawal_credentials, amount)
            + deposits::deposit_domain(domain_type),
    )
}

/// Everything that is hashed into the root of deposit data.
pub open spec fn data_inputs(data: DepositData) -> Seq<Seq<u8>> {
    hashing::merkle_inputs(data.pubkey.0@) + hashing::merkle_inputs(data.signature.0@)
        + hashing::merkle_inputs(data_fields(data))
}

/// Numbers with the same little-endian bytes are equal.
proof fn lemma_u64_chunk_binds(left: u64, right: u64)
    requires
        hashing::u64_chunk(left) == hashing::u64_chunk(right),
    ensures
        left == right,
{
    let l = hashing::u64_chunk(left);
    let r = hashing::u64_chunk(right);
    assert(((left >> 0u64) & 0xff) as u8 == ((right >> 0u64) & 0xff) as u8) by {
        assert(l[0] == r[0]);
    }
    assert(((left >> 8u64) & 0xff) as u8 == ((right >> 8u64) & 0xff) as u8) by {
        assert(l[1] == r[1]);
    }
    assert(((left >> 16u64) & 0xff) as u8 == ((right >> 16u64) & 0xff) as u8) by {
        assert(l[2] == r[2]);
    }
    assert(((left >> 24u64) & 0xff) as u8 == ((right >> 24u64) & 0xff) as u8) by {
        assert(l[3] == r[3]);
    }
    assert(((left >> 32u64) & 0xff) as u8 == ((right >> 32u64) & 0xff) as u8) by {
        assert(l[4] == r[4]);
    }
    assert(((left >> 40u64) & 0xff) as u8 == ((right >> 40u64) & 0xff) as u8) by {
        assert(l[5] == r[5]);
    }
    assert(((left >> 48u64) & 0xff) as u8 == ((right >> 48u64) & 0xff) as u8) by {
        assert(l[6] == r[6]);
    }
    assert(((left >> 56u64) & 0xff) as u8 == ((right >> 56u64) & 0xff) as u8) by {
        assert(l[7] == r[7]);
    }
    assert(left == right) by (bit_vector)
        requires
            ((left >> 0u64) & 0xff) as u8 == ((right >> 0u64) & 0xff) as u8,
            ((left >> 8u64) & 0xff) as u8 == ((right >> 8u64) & 0xff) as u8,
            ((left >> 16u64) & 0xff) as u8 == ((right >> 16u64) & 0xff) as u8,
            ((left >> 24u64) & 0xff) as u8 == ((right >> 24u64) & 0xff) as u8,
            ((left >> 32u64) & 0xff) as u8 == ((right >> 32u64) & 0xff) as u8,
            ((left >> 40u64) & 0xff) as u8 == ((right >> 40u64) & 0xff) as u8,
            ((left >> 48u64) & 0xff) as u8 == ((right >> 48u64) & 0xff) as u8,
            ((left >> 56u64) & 0xff) as u8 == ((right >> 56u64) & 0xff) as u8,
    ;
}

/// A collision in one part of two lists is one in the lists.
proof fn lemma_collide_in_part(
    left: Seq<Seq<u8>>,
    left_part: Seq<Seq<u8>>,
    right: Seq<Seq<u8>>,
    right_part: Seq<Seq<u8>>,
    offset: int,
)
    requires
        hashing::inputs_collide(left_part, right_part),
        0 <= offset,
        offset + left_part.len() <= left.len(),
        offset + right_part.len() <= right.len(),
        left.subrange(offset, offset + left_part.len()) == left_part,
        right.subrange(offset, offset + right_part.len()) == right_part,
    ensures
        hashing::inputs_collide(left, right),
{
    let i = choose|i: int|
        0 <= i < left_part.len() && i < right_part.len() && #[trigger] hashing::is_collision(
            left_part[i],
            right_part[i],
        );
    assert(left[offset + i] == left_part[i]);
    assert(right[offset + i] == right_part[i]);
    assert(hashing::is_collision(left[offset + i], right[offset + i]));
}

/// The fields of a deposit message can be told from their roots, laid end to
/// end.
proof fn lemma_message_fields_bind(
    left_key: BLSPubkey,
    left_credentials: Bytes32,
    left_amount: Gwei,
    right_key: BLSPubkey,
    right_credentials: Bytes32,
    right_amount: Gwei,
)
    requires
        message_fields(left_key, left_credentials, left_amount) == message_fields(
            right_key,
            right_credentials,
            right_amount,
        ),
    ensures
        left_credentials == right_credentials,
        left_amount == right_amount,
        left_key == right_key || hashing::inputs_collide(
            hashing::merkle_inputs(left_key.0@),
            hashing::merkle_inputs(right_key.0@),
        ),
{
    let l = message_fields(left_key, left_credentials, left_amount);
    let r = message_fields(right_key, right_credentials, right_amount);
    assert(hashing::merkle_root(left_key.0@) =~= l.subrange(0, 32));
    assert(hashing::merkle_root(right_key.0@) =~= r.subrange(0, 32));
    hashing::law_merkle_root_binds(left_key.0@, right_key.0@);
    assert(left_key.0@ == right_key.0@ ==> left_key.0 =~= right_key.0);
    assert(left_credentials.0@ =~= l.subrange(32, 64));
    assert(right_credentials.0@ =~= r.subrange(32, 64));
    assert(left_credentials.0 =~= right_credentials.0);
    assert(hashing::u64_chunk(left_amount.0) =~= l.subrange(64, 96));
    assert(hashing::u64_chunk(right_amount.0) =~= r.subrange(64, 96));
    lemma_u64_chunk_binds(left_amount.0, right_amount.0);
}

/// A deposit signature commits to the kind of deposit and to the whole deposit:
/// signatures over one message are for the same kind, key, credentials and
/// amount, or the two messages exhibit a collision.
pub proof fn law_signature_binds_deposit(
    left_type: Seq<u8>,
    left_key: BLSPubkey,
    left_credentials: Bytes32,
    left_amount: Gwei,
    right_type: Seq<u8>,
    right_key: BLSPubkey,
    right_credentials: Bytes32,
    right_amount: Gwei,
)
    requires
        left_type.len() == 4,
        right_type.len() == 4,
        deposits::deposit_signing_root(left_type, left_key, left_credentials, left_amount)
            == deposits::deposit_signing_root(
            right_type,
            right_key,
            right_credentials,
            right_amount,
        ),
    ensures
        (left_type == right_type && left_key == right_key && left_credentials == right_credentials
            && left_amount == right_amount) || hashing::inputs_collide(
            signing_inputs(left_type, left_key, left_credentials, left_amount),
            signing_inputs(right_type, right_key, right_credentials, right_amount),
        ),
{
    let l = signing_inputs(left_type, left_key, left_credentials, left_amount);
    let r = signing_inputs(right_type, right_key, right_credentials, right_amount);
    let l_fields = message_fields(left_key, left_credentials, left_amount);
    let r_fields = message_fields(right_key, right_credentials, right_amount);
    let l_root = deposits::deposit_message_root(left_key, left_credentials, left_amount);
    let r_root = deposits::deposit_message_root(right_key, right_credentials, right_amount);
    let l_domain = deposits::deposit_domain(left_type);
    let r_domain = deposits::deposit_domain(right_type);
    let l_signed = l_root + l_domain;
    let r_signed = r_root + r_domain;
    assert(l.subrange(0, 1) =~= hashing::merkle_inputs(left_key.0@));
    assert(r.subrange(0, 1) =~= hashing::merkle_inputs(right_key.0@));
    assert(l.subrange(1, 4) =~= hashing::merkle_inputs(l_fields));
    assert(r.subrange(1, 4) =~= hashing::merkle_inputs(r_fields));
    assert(l.subrange(4, 5) =~= hashing::merkle_inputs(l_signed));
    assert(r.subrange(4, 5) =~= hashing::merkle_inputs(r_signed));
    hashing::law_merkle_root_binds(l_signed, r_signed);
    if l_signed != r_signed {
        lemma_collide_in_part(
            l,
            hashing::merkle_inputs(l_signed),
            r,
            hashing::merkle_inputs(r_signed),
            4,
        );
    } else {
        assert(l_root =~= l_signed.take(32));
        assert(r_root =~= r_signed.take(32));
        assert(left_type =~= l_signed.subrange(32, 36));
        assert(right_type =~= r_signed.subrange(32, 36));
        hashing::law_merkle_root_binds(l_fields, r_fields);
        if l_fields != r_fields {
            lemma_collide_in_part(
                l,
                hashing::merkle_inputs(l_fields),
                r,
                hashing::merkle_inputs(r_fields),
                1,
            );
        } else {
            lemma_message_fields_bind(
                left_key,
                left_credentials,
                left_amount,
                right_key,
                right_credentials,
                right_amount,
            );
            if left_key != right_key {
                lemma_collide_in_part(
                    l,
                    hashing::merkle_inputs(left_key.0@),
                    r,
                    hashing::merkle_inputs(right_key.0@),
                    0,
                );
            }
        }
    }
}

/// A validator deposit's signature is no builder deposit's: the messages that
/// the two sign differ, or they exhibit a collision, whatever the deposits
/// hold.
pub proof fn law_no_replay_as_builder_deposit(
    pubkey: BLSPubkey,
    withdrawal_credentials: Bytes32,
    amount: Gwei,
    request: BuilderDepositRequest,
)
    ensures
        deposits::deposit_signing_root(DOMAIN_DEPOSIT@, pubkey, withdrawal_credentials, amount)
            != deposits::deposit_signing_root(
            DOMAIN_BUILDER_DEPOSIT@,
            request.pubkey,
            request.withdrawal_credentials,
            request.amount,
        ) || hashing::inputs_collide(
            signing_inputs(DOMAIN_DEPOSIT@, pubkey, withdrawal_credentials, amount),
            signing_inputs(
                DOMAIN_BUILDER_DEPOSIT@,
                request.pubkey,
                request.withdrawal_credentials,
                request.amount,
            ),
        ),
{
    assert(DOMAIN_DEPOSIT@[0] != DOMAIN_BUILDER_DEPOSIT@[0]);
    if deposits::deposit_signing_root(DOMAIN_DEPOSIT@, pubkey, withdrawal_credentials, amount)
        == deposits::deposit_signing_root(
        DOMAIN_BUILDER_DEPOSIT@,
        request.pubkey,
        request.withdrawal_credentials,
        request.amount,
    ) {
        law_signature_binds_deposit(
            DOMAIN_DEPOSIT@,
            pubkey,
            withdrawal_credentials,
            amount,
            DOMAIN_BUILDER_DEPOSIT@,
            request.pubkey,
            request.withdrawal_credentials,
            request.amount,
        );
    }
}

/// The root of deposit data binds the data, or the computations exhibit a
/// collision.
pub proof fn law_data_root_binds_data(left: DepositData, right: DepositData)
    requires
        deposits::deposit_data_root(left) == deposits::deposit_data_root(right),
    ensures
        left == right || hashing::inputs_collide(data_inputs(left), data_inputs(right)),
{
    let l = data_inputs(left);
    let r = data_inputs(right);
    let l_fields = data_fields(left);
    let r_fields = data_fields(right);
    assert(l.subrange(0, 1) =~= hashing::merkle_inputs(left.pubkey.0@));
    assert(r.subrange(0, 1) =~= hashing::merkle_inputs(right.pubkey.0@));
    assert(l.subrange(1, 4) =~= hashing::merkle_inputs(left.signature.0@));
    assert(r.subrange(1, 4) =~= hashing::merkle_inputs(right.signature.0@));
    assert(l.subrange(4, 7) =~= hashing::merkle_inputs(l_fields));
    assert(r.subrange(4, 7) =~= hashing::merkle_inputs(r_fields));
    hashing::law_merkle_root_binds(l_fields, r_fields);
    if l_fields != r_fields {
        lemma_collide_in_part(
            l,
            hashing::merkle_inputs(l_fields),
            r,
            hashing::merkle_inputs(r_fields),
            4,
        );
    } else {
        assert(message_fields(left.pubkey, left.withdrawal_credentials, left.amount)
            =~= l_fields.take(96));
        assert(message_fields(right.pubkey, right.withdrawal_credentials, right.amount)
            =~= r_fields.take(96));
        lemma_message_fields_bind(
            left.pubkey,
            left.withdrawal_credentials,
            left.amount,
            right.pubkey,
            right.withdrawal_credentials,
            right.amount,
        );
        assert(hashing::merkle_root(left.signature.0@) =~= l_fields.skip(96));
        assert(hashing::merkle_root(right.signature.0@) =~= r_fields.skip(96));
        hashing::law_merkle_root_binds(left.signature.0@, right.signature.0@);
        if left.pubkey != right.pubkey {
            lemma_collide_in_part(
                l,
                hashing::merkle_inputs(left.pubkey.0@),
                r,
                hashing::merkle_inputs(right.pubkey.0@),
                0,
            );
        } else if left.signature.0@ != right.signature.0@ {
            lemma_collide_in_part(
                l,
                hashing::merkle_inputs(left.signature.0@),
                r,
                hashing::merkle_inputs(right.signature.0@),
                1,
            );
        } else {
            assert(left.signature.0 =~= right.signature.0);
        }
    }
}

/// The deposit root binds the deposit at the cursor: two deposits that a state
/// accepts there are one and the same, or their data or their proofs exhibit a
/// collision.
pub proof fn law_proof_binds_deposit(state: BeaconStateView, left: Deposit, right: Deposit)
    requires
        state.deposit_proof_valid(left),
        state.deposit_proof_valid(right),
    ensures
        left == right || hashing::inputs_collide(data_inputs(left.data), data_inputs(right.data))
            || exists|k: nat|
            k < 33 && #[trigger] hashing::is_collision(
                branch_laws::hashed_at(
                    deposits::deposit_data_root(left.data),
                    left.proof@,
                    state.eth1_deposit_index as nat,
                    k,
                ),
                branch_laws::hashed_at(
                    deposits::deposit_data_root(right.data),
                    right.proof@,
                    state.eth1_deposit_index as nat,
                    k,
                ),
            ),
{
    branch_laws::lemma_fold_binds(
        deposits::deposit_data_root(left.data),
        left.proof@,
        deposits::deposit_data_root(right.data),
        right.proof@,
        state.eth1_deposit_index as nat,
    );
    if deposits::deposit_data_root(left.data) == deposits::deposit_data_root(right.data)
        && left.proof@ == right.proof@ {
        law_data_root_binds_data(left.data, right.data);
        assert(left.proof =~= right.proof);
    }
}

} // verus!
