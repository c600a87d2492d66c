//! Fixed-size byte strings and the integer quantities of the beacon chain.
use crate::constants::{FAR_FUTURE_EPOCH, SLOTS_PER_EPOCH};
use vstd::prelude::*;

verus! {

/// `n` zero bytes.
pub open spec fn zero_bytes(n: nat) -> Seq<u8> {
    Seq::new(n, |i: int| 0u8)
}

/// Whether two byte arrays hold the same bytes.
pub(crate) fn bytes_equal<const N: usize>(left: &[u8; N], right: &[u8; N]) -> (equal: bool)
    ensures
        equal == (*left == *right),
{
    let mut i: usize = 0;
    while i < N
        invariant
            i <= N,
            forall|k: int| 0 <= k < i ==> left@[k] == right@[k],
        decreases N - i,
    {
        if left[i] != right[i] {
            assert(left@[i as int] != right@[i as int]);
            return false;
        }
        i = i + 1;
    }
    assert(*left =~= *right);
    true
}

/// A 32-byte hash tree root.
#[derive(Clone, Copy, Debug, Eq)]
pub struct Root(pub [u8; 32]);

impl Default for Root {
    /// The root of all zero bytes.
    fn default() -> (root: Self)
        ensures
            root.0@ == zero_bytes(32),
            forall|i: int| 0 <= i < 32 ==> #[trigger] root.0@[i] == 0,
    {
        Root([0u8; 32])
    }
}

impl PartialEq for Root {
    fn eq(&self, other: &Self) -> (equal: bool) {
        bytes_equal(&self.0, &other.0)
    }
}

impl vstd::std_specs::cmp::PartialEqSpecImpl for Root {
    open spec fn obeys_eq_spec() -> bool {
        true
    }

    open spec fn eq_spec(&self, other: &Self) -> bool {
        *self == *other
    }
}

/// 32 bytes without further structure.
#[derive(Clone, Copy, Debug, PartialEq, Eq)]
pub struct Bytes32(pub [u8; 32]);

/// A compressed public key.
#[derive(Clone, Copy, Debug, Eq)]
pub struct BLSPubkey(pub [u8; 48]);

impl PartialEq for BLSPubkey {
    fn eq(&self, other: &Self) -> (equal: bool) {
        bytes_equal(&self.0, &other.0)
    }
}

impl vstd::std_specs::cmp::PartialEqSpecImpl for BLSPubkey {
    open spec fn obeys_eq_spec() -> bool {
        true
    }

    open spec fn eq_spec(&self, other: &Self) -> bool {
        *self == *other
    }
}

/// A compressed signature.
#[derive(Clone, Copy, Debug, PartialEq, Eq)]
pub struct BLSSignature(pub [u8; 96]);

/// An address on the execution layer.
#[derive(Clone, Copy, Debug, PartialEq, Eq)]
pub struct ExecutionAddress(pub [u8; 20]);

/// What a signature is bound to besides the message.
#[derive(Clone, Copy, Debug, PartialEq, Eq)]
pub struct Domain(pub [u8; 32]);

/// An amount of stake, in gwei.
#[derive(Clone, Copy, Debug, PartialEq, Eq, Structural)]
pub struct Gwei(pub u64);

impl Gwei {
    /// The amount as a number.
    pub fn as_u64(self) -> (amount: u64)
        ensures
            amount == self.0,
    {
        self.0
    }

    /// The sum of two amounts, unless it is too large to represent.
    pub fn checked_add(self, other: Gwei) -> (sum: Option<Gwei>)
        ensures
            self.0 + other.0 <= u64::MAX ==> sum == Some(Gwei((self.0 + other.0) as u64)),
            self.0 + other.0 > u64::MAX ==> sum is None,
    {
        match self.0.checked_add(other.0) {
            Some(total) => Some(Gwei(total)),
            None => None,
        }
    }
}

/// A number of epochs since genesis.
#[derive(Clone, Copy, Debug, PartialEq, Eq, Structural)]
pub struct Epoch(pub u64);

/// The epoch `epochs` after `epoch`, or the last one there is.
pub open spec fn epochs_after(epoch: Epoch, epochs: u64) -> Epoch {
    if epoch.0 + epochs <= u64::MAX {
        Epoch((epoch.0 + epochs) as u64)
    } else {
        Epoch(u64::MAX)
    }
}

impl Epoch {
    /// The epoch `epochs` later, or the last one there is.
    pub fn saturating_add(self, epochs: u64) -> (later: Epoch)
        ensures
            later == epochs_after(self, epochs),
            self.0 + epochs <= u64::MAX ==> later.0 == self.0 + epochs,
            self.0 + epochs > u64::MAX ==> later.0 == u64::MAX,
    {
        Epoch(self.0.saturating_add(epochs))
    }
}

/// A number of slots since genesis.
#[derive(Clone, Copy, Debug, PartialEq, Eq, Structural)]
pub struct Slot(pub u64);

/// The epoch that a slot lies in.
pub open spec fn epoch_of(slot: Slot) -> Epoch {
    Epoch(slot.0 / SLOTS_PER_EPOCH)
}

impl Slot {
    /// The epoch that this slot lies in.
    pub fn epoch(self) -> (epoch: Epoch)
        ensures
            epoch == epoch_of(self),
            SLOTS_PER_EPOCH * epoch.0 <= self.0 < SLOTS_PER_EPOCH * epoch.0 + SLOTS_PER_EPOCH,
    {
        Epoch(self.0 / SLOTS_PER_EPOCH)
    }
}

/// Which timely duties a validator has performed in an epoch, as a bit set.
#[derive(Clone, Copy, Debug, PartialEq, Eq, Structural)]
pub struct ParticipationFlags(pub u8);

/// Zero bytes are zero, as many as were asked for.
pub proof fn law_zero_bytes(n: nat)
    ensures
        zero_bytes(n).len() == n,
        forall|i: int| 0 <= i < n ==> #[trigger] zero_bytes(n)[i] == 0,
{
}

/// Later epochs are later by exactly the given number, up to the last epoch.
pub proof fn law_epochs_after(epoch: Epoch, epochs: u64)
    ensures
        epoch.0 + epochs <= u64::MAX ==> epochs_after(epoch, epochs).0 == epoch.0 + epochs,
        epoch.0 + epochs > u64::MAX ==> epochs_after(epoch, epochs).0 == u64::MAX,
{
}

/// The epoch of a slot is the one among whose slots it is.
pub proof fn law_epoch_of(slot: Slot)
    ensures
        SLOTS_PER_EPOCH * epoch_of(slot).0 <= slot.0 < SLOTS_PER_EPOCH * epoch_of(slot).0
            + SLOTS_PER_EPOCH,
{
}

/// "Not scheduled" comes after every epoch that a slot can lie in.
pub proof fn law_far_future_is_never_reached(slot: Slot, epoch: Epoch)
    ensures
        epoch_of(slot).0 < FAR_FUTURE_EPOCH,
        epoch.0 <= FAR_FUTURE_EPOCH,
{
}

} // verus!
