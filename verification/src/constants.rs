//! Protocol constants, with the values of the main network preset.
use vstd::prelude::*;

verus! {

/// Slots in one epoch.
pub const SLOTS_PER_EPOCH: u64 = 32;

/// The first slot. Marks a pending deposit that came over the deposit bridge.
pub const GENESIS_SLOT: u64 = 0;

/// The epoch that stands for "not scheduled".
pub const FAR_FUTURE_EPOCH: u64 = 0xffff_ffff_ffff_ffff;

/// First byte of withdrawal credentials that opt in to compounding.
pub const COMPOUNDING_WITHDRAWAL_PREFIX: u8 = 2;

/// Step, in gwei, in which effective balances are counted.
pub const EFFECTIVE_BALANCE_INCREMENT: u64 = 1_000_000_000;

/// Largest effective balance, in gwei, without compounding credentials.
pub const MIN_ACTIVATION_BALANCE: u64 = 32_000_000_000;

/// Largest effective balance, in gwei, with compounding credentials.
pub const MAX_EFFECTIVE_BALANCE: u64 = 2_048_000_000_000;

/// Epochs that a builder waits between leaving and withdrawing.
pub const MIN_BUILDER_WITHDRAWABILITY_DELAY: u64 = 64;

/// Depth of the deposit contract's Merkle tree, without the length that is
/// mixed in above it.
pub const DEPOSIT_CONTRACT_TREE_DEPTH: usize = 32;

/// Domain type of validator deposits.
pub const DOMAIN_DEPOSIT: [u8; 4] = [3, 0, 0, 0];

/// Domain type of builder deposits.
pub const DOMAIN_BUILDER_DEPOSIT: [u8; 4] = [14, 0, 0, 0];

/// Fork version at genesis.
pub const GENESIS_FORK_VERSION: [u8; 4] = [0, 0, 0, 0];

/// Tag that separates proof-of-possession signatures from all other uses of
/// the same curve.
pub const BLS_SIGNATURE_TAG: &'static str = "BLS_SIG_BLS12381G2_XMD:SHA-256_SSWU_RO_POP_";

} // verus!
