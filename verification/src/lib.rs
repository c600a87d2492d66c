//! Deposit processing for the beacon chain, and the fork-choice handler that
//! files delivered execution payloads.
//!
//! The state that these rules touch is [`containers::BeaconState`]; its view,
//! [`containers::BeaconStateView`], carries the rules themselves as functions
//! from state to state, and every executable method says which of them it
//! carries out.
#![allow(unused_imports)]

pub mod constants;
pub mod containers;
pub mod error;
pub mod fork_choice;
pub mod hashing;
pub mod primitives;
pub mod state_transition;
