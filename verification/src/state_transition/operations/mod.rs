//! The operations that change a beacon state.
pub mod branch_laws;
pub mod builder_laws;
pub mod commitment_laws;
pub mod deposit_laws;
pub mod deposits;
pub mod message_laws;
pub mod outcome_laws;
