//! The rules by which a beacon state changes.
pub mod operations;
pub mod signing;
