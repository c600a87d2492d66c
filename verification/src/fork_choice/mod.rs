//! Fork choice: what the node knows of blocks and payloads.
pub mod envelope_laws;
pub mod on_execution_payload_envelope;
pub mod store;
