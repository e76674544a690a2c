//! Verified core of the COMEBACKHERE compliance contract and invoice backend.
//!
//! The modules hold the decision logic: the compliance contract's state machine,
//! the idempotency cache, the Soroban RPC client's request building, response
//! interpretation and retry policy, and the HTTP status mapping of the routes.
pub mod backend_laws;
pub mod compliance;
pub mod compliance_laws;
pub mod idempotency;
pub mod json;
pub mod routes;
pub mod soroban;
pub mod text;
pub mod types;
