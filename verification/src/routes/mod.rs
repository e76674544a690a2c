//! How the HTTP routes answer: the status and body for each outcome of the
//! RPC client.
pub mod cancel;
pub mod health;
pub mod invoices;
pub mod pay;
