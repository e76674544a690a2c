//! Request and response types of the invoice backend and its Soroban RPC calls.
use vstd::prelude::*;

use crate::json::Json;

verus! {

/// The lifecycle status of an invoice as the invoice contract reports it.
#[derive(Clone, Copy, Debug, PartialEq, Eq, Structural)]
pub enum InvoiceStatus {
    Pending,
    Paid,
    Cancelled,
    RefundRequested,
}

/// The status that the invoice contract reports under numeric code `v`.
pub open spec fn status_from_code(v: u32) -> Option<InvoiceStatus> {
    if v == 0 {
        Some(InvoiceStatus::Pending)
    } else if v == 1 {
        Some(InvoiceStatus::Paid)
    } else if v == 2 {
        Some(InvoiceStatus::Cancelled)
    } else if v == 3 {
        Some(InvoiceStatus::RefundRequested)
    } else {
        None
    }
}

impl InvoiceStatus {
    /// The status that the invoice contract reports under numeric code `v`.
    pub fn from_u32(v: u32) -> (r: Option<InvoiceStatus>)
        ensures
            r == status_from_code(v),
    {
        if v == 0 {
            Some(InvoiceStatus::Pending)
        } else if v == 1 {
            Some(InvoiceStatus::Paid)
        } else if v == 2 {
            Some(InvoiceStatus::Cancelled)
        } else if v == 3 {
            Some(InvoiceStatus::RefundRequested)
        } else {
            None
        }
    }
}

/// An invoice as read from the invoice contract.
#[derive(Clone, Debug)]
pub struct InvoiceResponse {
    pub id: u64,
    pub merchant: String,
    pub payer: Option<String>,
    pub token: Option<String>,
    pub amount_usdc: u64,
    pub gross_usdc: u64,
    pub status: InvoiceStatus,
    pub due_date: u64,
    pub paid_at: Option<u64>,
    pub created_at: Option<u64>,
}

/// The answer to a payment: the invoice's new status and the transaction hash.
#[derive(Clone, Debug)]
pub struct PayResponse {
    pub status: InvoiceStatus,
    pub transaction_hash: String,
}

/// The answer to a cancellation: the invoice's new status and the transaction hash.
#[derive(Clone, Debug)]
pub struct CancelResponse {
    pub status: InvoiceStatus,
    pub transaction_hash: String,
}

/// The answer to a refund request: the invoice's new status and the transaction hash.
#[derive(Clone, Debug)]
pub struct RefundResponse {
    pub status: InvoiceStatus,
    pub transaction_hash: String,
}

/// The body of an error answer.
#[derive(Clone, Debug)]
pub struct ErrorResponse {
    pub error: String,
    pub code: Option<u32>,
}

/// A JSON-RPC request to the Soroban RPC node.
#[derive(Debug)]
pub struct RpcRequest {
    pub jsonrpc: &'static str,
    pub id: u32,
    pub method: &'static str,
    pub params: Json,
}

/// The error object of a JSON-RPC answer: its value, and its JSON text as the
/// JSON printer renders it.
#[derive(Debug)]
pub struct RpcFault {
    pub body: Json,
    pub text: String,
}

/// A JSON-RPC answer of the Soroban RPC node.
#[derive(Debug)]
pub struct RpcResponse {
    pub result: Option<Json>,
    pub error: Option<RpcFault>,
}

/// The health of one dependency, or of the backend as a whole.
#[derive(Clone, Copy, Debug, PartialEq, Eq, Structural)]
pub enum HealthStatus {
    Healthy,
    Degraded,
}

/// The health of one dependency, with a human-readable detail.
#[derive(Clone, Debug)]
pub struct DependencyHealth {
    pub status: HealthStatus,
    pub detail: Option<String>,
}

/// The health report: overall status and each dependency by name, in name order.
#[derive(Clone, Debug)]
pub struct RpcHealthResponse {
    pub status: HealthStatus,
    pub dependencies: Vec<(String, DependencyHealth)>,
}

} // verus!
