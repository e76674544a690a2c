//! `GET /invoices/:id`: how a failed lookup is answered.
use vstd::prelude::*;

use crate::routes::cancel::invoice_not_found_text;
use crate::soroban::ClientError;
use crate::text::{decimal, has_substring, str_contains};
use crate::types::ErrorResponse;

verus! {

/// The HTTP status, error text and code answering a lookup that failed with
/// message `m` for invoice `id`.
pub open spec fn invoice_error_spec(m: Seq<char>, id: u64) -> (u16, Seq<char>, Option<u32>) {
    if has_substring(m, "NOT_FOUND"@) {
        (404, "Invoice "@ + decimal(id as nat) + " not found"@, Some(6))
    } else {
        (500, m, None)
    }
}

/// The answer to a lookup of invoice `id` that failed with `err`: 404 when the
/// invoice is unknown, 500 with the error's message otherwise.
pub fn invoice_error_response(err: &ClientError, id: u64) -> (r: (u16, ErrorResponse))
    ensures
        (r.0, r.1.error@, r.1.code) == invoice_error_spec(err.message@, id),
{
    let m = err.message.as_str();
    if str_contains(m, "NOT_FOUND") {
        (404, ErrorResponse { error: invoice_not_found_text(id), code: Some(6) })
    } else {
        (500, ErrorResponse { error: m.to_owned(), code: None })
    }
}

} // verus!
