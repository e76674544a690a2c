//! `POST /invoices/:id/cancel`: how a failed cancellation is answered.
use vstd::prelude::*;
use vstd::string::*;

use crate::soroban::ClientError;
use crate::text::{decimal, has_substring, push_decimal, str_contains};
use crate::types::ErrorResponse;

verus! {

/// The HTTP status, error text and code answering a cancellation that failed
/// with message `m` for invoice `id`.
pub open spec fn cancel_error_spec(m: Seq<char>, id: u64) -> (u16, Seq<char>, Option<u32>) {
    if has_substring(m, "UNAUTHORIZED"@) {
        (403, "Only the invoice merchant is authorised to cancel this invoice"@, Some(1))
    } else if has_substring(m, "NOT_FOUND"@) {
        (404, "Invoice "@ + decimal(id as nat) + " not found"@, Some(4))
    } else {
        (500, m, None)
    }
}

/// The text `Invoice {id} not found`.
pub fn invoice_not_found_text(id: u64) -> (t: String)
    ensures
        t@ == "Invoice "@ + decimal(id as nat) + " not found"@,
{
    let mut t = "Invoice ".to_owned();
    push_decimal(&mut t, id);
    t.append(" not found");
    t
}

/// The answer to a cancellation of invoice `id` that failed with `err`: 403
/// when the caller is not the merchant, 404 when the invoice is unknown, 500
/// with the error's message otherwise.
pub fn cancel_error_response(err: &ClientError, id: u64) -> (r: (u16, ErrorResponse))
    ensures
        (r.0, r.1.error@, r.1.code) == cancel_error_spec(err.message@, id),
{
    let m = err.message.as_str();
    if str_contains(m, "UNAUTHORIZED") {
        (
            403,
            ErrorResponse {
                error: "Only the invoice merchant is authorised to cancel this invoice".to_owned(),
                code: Some(1),
            },
        )
    } else if str_contains(m, "NOT_FOUND") {
        (404, ErrorResponse { error: invoice_not_found_text(id), code: Some(4) })
    } else {
        (500, ErrorResponse { error: m.to_owned(), code: None })
    }
}

} // verus!
