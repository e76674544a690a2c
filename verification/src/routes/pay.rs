//! `POST /invoices/:id/pay`: how a failed payment is answered.
use vstd::prelude::*;

use crate::routes::cancel::invoice_not_found_text;
use crate::soroban::ClientError;
use crate::text::{decimal, has_substring, str_contains};
use crate::types::ErrorResponse;

verus! {

/// The HTTP status, error text and code answering a payment that failed with
/// message `m` for invoice `id`.
pub open spec fn pay_error_spec(m: Seq<char>, id: u64) -> (u16, Seq<char>, Option<u32>) {
    if has_substring(m, "UNAUTHORIZED"@) {
        (403, "Payer does not match the expected address for this invoice"@, Some(1))
    } else if has_substring(m, "NOT_FOUND"@) {
        (404, "Invoice "@ + decimal(id as nat) + " not found"@, Some(6))
    } else {
        (500, m, None)
    }
}

/// The answer to a payment of invoice `id` that failed with `err`: 403 when
/// the payer is not the invoice's, 404 when the invoice is unknown, 500 with the
/// error's message otherwise.
pub fn pay_error_response(err: &ClientError, id: u64) -> (r: (u16, ErrorResponse))
    ensures
        (r.0, r.1.error@, r.1.code) == pay_error_spec(err.message@, id),
{
    let m = err.message.as_str();
    if str_contains(m, "UNAUTHORIZED") {
        (
            403,
            ErrorResponse {
                error: "Payer does not match the expected address for this invoice".to_owned(),
                code: Some(1),
            },
        )
    } else if str_contains(m, "NOT_FOUND") {
        (404, ErrorResponse { error: invoice_not_found_text(id), code: Some(6) })
    } else {
        (500, ErrorResponse { error: m.to_owned(), code: None })
    }
}

} // verus!
