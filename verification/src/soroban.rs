//! The Soroban RPC client's logic: which errors are worth retrying and how long
//! to wait, how requests are built, and how the node's answers are read.
//! Sending the requests is left to the host.
use base64::Engine;
use vstd::prelude::*;
use vstd::string::*;

use crate::json::{as_items, field, opt_field, opt_text, opt_unsigned, text_eq, Json};
use crate::text::{decimal, has_substring, push_char, str_contains, trim_end_char};
use crate::types::{
    status_from_code, CancelResponse, InvoiceResponse, InvoiceStatus, PayResponse, RefundResponse,
    RpcFault, RpcRequest, RpcResponse,
};

verus! {

/// Contract error code for an unknown invoice.
pub const CONTRACT_NOT_FOUND: u32 = 6;
/// Contract error code for a caller without the right to act.
pub const CONTRACT_UNAUTHORIZED: u32 = 1;
/// Contract error code for an unknown invoice in answer to a cancellation or
/// a refund request.
pub const CONTRACT_INVOICE_NOT_FOUND: u32 = 4;
/// Contract error code for a refund on an invoice that was not paid.
pub const CONTRACT_NOT_PAID: u32 = 10;

/// Maximum number of retries after the first attempt.
pub const MAX_RETRIES: u32 = 3;
/// Delay before the first retry, in milliseconds.
pub const INITIAL_BACKOFF_MS: u64 = 200;
/// Maximum total time slept across all retries, in milliseconds.
pub const MAX_TOTAL_BACKOFF_MS: u64 = 30_000;

// ---------------------------------------------------------------------------
// Errors and their classification
// ---------------------------------------------------------------------------

/// What the HTTP client reported about a failed exchange.
#[derive(Clone, Copy, Debug)]
pub struct TransportFault {
    /// The exchange timed out.
    pub timeout: bool,
    /// The connection could not be made.
    pub connect: bool,
    /// The request could not be sent.
    pub request: bool,
    /// The HTTP status of the answer, where there was one.
    pub status: Option<u16>,
}

/// An error of the RPC client: its message, the HTTP client's report where
/// the HTTP client raised it, and the HTTP status of the answer where the
/// client raised it for an unwanted answer.
#[derive(Clone, Debug)]
pub struct ClientError {
    pub message: String,
    pub transport: Option<TransportFault>,
    pub status: Option<u16>,
}

/// An error raised by the client itself, neither for a transport failure nor
/// for an HTTP answer.
pub open spec fn raised_by_client(e: ClientError) -> bool {
    e.transport is None && e.status is None
}

impl ClientError {
    /// An error raised by the client itself, with message `m`.
    pub fn msg(m: &str) -> (e: ClientError)
        ensures
            e.message@ == m@,
            raised_by_client(e),
    {
        ClientError { message: m.to_owned(), transport: None, status: None }
    }

    /// The error's message.
    pub fn message(&self) -> (m: &str)
        ensures
            m@ == self.message@,
    {
        self.message.as_str()
    }
}

/// Errors that never resolve by retrying: contract and logic errors.
pub open spec fn never_retried(m: Seq<char>) -> bool {
    ||| has_substring(m, "NOT_FOUND"@)
    ||| has_substring(m, "UNAUTHORIZED"@)
    ||| has_substring(m, "NOT_PAID"@)
    ||| has_substring(m, "Empty RPC result"@)
}

/// Whether the HTTP client's report marks a failure as transient.
pub open spec fn transport_transient(t: TransportFault) -> bool {
    ||| t.timeout
    ||| t.connect
    ||| t.request
    ||| match t.status {
        Some(s) => 500 <= s < 600,
        None => false,
    }
}

/// Whether a message names a server-side or network failure.
pub open spec fn message_transient(m: Seq<char>) -> bool {
    ||| has_substring(m, "5xx"@)
    ||| has_substring(m, "500"@)
    ||| has_substring(m, "502"@)
    ||| has_substring(m, "503"@)
    ||| has_substring(m, "504"@)
    ||| has_substring(m, "connection"@)
    ||| has_substring(m, "timeout"@)
    ||| has_substring(m, "reset"@)
    ||| has_substring(m, "timed out"@)
    ||| has_substring(m, "broken pipe"@)
}

/// Whether an error is worth retrying. Contract and logic errors never are;
/// otherwise an error raised for an HTTP answer is transient exactly when the
/// answer was a server error (5xx), and else the HTTP client's report, or the
/// message, decides.
pub open spec fn transient_spec(e: ClientError) -> bool {
    if never_retried(e.message@) {
        false
    } else {
        match e.status {
            Some(s) => 500 <= s < 600,
            None => match e.transport {
                Some(t) => transport_transient(t),
                None => message_transient(e.message@),
            },
        }
    }
}

/// Whether `err` is likely transient and worth retrying: network failures and
/// 5xx answers are; contract errors, logic errors and 4xx answers are not.
pub fn is_transient(err: &ClientError) -> (r: bool)
    ensures
        r == transient_spec(*err),
{
    let msg = err.message.as_str();
    if str_contains(msg, "NOT_FOUND") || str_contains(msg, "UNAUTHORIZED") || str_contains(
        msg,
        "NOT_PAID",
    ) || str_contains(msg, "Empty RPC result") {
        return false;
    }
    if let Some(s) = err.status {
        return 500 <= s && s < 600;
    }
    match err.transport {
        Some(t) => {
            t.timeout || t.connect || t.request || match t.status {
                Some(s) => 500 <= s && s < 600,
                None => false,
            }
        },
        None => {
            str_contains(msg, "5xx") || str_contains(msg, "500") || str_contains(msg, "502")
                || str_contains(msg, "503") || str_contains(msg, "504") || str_contains(
                msg,
                "connection",
            ) || str_contains(msg, "timeout") || str_contains(msg, "reset") || str_contains(
                msg,
                "timed out",
            ) || str_contains(msg, "broken pipe")
        },
    }
}

// ---------------------------------------------------------------------------
// Retry policy
// ---------------------------------------------------------------------------

/// Where a retried operation stands: attempts made so far minus one, the delay
/// before the next retry, and the time slept so far (milliseconds).
#[derive(Clone, Copy, Debug, PartialEq, Eq, Structural)]
pub struct RetryState {
    pub attempt: u32,
    pub delay_ms: u64,
    pub total_waited_ms: u64,
}

/// What to do after a failed attempt.
#[derive(Clone, Copy, Debug, PartialEq, Eq, Structural)]
pub enum RetryDecision {
    /// Return the error.
    GiveUp,
    /// Sleep this many milliseconds, then try again.
    Retry(u64),
}

/// The state before the first attempt.
pub open spec fn retry_start_spec() -> RetryState {
    RetryState { attempt: 0, delay_ms: INITIAL_BACKOFF_MS, total_waited_ms: 0 }
}

/// The states that the policy can reach.
pub open spec fn retry_state_ok(s: RetryState) -> bool {
    &&& s.attempt <= MAX_RETRIES
    &&& s.total_waited_ms <= MAX_TOTAL_BACKOFF_MS
    &&& s.delay_ms <= MAX_TOTAL_BACKOFF_MS + 1
}

/// The decision after a failed attempt in state `s`, and the state for the next
/// attempt: give up after the last attempt, on a non-transient error, or when
/// the next sleep would pass the total budget; otherwise sleep the current
/// delay and double it, capped by what is left of the budget plus one.
pub open spec fn retry_after_failure_spec(s: RetryState, transient: bool) -> (
    RetryDecision,
    RetryState,
) {
    if s.attempt >= MAX_RETRIES || !transient || s.total_waited_ms + s.delay_ms
        > MAX_TOTAL_BACKOFF_MS {
        (RetryDecision::GiveUp, s)
    } else {
        let total = s.total_waited_ms + s.delay_ms;
        let doubled = s.delay_ms * 2;
        let cap = MAX_TOTAL_BACKOFF_MS - total + 1;
        (
            RetryDecision::Retry(s.delay_ms),
            RetryState {
                attempt: (s.attempt + 1) as u32,
                delay_ms: (if doubled < cap {
                    doubled
                } else {
                    cap
                }) as u64,
                total_waited_ms: total as u64,
            },
        )
    }
}

impl RetryState {
    /// The state before the first attempt.
    pub fn start() -> (s: RetryState)
        ensures
            s == retry_start_spec(),
            retry_state_ok(s),
    {
        RetryState { attempt: 0, delay_ms: INITIAL_BACKOFF_MS, total_waited_ms: 0 }
    }

    /// The decision after a failed attempt, whose error is `transient` or not,
    /// and the state for the next attempt.
    pub fn after_failure(&self, transient: bool) -> (r: (RetryDecision, RetryState))
        requires
            retry_state_ok(*self),
        ensures
            r == retry_after_failure_spec(*self, transient),
            retry_state_ok(r.1),
    {
        if self.attempt >= MAX_RETRIES || !transient || self.total_waited_ms + self.delay_ms
            > MAX_TOTAL_BACKOFF_MS {
            return (RetryDecision::GiveUp, *self);
        }
        let total = self.total_waited_ms + self.delay_ms;
        let doubled = self.delay_ms * 2;
        let cap = MAX_TOTAL_BACKOFF_MS - total + 1;
        let next = if doubled < cap {
            doubled
        } else {
            cap
        };
        (
            RetryDecision::Retry(self.delay_ms),
            RetryState { attempt: self.attempt + 1, delay_ms: next, total_waited_ms: total },
        )
    }
}

// ---------------------------------------------------------------------------
// Request building
// ---------------------------------------------------------------------------

/// The standard base64 encoding, with padding, of `bytes`.
pub uninterp spec fn base64_standard(bytes: Seq<u8>) -> Seq<char>;

/// Encodes `bytes` with `base64::engine::general_purpose::STANDARD`. The
/// contract claims that the result is the standard encoding of `bytes`, that
/// it has four characters for every three bytes or part of three (padding
/// included, as `encoded_len` computes), and that no other byte string has
/// the same encoding (the encoding decodes back to its bytes). Which
/// characters it holds is not stated.
#[verifier::external_body]
fn base64_encode(bytes: &[u8]) -> (r: String)
    requires
        bytes@.len() <= 3 * (usize::MAX / 4 - 1),
    ensures
        r@ == base64_standard(bytes@),
        r@.len() == 4 * ((bytes@.len() + 2) / 3),
        forall|other: Seq<u8>| #[trigger] base64_standard(other) == r@ ==> other == bytes@,
{
    base64::engine::general_purpose::STANDARD.encode(bytes)
}

/// Byte `k` (0 the most significant) of the big-endian encoding of `v`.
pub open spec fn be_byte(v: u64, k: int) -> u8 {
    ((v >> ((7 - k) * 8) as u64) & 0xffu64) as u8
}

/// The XDR argument bytes for a `u64`: the tag 6 and the value, big-endian.
pub open spec fn u64_arg_bytes(v: u64) -> Seq<u8> {
    seq![
        6u8,
        be_byte(v, 0),
        be_byte(v, 1),
        be_byte(v, 2),
        be_byte(v, 3),
        be_byte(v, 4),
        be_byte(v, 5),
        be_byte(v, 6),
        be_byte(v, 7),
    ]
}

/// Distinct values have distinct argument bytes.
proof fn lemma_u64_arg_bytes_injective(a: u64, b: u64)
    requires
        u64_arg_bytes(a) == u64_arg_bytes(b),
    ensures
        a == b,
{
    assert(u64_arg_bytes(a)[1] == u64_arg_bytes(b)[1]);
    assert(u64_arg_bytes(a)[2] == u64_arg_bytes(b)[2]);
    assert(u64_arg_bytes(a)[3] == u64_arg_bytes(b)[3]);
    assert(u64_arg_bytes(a)[4] == u64_arg_bytes(b)[4]);
    assert(u64_arg_bytes(a)[5] == u64_arg_bytes(b)[5]);
    assert(u64_arg_bytes(a)[6] == u64_arg_bytes(b)[6]);
    assert(u64_arg_bytes(a)[7] == u64_arg_bytes(b)[7]);
    assert(u64_arg_bytes(a)[8] == u64_arg_bytes(b)[8]);
    assert(((a >> 56u64) & 0xffu64) as u8 == ((b >> 56u64) & 0xffu64) as u8
        && ((a >> 48u64) & 0xffu64) as u8 == ((b >> 48u64) & 0xffu64) as u8
        && ((a >> 40u64) & 0xffu64) as u8 == ((b >> 40u64) & 0xffu64) as u8
        && ((a >> 32u64) & 0xffu64) as u8 == ((b >> 32u64) & 0xffu64) as u8
        && ((a >> 24u64) & 0xffu64) as u8 == ((b >> 24u64) & 0xffu64) as u8
        && ((a >> 16u64) & 0xffu64) as u8 == ((b >> 16u64) & 0xffu64) as u8
        && ((a >> 8u64) & 0xffu64) as u8 == ((b >> 8u64) & 0xffu64) as u8
        && ((a >> 0u64) & 0xffu64) as u8 == ((b >> 0u64) & 0xffu64) as u8 ==> a == b)
        by (bit_vector);
}

/// The base64 text of the XDR argument for `id`: twelve characters, and a
/// text that no other id is encoded to.
pub fn encode_u64_arg(id: u64) -> (r: String)
    ensures
        r@ == base64_standard(u64_arg_bytes(id)),
        r@.len() == 12,
        forall|other: u64| #[trigger] base64_standard(u64_arg_bytes(other)) == r@ ==> other == id,
{
    let mut bytes: Vec<u8> = Vec::new();
    bytes.push(6u8);
    bytes.push(((id >> 56u64) & 0xffu64) as u8);
    bytes.push(((id >> 48u64) & 0xffu64) as u8);
    bytes.push(((id >> 40u64) & 0xffu64) as u8);
    bytes.push(((id >> 32u64) & 0xffu64) as u8);
    bytes.push(((id >> 24u64) & 0xffu64) as u8);
    bytes.push(((id >> 16u64) & 0xffu64) as u8);
    bytes.push(((id >> 8u64) & 0xffu64) as u8);
    bytes.push(((id >> 0u64) & 0xffu64) as u8);
    assert(bytes@ =~= u64_arg_bytes(id));
    let r = base64_encode(bytes.as_slice());
    proof {
        assert forall|other: u64| #[trigger] base64_standard(u64_arg_bytes(other)) == r@ implies other
            == id by {
            lemma_u64_arg_bytes_injective(other, id);
        }
    }
    r
}

/// The invocation text `INVOKE:{contract_id}:{function}:{args_xdr}`.
pub open spec fn invoke_text(contract_id: Seq<char>, function: Seq<char>, args_xdr: Seq<char>) -> Seq<
    char,
> {
    "INVOKE:"@ + contract_id + ":"@ + function + ":"@ + args_xdr
}

/// Builds the invocation text of `function` on `contract_id` with `args_xdr`.
pub fn build_invoke_xdr(contract_id: &str, function: &str, args_xdr: &str) -> (r: String)
    ensures
        r@ == invoke_text(contract_id@, function@, args_xdr@),
{
    let mut s = "INVOKE:".to_owned();
    s.append(contract_id);
    s.append(":");
    s.append(function);
    s.append(":");
    s.append(args_xdr);
    s
}

/// Whether `t` holds no colon.
pub open spec fn colon_free(t: Seq<char>) -> bool {
    forall|i: int| 0 <= i < t.len() ==> t[i] != ':'
}

/// Where the contract id and the function name hold no colon, the invocation
/// text splits back into its parts: after the seven characters of `INVOKE:`,
/// the first colon ends the contract id, the next one ends the function name,
/// and the rest is the argument text; its length is that of the parts plus
/// nine.
pub proof fn law_invoke_text_splits(contract_id: Seq<char>, function: Seq<char>, args_xdr: Seq<char>)
    requires
        colon_free(contract_id),
        colon_free(function),
    ensures
        ({
            let t = invoke_text(contract_id, function, args_xdr);
            let c: int = 7 + contract_id.len() as int;
            let f: int = c + 1 + function.len();
            &&& t.len() == 9 + contract_id.len() + function.len() + args_xdr.len()
            &&& t.take(7) == "INVOKE:"@
            &&& t[c] == ':' && t[f] == ':'
            &&& forall|i: int| 7 <= i < c ==> t[i] != ':'
            &&& forall|i: int| c < i < f ==> t[i] != ':'
            &&& t.subrange(7, c) == contract_id
            &&& t.subrange(c + 1, f) == function
            &&& t.skip(f + 1) == args_xdr
        }),
{
    reveal_strlit("INVOKE:");
    reveal_strlit(":");
    let t = invoke_text(contract_id, function, args_xdr);
    let c: int = 7 + contract_id.len() as int;
    let f: int = c + 1 + function.len();
    assert(t.take(7) =~= "INVOKE:"@);
    assert(t.subrange(7, c) =~= contract_id);
    assert(t.subrange(c + 1, f) =~= function);
    assert(t.skip(f + 1) =~= args_xdr);
    assert forall|i: int| 7 <= i < c implies t[i] != ':' by {
        assert(t[i] == contract_id[i - 7]);
    }
    assert forall|i: int| c < i < f implies t[i] != ':' by {
        assert(t[i] == function[i - c - 1]);
    }
}

fn one_member(name: &str, value: Json) -> (r: Json)
    ensures
        r matches Json::Object(keys, values) && keys@.len() == 1 && values@.len() == 1
            && keys@[0]@ == name@ && values@[0] == value,
{
    let mut keys: Vec<String> = Vec::new();
    keys.push(name.to_owned());
    let mut values: Vec<Json> = Vec::new();
    values.push(value);
    Json::Object(keys, values)
}

/// A request whose parameters are `{"transaction": tx}`.
pub open spec fn transaction_request(r: RpcRequest, id: u32, method: Seq<char>, tx: Seq<char>) -> bool {
    &&& r.jsonrpc@ == "2.0"@
    &&& r.id == id
    &&& r.method@ == method
    &&& r.params matches Json::Object(keys, values)
    &&& keys@.len() == 1
    &&& values@.len() == 1
    &&& keys@[0]@ == "transaction"@
    &&& values@[0] matches Json::Str(t)
    &&& t@ == tx
}

// ---------------------------------------------------------------------------
// Reading the node's answers
// ---------------------------------------------------------------------------

/// The error message for a JSON-RPC error object: the contract errors by name,
/// anything else with the object's JSON text.
pub open spec fn fault_message(f: RpcFault) -> Seq<char> {
    let code = opt_unsigned(field(f.body, "code"@));
    match code {
        Some(c) => if c as u32 == CONTRACT_NOT_FOUND {
            "NOT_FOUND"@
        } else if c as u32 == CONTRACT_UNAUTHORIZED {
            "UNAUTHORIZED"@
        } else if c as u32 == CONTRACT_NOT_PAID {
            "NOT_PAID"@
        } else {
            "RPC error: "@ + f.text@
        },
        None => "RPC error: "@ + f.text@,
    }
}

/// The client error for a JSON-RPC error object.
pub fn rpc_error_to_error(err: &RpcFault) -> (e: ClientError)
    ensures
        e.message@ == fault_message(*err),
        raised_by_client(e),
{
    let code: Option<u32> = match err.body.get("code") {
        Some(c) => match c.as_u64() {
            Some(v) => Some(v as u32),
            None => None,
        },
        None => None,
    };
    match code {
        Some(c) => if c == CONTRACT_NOT_FOUND {
            ClientError::msg("NOT_FOUND")
        } else if c == CONTRACT_UNAUTHORIZED {
            ClientError::msg("UNAUTHORIZED")
        } else if c == CONTRACT_NOT_PAID {
            ClientError::msg("NOT_PAID")
        } else {
            let mut m = "RPC error: ".to_owned();
            m.append(err.text.as_str());
            ClientError { message: m, transport: None, status: None }
        },
        None => {
            let mut m = "RPC error: ".to_owned();
            m.append(err.text.as_str());
            ClientError { message: m, transport: None, status: None }
        },
    }
}

/// The outcome of a JSON-RPC answer: its error object as a client error, else
/// its result, else the error `Empty RPC result`.
pub open spec fn rpc_outcome(resp: RpcResponse) -> Result<Json, Seq<char>> {
    match resp.error {
        Some(f) => Err(fault_message(f)),
        None => match resp.result {
            Some(r) => Ok(r),
            None => Err("Empty RPC result"@),
        },
    }
}

/// The result of a JSON-RPC answer, or the error it stands for.
pub fn rpc_result(resp: RpcResponse) -> (r: Result<Json, ClientError>)
    ensures
        match r {
            Ok(j) => rpc_outcome(resp) == Ok::<Json, Seq<char>>(j),
            Err(e) => rpc_outcome(resp) == Err::<Json, Seq<char>>(e.message@) && raised_by_client(e),
        },
{
    match resp.error {
        Some(f) => Err(rpc_error_to_error(&f)),
        None => match resp.result {
            Some(j) => Ok(j),
            None => Err(ClientError::msg("Empty RPC result")),
        },
    }
}

/// The entries of an invoice result: the elements of its `map` member.
pub open spec fn invoice_entries(result: Json) -> Seq<Json> {
    match field(result, "map"@) {
        Some(m) => match as_items(m) {
            Some(items) => items,
            None => Seq::empty(),
        },
        None => Seq::empty(),
    }
}

/// The first entry whose `key` member is the text `key`.
pub open spec fn first_keyed(entries: Seq<Json>, key: Seq<char>) -> Option<Json>
    decreases entries.len(),
{
    if entries.len() == 0 {
        None
    } else if opt_text(field(entries[0], "key"@)) == Some(key) {
        Some(entries[0])
    } else {
        first_keyed(entries.drop_first(), key)
    }
}

/// The `val` of the entry for `key`, as a non-negative 64-bit integer.
pub open spec fn entry_u64(entries: Seq<Json>, key: Seq<char>) -> Option<u64> {
    opt_unsigned(opt_field(first_keyed(entries, key), "val"@))
}

/// The `val` of the entry for `key`, as text.
pub open spec fn entry_text(entries: Seq<Json>, key: Seq<char>) -> Option<Seq<char>> {
    opt_text(opt_field(first_keyed(entries, key), "val"@))
}

/// An optional string, by its text.
pub open spec fn opt_string(o: Option<String>) -> Option<Seq<char>> {
    match o {
        Some(s) => Some(s@),
        None => None,
    }
}

/// The invoice status that an entry value stands for; `Pending` where it is
/// missing or unknown.
pub open spec fn status_of_entry(v: Option<u64>) -> InvoiceStatus {
    match v {
        Some(c) => match status_from_code(c as u32) {
            Some(s) => s,
            None => InvoiceStatus::Pending,
        },
        None => InvoiceStatus::Pending,
    }
}

/// `inv` is the invoice that `result` describes, with `invoice_id` as the id
/// where the result has none and defaults for other missing fields.
pub open spec fn invoice_matches(inv: InvoiceResponse, result: Json, invoice_id: u64) -> bool {
    let e = invoice_entries(result);
    &&& inv.id == (match entry_u64(e, "id"@) {
        Some(v) => v,
        None => invoice_id,
    })
    &&& inv.merchant@ == (match entry_text(e, "merchant"@) {
        Some(t) => t,
        None => Seq::empty(),
    })
    &&& opt_string(inv.payer) == entry_text(e, "payer"@)
    &&& opt_string(inv.token) == entry_text(e, "token"@)
    &&& inv.amount_usdc == (match entry_u64(e, "amount_usdc"@) {
        Some(v) => v,
        None => 0,
    })
    &&& inv.gross_usdc == (match entry_u64(e, "gross_usdc"@) {
        Some(v) => v,
        None => 0,
    })
    &&& inv.status == status_of_entry(entry_u64(e, "status"@))
    &&& inv.due_date == (match entry_u64(e, "expires_at"@) {
        Some(v) => v,
        None => 0,
    })
    &&& inv.paid_at == entry_u64(e, "paid_at"@)
    &&& inv.created_at == entry_u64(e, "created_at"@)
}

/// Each field of a parsed invoice is read from the entry of its own key and
/// from nothing else: two answers whose first entries for a key carry the same
/// `val` give the same field, whatever their other entries hold. `paid_at` and
/// `created_at` are absent exactly when their entry, or its unsigned `val`, is.
pub proof fn law_invoice_fields_from_own_keys(
    inv1: InvoiceResponse,
    result1: Json,
    inv2: InvoiceResponse,
    result2: Json,
    invoice_id: u64,
)
    requires
        invoice_matches(inv1, result1, invoice_id),
        invoice_matches(inv2, result2, invoice_id),
    ensures
        ({
            let e1 = invoice_entries(result1);
            let e2 = invoice_entries(result2);
            let same = |k: Seq<char>|
                opt_field(first_keyed(e1, k), "val"@) == opt_field(first_keyed(e2, k), "val"@);
            &&& same("id"@) ==> inv1.id == inv2.id
            &&& same("merchant"@) ==> inv1.merchant@ == inv2.merchant@
            &&& same("payer"@) ==> opt_string(inv1.payer) == opt_string(inv2.payer)
            &&& same("token"@) ==> opt_string(inv1.token) == opt_string(inv2.token)
            &&& same("amount_usdc"@) ==> inv1.amount_usdc == inv2.amount_usdc
            &&& same("gross_usdc"@) ==> inv1.gross_usdc == inv2.gross_usdc
            &&& same("status"@) ==> inv1.status == inv2.status
            &&& same("expires_at"@) ==> inv1.due_date == inv2.due_date
            &&& same("paid_at"@) ==> inv1.paid_at == inv2.paid_at
            &&& same("created_at"@) ==> inv1.created_at == inv2.created_at
            &&& (first_keyed(e1, "paid_at"@) is None ==> inv1.paid_at is None)
            &&& inv1.paid_at == opt_unsigned(opt_field(first_keyed(e1, "paid_at"@), "val"@))
            &&& inv1.created_at == opt_unsigned(opt_field(first_keyed(e1, "created_at"@), "val"@))
        }),
{
}

/// The payer check depends on the invoice's payer alone, never on its status:
/// a caller is refused exactly when the invoice names a non-empty payer other
/// than the caller.
pub proof fn law_payer_check_ignores_status(
    inv: InvoiceResponse,
    caller: Seq<char>,
    status: InvoiceStatus,
)
    ensures
        payer_mismatch(inv, caller) == (inv.payer matches Some(p) && p@.len() > 0 && p@ != caller),
        payer_mismatch((InvoiceResponse { status, ..inv }), caller) == payer_mismatch(inv, caller),
{
}

fn find_entry<'a>(entries: &'a Vec<Json>, key: &str) -> (r: Option<&'a Json>)
    ensures
        match r {
            Some(j) => first_keyed(entries@, key@) == Some(*j),
            None => first_keyed(entries@, key@) is None,
        },
{
    let n = entries.len();
    let mut i: usize = 0;
    assert(entries@.skip(0) =~= entries@);
    while i < n
        invariant
            n == entries@.len(),
            i <= n,
            first_keyed(entries@, key@) == first_keyed(entries@.skip(i as int), key@),
        decreases n - i,
    {
        assert(entries@.skip(i as int).drop_first() =~= entries@.skip(i + 1));
        assert(entries@.skip(i as int)[0] == entries@[i as int]);
        let hit = match entries[i].get("key") {
            Some(k) => match k.as_str() {
                Some(t) => text_eq(t, key),
                None => false,
            },
            None => false,
        };
        if hit {
            return Some(&entries[i]);
        }
        i = i + 1;
    }
    None
}

fn entry_value<'a>(entries: &'a Vec<Json>, key: &str) -> (r: Option<&'a Json>)
    ensures
        match r {
            Some(j) => opt_field(first_keyed(entries@, key@), "val"@) == Some(*j),
            None => opt_field(first_keyed(entries@, key@), "val"@) is None,
        },
{
    match find_entry(entries, key) {
        Some(e) => e.get("val"),
        None => None,
    }
}

fn get_u64(entries: &Vec<Json>, key: &str) -> (r: Option<u64>)
    ensures
        r == entry_u64(entries@, key@),
{
    match entry_value(entries, key) {
        Some(v) => v.as_u64(),
        None => None,
    }
}

fn get_str(entries: &Vec<Json>, key: &str) -> (r: Option<String>)
    ensures
        opt_string(r) == entry_text(entries@, key@),
{
    match entry_value(entries, key) {
        Some(v) => match v.as_str() {
            Some(s) => Some(s.to_owned()),
            None => None,
        },
        None => None,
    }
}

/// Reads the invoice that an RPC `result` describes; the id defaults to
/// `invoice_id`, numbers to 0, the merchant to the empty text and the status to
/// `Pending`.
pub fn parse_invoice_result(result: &Json, invoice_id: u64) -> (r: Result<
    InvoiceResponse,
    ClientError,
>)
    ensures
        r matches Ok(inv) && invoice_matches(inv, *result, invoice_id),
{
    let empty: Vec<Json> = Vec::new();
    let entries: &Vec<Json> = match result.get("map") {
        Some(m) => match m.as_array() {
            Some(items) => items,
            None => &empty,
        },
        None => &empty,
    };
    assert(entries@ == invoice_entries(*result));
    let status_code: Option<u32> = match get_u64(entries, "status") {
        Some(v) => Some(v as u32),
        None => None,
    };
    let status = match status_code {
        Some(c) => match InvoiceStatus::from_u32(c) {
            Some(s) => s,
            None => InvoiceStatus::Pending,
        },
        None => InvoiceStatus::Pending,
    };
    let id = match get_u64(entries, "id") {
        Some(v) => v,
        None => invoice_id,
    };
    let merchant = match get_str(entries, "merchant") {
        Some(s) => s,
        None => String::new(),
    };
    let amount_usdc = match get_u64(entries, "amount_usdc") {
        Some(v) => v,
        None => 0,
    };
    let gross_usdc = match get_u64(entries, "gross_usdc") {
        Some(v) => v,
        None => 0,
    };
    let due_date = match get_u64(entries, "expires_at") {
        Some(v) => v,
        None => 0,
    };
    Ok(
        InvoiceResponse {
            id,
            merchant,
            payer: get_str(entries, "payer"),
            token: get_str(entries, "token"),
            amount_usdc,
            gross_usdc,
            status,
            due_date,
            paid_at: get_u64(entries, "paid_at"),
            created_at: get_u64(entries, "created_at"),
        },
    )
}


// ---------------------------------------------------------------------------
// HTTP status answers
// ---------------------------------------------------------------------------

/// The text of an HTTP status as the HTTP library prints it: the code, a space
/// and the reason phrase.
pub uninterp spec fn http_status_text(code: u16) -> Seq<char>;

/// Whether `t` holds none of the marks of the messages that are never
/// retried: no underscore, no capital `Z`, and no `E` directly followed by `m`.
pub open spec fn plain_text(t: Seq<char>) -> bool {
    forall|i: int|
        0 <= i < t.len() ==> {
            &&& #[trigger] t[i] != '_'
            &&& t[i] != 'Z'
            &&& (t[i] == 'E' && i + 1 < t.len() ==> t[i + 1] != 'm')
        }
}

/// Two plain texts joined are plain where the first does not end in `E`.
proof fn lemma_plain_concat(a: Seq<char>, b: Seq<char>)
    requires
        plain_text(a),
        plain_text(b),
        a.len() > 0 ==> a.last() != 'E',
    ensures
        plain_text(a + b),
{
    let t = a + b;
    assert forall|i: int| 0 <= i < t.len() implies {
        &&& #[trigger] t[i] != '_'
        &&& t[i] != 'Z'
        &&& (t[i] == 'E' && i + 1 < t.len() ==> t[i + 1] != 'm')
    } by {
        if i < a.len() {
            assert(t[i] == a[i]);
            if i + 1 < a.len() {
                assert(t[i + 1] == a[i + 1]);
            }
        } else {
            assert(t[i] == b[i - a.len()]);
            if i + 1 < t.len() {
                assert(t[i + 1] == b[i + 1 - a.len()]);
            }
        }
    }
}

/// A plain text names no contract or logic error.
proof fn lemma_plain_not_never_retried(t: Seq<char>)
    requires
        plain_text(t),
    ensures
        !never_retried(t),
{
    reveal_strlit("NOT_FOUND");
    reveal_strlit("UNAUTHORIZED");
    reveal_strlit("NOT_PAID");
    reveal_strlit("Empty RPC result");
    if has_substring(t, "NOT_FOUND"@) {
        let i = choose|i: int|
            0 <= i && i + "NOT_FOUND"@.len() <= t.len() && #[trigger] t.subrange(
                i,
                i + "NOT_FOUND"@.len(),
            ) == "NOT_FOUND"@;
        assert(t.subrange(i, i + 9)[3] == t[i + 3]);
    }
    if has_substring(t, "UNAUTHORIZED"@) {
        let i = choose|i: int|
            0 <= i && i + "UNAUTHORIZED"@.len() <= t.len() && #[trigger] t.subrange(
                i,
                i + "UNAUTHORIZED"@.len(),
            ) == "UNAUTHORIZED"@;
        assert(t.subrange(i, i + 12)[9] == t[i + 9]);
    }
    if has_substring(t, "NOT_PAID"@) {
        let i = choose|i: int|
            0 <= i && i + "NOT_PAID"@.len() <= t.len() && #[trigger] t.subrange(
                i,
                i + "NOT_PAID"@.len(),
            ) == "NOT_PAID"@;
        assert(t.subrange(i, i + 8)[3] == t[i + 3]);
    }
    if has_substring(t, "Empty RPC result"@) {
        let i = choose|i: int|
            0 <= i && i + "Empty RPC result"@.len() <= t.len() && #[trigger] t.subrange(
                i,
                i + "Empty RPC result"@.len(),
            ) == "Empty RPC result"@;
        assert(t.subrange(i, i + 16)[0] == t[i]);
        assert(t.subrange(i, i + 16)[1] == t[i + 1]);
    }
}

/// Prints an HTTP status with `http::StatusCode`'s `Display`; the contract
/// claims that the result is named by the code alone, starts with the code in
/// decimal and a space, as that `Display` writes `"{code} {reason}"`, and is
/// plain text: no reason phrase of the library's table, nor its text for an
/// unknown code, holds an underscore, a capital `Z` or an `E` followed by `m`.
/// The reason phrase itself is left unsaid.
#[verifier::external_body]
fn status_text(code: u16) -> (r: String)
    requires
        100 <= code <= 999,
    ensures
        r@ == http_status_text(code),
        (decimal(code as nat) + " "@).is_prefix_of(r@),
        plain_text(r@),
{
    match axum::http::StatusCode::from_u16(code) {
        Ok(status) => status.to_string(),
        Err(_) => String::new(),
    }
}

fn message_with_status(prefix: &str, code: u16) -> (e: ClientError)
    requires
        100 <= code <= 999,
        plain_text(prefix@),
        prefix@.len() > 0 && prefix@.last() == ' ',
    ensures
        e.message@ == prefix@ + http_status_text(code),
        (prefix@ + decimal(code as nat) + " "@).is_prefix_of(e.message@),
        !never_retried(e.message@),
        e.transport is None,
        e.status == Some(code),
{
    let mut m = prefix.to_owned();
    let t = status_text(code);
    m.append(t.as_str());
    assert(prefix@ + decimal(code as nat) + " "@ =~= prefix@ + (decimal(code as nat) + " "@));
    proof {
        lemma_plain_concat(prefix@, t@);
        lemma_plain_not_never_retried(m@);
    }
    ClientError { message: m, transport: None, status: Some(code) }
}

/// The error for an HTTP answer of the RPC node with status `status`: 5xx
/// answers are failures, others are read as JSON-RPC answers.
pub fn rpc_http_failure(status: u16) -> (r: Option<ClientError>)
    requires
        100 <= status <= 999,
    ensures
        match r {
            Some(e) => {
                &&& 500 <= status < 600
                &&& e.message@ == "RPC node returned HTTP "@ + http_status_text(status)
                &&& ("RPC node returned HTTP "@ + decimal(status as nat) + " "@).is_prefix_of(
                    e.message@,
                )
                &&& e.transport is None
                &&& e.status == Some(status)
                &&& transient_spec(e)
            },
            None => !(500 <= status < 600),
        },
{
    if 500 <= status && status < 600 {
        proof {
            reveal_strlit("RPC node returned HTTP ");
        }
        Some(message_with_status("RPC node returned HTTP ", status))
    } else {
        None
    }
}

/// The outcome of the Horizon health endpoint answering with `status`.
pub open spec fn horizon_outcome(status: u16) -> Result<(), Seq<char>> {
    if 500 <= status < 600 {
        Err("Horizon health check failed with HTTP "@ + http_status_text(status))
    } else if !(200 <= status < 300) {
        Err("Horizon health check failed with status "@ + http_status_text(status))
    } else {
        Ok(())
    }
}

/// Whether `inv` names a payer other than `payer` (an empty payer names nobody).
pub open spec fn payer_mismatch(inv: InvoiceResponse, payer: Seq<char>) -> bool {
    match inv.payer {
        Some(expected) => expected@.len() > 0 && expected@ != payer,
        None => false,
    }
}

/// The transaction hash of a `sendTransaction` result; empty where missing.
pub open spec fn tx_hash_of(result: Json) -> Seq<char> {
    match opt_text(field(result, "hash"@)) {
        Some(h) => h,
        None => Seq::empty(),
    }
}

fn tx_hash(result: &Json) -> (h: String)
    ensures
        h@ == tx_hash_of(*result),
{
    match result.get("hash") {
        Some(v) => match v.as_str() {
            Some(t) => t.to_owned(),
            None => String::new(),
        },
        None => String::new(),
    }
}

/// The outcome of a transaction submission: the error it stands for, or its hash.
///
/// For cancellations and refund requests (`invoice_codes`), the invoice
/// contract's `InvoiceNotFound` code 4 also stands for `NOT_FOUND`.
pub open spec fn tx_outcome(resp: RpcResponse, invoice_codes: bool) -> Result<Seq<char>, Seq<char>> {
    match resp.error {
        Some(f) => Err(tx_fault_message(f, invoice_codes)),
        None => match resp.result {
            Some(r) => Ok(tx_hash_of(r)),
            None => Err("Empty RPC result"@),
        },
    }
}

/// The numeric code of a JSON-RPC error object, read as a 32-bit number.
pub open spec fn fault_code(f: RpcFault) -> Option<u32> {
    match opt_unsigned(field(f.body, "code"@)) {
        Some(c) => Some(c as u32),
        None => None,
    }
}

/// The error message for an error object answering a submitted transaction.
pub open spec fn tx_fault_message(f: RpcFault, invoice_codes: bool) -> Seq<char> {
    if invoice_codes && fault_code(f) == Some(CONTRACT_INVOICE_NOT_FOUND) {
        "NOT_FOUND"@
    } else {
        fault_message(f)
    }
}

fn read_fault_code(f: &RpcFault) -> (c: Option<u32>)
    ensures
        c == fault_code(*f),
{
    match f.body.get("code") {
        Some(c) => match c.as_u64() {
            Some(v) => Some(v as u32),
            None => None,
        },
        None => None,
    }
}

fn submitted_hash(resp: RpcResponse, invoice_codes: bool) -> (r: Result<String, ClientError>)
    ensures
        match r {
            Ok(h) => tx_outcome(resp, invoice_codes) == Ok::<Seq<char>, Seq<char>>(h@),
            Err(e) => tx_outcome(resp, invoice_codes) == Err::<Seq<char>, Seq<char>>(e.message@)
                && raised_by_client(e),
        },
{
    if let Some(f) = &resp.error {
        if invoice_codes && read_fault_code(f) == Some(CONTRACT_INVOICE_NOT_FOUND) {
            return Err(ClientError::msg("NOT_FOUND"));
        }
    }
    match rpc_result(resp) {
        Ok(result) => Ok(tx_hash(&result)),
        Err(e) => Err(e),
    }
}

/// The trailing-slash-free base URL followed by `/health`.
pub open spec fn health_url(base: Seq<char>) -> Seq<char> {
    trim_end_char(base, '/') + "/health"@
}

/// Appends `v[..end]` to `s`.
fn push_prefix(s: &mut String, v: &Vec<char>, end: usize)
    requires
        end <= v@.len(),
    ensures
        final(s)@ == old(s)@ + v@.take(end as int),
{
    let mut i: usize = 0;
    while i < end
        invariant
            end <= v@.len(),
            i <= end,
            s@ == old(s)@ + v@.take(i as int),
        decreases end - i,
    {
        push_char(s, v[i]);
        assert(v@.take(i + 1) =~= v@.take(i as int).push(v@[i as int]));
        i = i + 1;
    }
}

/// The client of the Soroban RPC node and the Horizon server, by their URLs,
/// with the invoice contract it talks to.
#[derive(Clone, Debug)]
pub struct SorobanClient {
    pub rpc_url: String,
    pub contract_id: String,
    pub horizon_url: String,
}

impl SorobanClient {
    /// A client for the given RPC node, invoice contract and Horizon server.
    pub fn new(rpc_url: String, contract_id: String, horizon_url: String) -> (c: SorobanClient)
        ensures
            c.rpc_url == rpc_url,
            c.contract_id == contract_id,
            c.horizon_url == horizon_url,
    {
        SorobanClient { rpc_url, contract_id, horizon_url }
    }

    /// The `simulateTransaction` request that reads invoice `invoice_id` with
    /// the contract's `get_invoice`.
    pub fn get_invoice_request(&self, invoice_id: u64) -> (r: RpcRequest)
        ensures
            transaction_request(
                r,
                1,
                "simulateTransaction"@,
                invoke_text(
                    self.contract_id@,
                    "get_invoice"@,
                    base64_standard(u64_arg_bytes(invoice_id)),
                ),
            ),
    {
        let args_xdr = encode_u64_arg(invoice_id);
        let tx = build_invoke_xdr(self.contract_id.as_str(), "get_invoice", args_xdr.as_str());
        RpcRequest {
            jsonrpc: "2.0",
            id: 1,
            method: "simulateTransaction",
            params: one_member("transaction", Json::Str(tx)),
        }
    }

    /// The invoice that a `get_invoice` answer describes, or the error it stands for.
    pub fn get_invoice_outcome(&self, resp: RpcResponse, invoice_id: u64) -> (r: Result<
        InvoiceResponse,
        ClientError,
    >)
        ensures
            match r {
                Ok(inv) => rpc_outcome(resp) matches Ok(result) && invoice_matches(
                    inv,
                    result,
                    invoice_id,
                ),
                Err(e) => rpc_outcome(resp) == Err::<Json, Seq<char>>(e.message@) && raised_by_client(e),
            },
    {
        match rpc_result(resp) {
            Ok(result) => parse_invoice_result(&result, invoice_id),
            Err(e) => Err(e),
        }
    }

    /// The `getLatestLedger` request that probes the RPC node.
    pub fn rpc_health_request(&self) -> (r: RpcRequest)
        ensures
            r.jsonrpc@ == "2.0"@,
            r.id == 3,
            r.method@ == "getLatestLedger"@,
            r.params matches Json::Array(items) && items@.len() == 0,
    {
        RpcRequest { jsonrpc: "2.0", id: 3, method: "getLatestLedger", params: Json::Array(Vec::new()) }
    }

    /// Whether a `getLatestLedger` answer shows the RPC node healthy.
    pub fn rpc_health_outcome(&self, resp: RpcResponse) -> (r: Result<(), ClientError>)
        ensures
            match r {
                Ok(_) => rpc_outcome(resp) is Ok,
                Err(e) => rpc_outcome(resp) == Err::<Json, Seq<char>>(e.message@) && raised_by_client(e),
            },
    {
        match rpc_result(resp) {
            Ok(_) => Ok(()),
            Err(e) => Err(e),
        }
    }

    /// The URL of the Horizon health endpoint.
    pub fn horizon_health_url(&self) -> (u: String)
        ensures
            u@ == health_url(self.horizon_url@),
    {
        let v = crate::text::chars_of(self.horizon_url.as_str());
        let mut end = v.len();
        assert(v@.take(end as int) =~= v@);
        while end > 0 && v[end - 1] == '/'
            invariant
                end <= v@.len(),
                trim_end_char(v@, '/') == trim_end_char(v@.take(end as int), '/'),
            decreases end,
        {
            assert(v@.take(end as int).drop_last() =~= v@.take(end - 1));
            end = end - 1;
        }
        assert(trim_end_char(v@.take(end as int), '/') == v@.take(end as int)) by {
            if end > 0 {
                assert(v@.take(end as int).last() == v@[end - 1]);
            }
        }
        let mut u = String::new();
        push_prefix(&mut u, &v, end);
        u.append("/health");
        assert(v@ == self.horizon_url@);
        u
    }

    /// Whether the Horizon health endpoint's answer status shows it healthy.
    pub fn horizon_health_outcome(&self, status: u16) -> (r: Result<(), ClientError>)
        requires
            100 <= status <= 999,
        ensures
            match r {
                Ok(_) => horizon_outcome(status) is Ok,
                Err(e) => {
                    &&& horizon_outcome(status) == Err::<(), Seq<char>>(e.message@)
                    &&& e.transport is None
                    &&& e.status == Some(status)
                    &&& transient_spec(e) == (500 <= status < 600)
                },
            },
    {
        if 500 <= status && status < 600 {
            proof {
                reveal_strlit("Horizon health check failed with HTTP ");
            }
            Err(message_with_status("Horizon health check failed with HTTP ", status))
        } else if !(200 <= status && status < 300) {
            proof {
                reveal_strlit("Horizon health check failed with status ");
            }
            Err(message_with_status("Horizon health check failed with status ", status))
        } else {
            Ok(())
        }
    }

    /// `UNAUTHORIZED` when the invoice names a payer other than `payer`.
    pub fn authorize_payer(&self, invoice: &InvoiceResponse, payer: &str) -> (r: Result<(), ClientError>)
        ensures
            match r {
                Ok(_) => !payer_mismatch(*invoice, payer@),
                Err(e) => payer_mismatch(*invoice, payer@) && e.message@ == "UNAUTHORIZED"@
                    && raised_by_client(e),
            },
    {
        match &invoice.payer {
            Some(expected) => {
                if !expected.as_str().is_empty() && !text_eq(expected.as_str(), payer) {
                    Err(ClientError::msg("UNAUTHORIZED"))
                } else {
                    Ok(())
                }
            },
            None => Ok(()),
        }
    }

    /// `UNAUTHORIZED` unless `merchant` is the invoice's merchant.
    pub fn authorize_merchant(&self, invoice: &InvoiceResponse, merchant: &str) -> (r: Result<
        (),
        ClientError,
    >)
        ensures
            match r {
                Ok(_) => invoice.merchant@ == merchant@,
                Err(e) => invoice.merchant@ != merchant@ && e.message@ == "UNAUTHORIZED"@
                    && raised_by_client(e),
            },
    {
        if text_eq(invoice.merchant.as_str(), merchant) {
            Ok(())
        } else {
            Err(ClientError::msg("UNAUTHORIZED"))
        }
    }

    /// The `sendTransaction` request for a signed payment.
    pub fn pay_request(&self, signed_xdr: &str) -> (r: RpcRequest)
        ensures
            transaction_request(r, 2, "sendTransaction"@, signed_xdr@),
    {
        RpcRequest {
            jsonrpc: "2.0",
            id: 2,
            method: "sendTransaction",
            params: one_member("transaction", Json::Str(signed_xdr.to_owned())),
        }
    }

    /// The `sendTransaction` request for a signed cancellation.
    pub fn cancel_request(&self, signed_xdr: &str) -> (r: RpcRequest)
        ensures
            transaction_request(r, 3, "sendTransaction"@, signed_xdr@),
    {
        RpcRequest {
            jsonrpc: "2.0",
            id: 3,
            method: "sendTransaction",
            params: one_member("transaction", Json::Str(signed_xdr.to_owned())),
        }
    }

    /// The `sendTransaction` request for a signed refund request.
    pub fn refund_request(&self, signed_xdr: &str) -> (r: RpcRequest)
        ensures
            transaction_request(r, 4, "sendTransaction"@, signed_xdr@),
    {
        RpcRequest {
            jsonrpc: "2.0",
            id: 4,
            method: "sendTransaction",
            params: one_member("transaction", Json::Str(signed_xdr.to_owned())),
        }
    }

    /// The step between reading the invoice and submitting a payment: the
    /// `sendTransaction` request for `signed_xdr` when `payer` may pay
    /// `invoice`, else `UNAUTHORIZED` and nothing to send.
    pub fn pay_submission(&self, invoice: &InvoiceResponse, payer: &str, signed_xdr: &str) -> (r:
        Result<RpcRequest, ClientError>)
        ensures
            match r {
                Ok(req) => !payer_mismatch(*invoice, payer@) && transaction_request(
                    req,
                    2,
                    "sendTransaction"@,
                    signed_xdr@,
                ),
                Err(e) => payer_mismatch(*invoice, payer@) && e.message@ == "UNAUTHORIZED"@
                    && raised_by_client(e),
            },
    {
        match self.authorize_payer(invoice, payer) {
            Ok(()) => Ok(self.pay_request(signed_xdr)),
            Err(e) => Err(e),
        }
    }

    /// The step between reading the invoice and submitting a cancellation: the
    /// `sendTransaction` request for `signed_xdr` when `merchant` owns
    /// `invoice`, else `UNAUTHORIZED` and nothing to send.
    pub fn cancel_submission(&self, invoice: &InvoiceResponse, merchant: &str, signed_xdr: &str) -> (r:
        Result<RpcRequest, ClientError>)
        ensures
            match r {
                Ok(req) => invoice.merchant@ == merchant@ && transaction_request(
                    req,
                    3,
                    "sendTransaction"@,
                    signed_xdr@,
                ),
                Err(e) => invoice.merchant@ != merchant@ && e.message@ == "UNAUTHORIZED"@
                    && raised_by_client(e),
            },
    {
        match self.authorize_merchant(invoice, merchant) {
            Ok(()) => Ok(self.cancel_request(signed_xdr)),
            Err(e) => Err(e),
        }
    }

    /// The step between reading the invoice and submitting a refund request:
    /// the `sendTransaction` request for `signed_xdr` when `payer` may ask for
    /// the refund of `invoice`, else `UNAUTHORIZED` and nothing to send.
    pub fn refund_submission(&self, invoice: &InvoiceResponse, payer: &str, signed_xdr: &str) -> (r:
        Result<RpcRequest, ClientError>)
        ensures
            match r {
                Ok(req) => !payer_mismatch(*invoice, payer@) && transaction_request(
                    req,
                    4,
                    "sendTransaction"@,
                    signed_xdr@,
                ),
                Err(e) => payer_mismatch(*invoice, payer@) && e.message@ == "UNAUTHORIZED"@
                    && raised_by_client(e),
            },
    {
        match self.authorize_payer(invoice, payer) {
            Ok(()) => Ok(self.refund_request(signed_xdr)),
            Err(e) => Err(e),
        }
    }

    /// The answer to a submitted payment: `Paid` with the transaction hash, or
    /// the error the node's answer stands for.
    pub fn pay_outcome(&self, resp: RpcResponse) -> (r: Result<PayResponse, ClientError>)
        ensures
            match r {
                Ok(p) => p.status == InvoiceStatus::Paid && tx_outcome(resp, false) == Ok::<
                    Seq<char>,
                    Seq<char>,
                >(p.transaction_hash@),
                Err(e) => tx_outcome(resp, false) == Err::<Seq<char>, Seq<char>>(e.message@) && raised_by_client(e),
            },
    {
        match submitted_hash(resp, false) {
            Ok(h) => Ok(PayResponse { status: InvoiceStatus::Paid, transaction_hash: h }),
            Err(e) => Err(e),
        }
    }

    /// The answer to a submitted cancellation: `Cancelled` with the transaction
    /// hash, or the error the node's answer stands for, where the invoice
    /// contract's code 4 (`InvoiceNotFound`) stands for `NOT_FOUND`.
    pub fn cancel_outcome(&self, resp: RpcResponse) -> (r: Result<CancelResponse, ClientError>)
        ensures
            match r {
                Ok(p) => p.status == InvoiceStatus::Cancelled && tx_outcome(resp, true) == Ok::<
                    Seq<char>,
                    Seq<char>,
                >(p.transaction_hash@),
                Err(e) => tx_outcome(resp, true) == Err::<Seq<char>, Seq<char>>(e.message@) && raised_by_client(e),
            },
    {
        match submitted_hash(resp, true) {
            Ok(h) => Ok(CancelResponse { status: InvoiceStatus::Cancelled, transaction_hash: h }),
            Err(e) => Err(e),
        }
    }

    /// The answer to a submitted refund request: `RefundRequested` with the
    /// transaction hash, or the error the node's answer stands for, where the
    /// invoice contract's code 4 (`InvoiceNotFound`) stands for `NOT_FOUND`.
    pub fn refund_outcome(&self, resp: RpcResponse) -> (r: Result<RefundResponse, ClientError>)
        ensures
            match r {
                Ok(p) => p.status == InvoiceStatus::RefundRequested && tx_outcome(resp, true) == Ok::<
                    Seq<char>,
                    Seq<char>,
                >(p.transaction_hash@),
                Err(e) => tx_outcome(resp, true) == Err::<Seq<char>, Seq<char>>(e.message@) && raised_by_client(e),
            },
    {
        match submitted_hash(resp, true) {
            Ok(h) => Ok(RefundResponse { status: InvoiceStatus::RefundRequested, transaction_hash: h }),
            Err(e) => Err(e),
        }
    }
}

} // verus!
