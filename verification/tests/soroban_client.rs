use comebackhere::json::Json;
use comebackhere::soroban::{
    build_invoke_xdr, encode_u64_arg, is_transient, parse_invoice_result, rpc_error_to_error,
    rpc_http_failure, rpc_result, ClientError, RetryDecision, RetryState, SorobanClient,
    TransportFault, MAX_RETRIES,
};
use comebackhere::types::{InvoiceStatus, RpcFault, RpcResponse};

fn num(v: u64) -> Json {
    Json::Number(comebackhere::json::JsonNumber { text: v.to_string(), unsigned: Some(v) })
}

fn text(s: &str) -> Json {
    Json::Str(s.to_string())
}

fn object(members: Vec<(&str, Json)>) -> Json {
    let mut keys = Vec::new();
    let mut values = Vec::new();
    for (k, v) in members {
        keys.push(k.to_string());
        values.push(v);
    }
    Json::Object(keys, values)
}

fn entry(key: &str, val: Json) -> Json {
    object(vec![("key", text(key)), ("val", val)])
}

fn client() -> SorobanClient {
    SorobanClient::new(
        "http://127.0.0.1:19999/soroban/rpc".to_string(),
        "CONTRACT_ID".to_string(),
        "https://horizon.stellar.org".to_string(),
    )
}

// ── is_transient ───────────────────────────────────────────────────────────

#[test]
fn transient_false_for_not_found() {
    let err = ClientError::msg("NOT_FOUND");
    assert!(!is_transient(&err));
}

#[test]
fn transient_false_for_unauthorized() {
    let err = ClientError::msg("UNAUTHORIZED");
    assert!(!is_transient(&err));
}

#[test]
fn transient_false_for_not_paid() {
    let err = ClientError::msg("NOT_PAID");
    assert!(!is_transient(&err));
}

#[test]
fn transient_false_for_empty_rpc_result() {
    let err = ClientError::msg("Empty RPC result");
    assert!(!is_transient(&err));
}

#[test]
fn transient_true_for_5xx_message() {
    let err = ClientError::msg("RPC node returned HTTP 503");
    assert!(is_transient(&err));
}

#[test]
fn transient_true_for_timeout_message() {
    let err = ClientError::msg("request timed out");
    assert!(is_transient(&err));
}

#[test]
fn transient_true_for_connection_message() {
    let err = ClientError::msg("connection refused");
    assert!(is_transient(&err));
}

#[test]
fn transient_follows_the_http_client_report() {
    let report = |timeout, connect, request, status| ClientError {
        message: "error sending request".to_string(),
        transport: Some(TransportFault { timeout, connect, request, status }),
        status: None,
    };
    assert!(is_transient(&report(true, false, false, None)));
    assert!(is_transient(&report(false, true, false, None)));
    assert!(is_transient(&report(false, false, true, None)));
    assert!(is_transient(&report(false, false, false, Some(502))));
    assert!(!is_transient(&report(false, false, false, Some(404))));
    assert!(!is_transient(&report(false, false, false, None)));
    // A reported failure that names a contract error is still not retried.
    let named = ClientError {
        message: "NOT_FOUND".to_string(),
        transport: Some(TransportFault { timeout: true, connect: false, request: false, status: None }),
        status: None,
    };
    assert!(!is_transient(&named));
}

#[test]
fn transient_false_for_unclassified_message() {
    assert!(!is_transient(&ClientError::msg("something else went wrong")));
    assert!(is_transient(&ClientError::msg("broken pipe")));
    assert!(is_transient(&ClientError::msg("connection reset by peer")));
}

// ── retry policy ───────────────────────────────────────────────────────────

#[test]
fn retry_schedule_doubles_then_gives_up() {
    let s0 = RetryState::start();
    let (d1, s1) = s0.after_failure(true);
    assert_eq!(d1, RetryDecision::Retry(200));
    let (d2, s2) = s1.after_failure(true);
    assert_eq!(d2, RetryDecision::Retry(400));
    let (d3, s3) = s2.after_failure(true);
    assert_eq!(d3, RetryDecision::Retry(800));
    assert_eq!(s3.attempt, MAX_RETRIES);
    assert_eq!(s3.total_waited_ms, 1400);
    let (d4, s4) = s3.after_failure(true);
    assert_eq!(d4, RetryDecision::GiveUp);
    assert_eq!(s4, s3);
}

#[test]
fn retry_gives_up_at_once_on_a_permanent_error() {
    let (d, s) = RetryState::start().after_failure(false);
    assert_eq!(d, RetryDecision::GiveUp);
    assert_eq!(s, RetryState::start());
}

#[test]
fn retry_respects_the_total_budget() {
    let s = RetryState { attempt: 1, delay_ms: 20_000, total_waited_ms: 15_000 };
    assert_eq!(s.after_failure(true).0, RetryDecision::GiveUp);
    let s = RetryState { attempt: 1, delay_ms: 10_000, total_waited_ms: 15_000 };
    let (d, next) = s.after_failure(true);
    assert_eq!(d, RetryDecision::Retry(10_000));
    assert_eq!(next.total_waited_ms, 25_000);
    assert_eq!(next.delay_ms, 5_001);
}

// ── request building ───────────────────────────────────────────────────────

#[test]
fn encode_u64_arg_is_tagged_big_endian_base64() {
    assert_eq!(encode_u64_arg(1), "BgAAAAAAAAAB");
    assert_eq!(encode_u64_arg(99), "BgAAAAAAAABj");
    assert_eq!(encode_u64_arg(u64::MAX), "Bv//////////");
}

#[test]
fn encoded_ids_have_twelve_characters_and_differ() {
    let ids = [0u64, 1, 2, 255, 256, 99, 1 << 32, u64::MAX - 1, u64::MAX];
    let texts: Vec<String> = ids.iter().map(|&id| encode_u64_arg(id)).collect();
    for t in &texts {
        assert_eq!(t.len(), 12);
    }
    for i in 0..texts.len() {
        for j in 0..texts.len() {
            assert_eq!(texts[i] == texts[j], i == j);
        }
    }
}

#[test]
fn invoke_text_splits_back_into_its_parts() {
    let (cid, f, args) = ("CCONTRACT", "pay_invoice", "Bg:AA==");
    let t = build_invoke_xdr(cid, f, args);
    assert_eq!(t.len(), 9 + cid.len() + f.len() + args.len());
    let rest = t.strip_prefix("INVOKE:").unwrap();
    let mut parts = rest.splitn(3, ':');
    assert_eq!(parts.next(), Some(cid));
    assert_eq!(parts.next(), Some(f));
    assert_eq!(parts.next(), Some(args));
}

#[test]
fn build_invoke_xdr_joins_with_colons() {
    assert_eq!(build_invoke_xdr("C1", "get_invoice", "BgAA"), "INVOKE:C1:get_invoice:BgAA");
}

#[test]
fn get_invoice_request_simulates_the_invocation() {
    let req = client().get_invoice_request(1);
    assert_eq!(req.jsonrpc, "2.0");
    assert_eq!(req.id, 1);
    assert_eq!(req.method, "simulateTransaction");
    let tx = req.params.get("transaction").and_then(|t| t.as_str()).unwrap();
    assert_eq!(tx, "INVOKE:CONTRACT_ID:get_invoice:BgAAAAAAAAAB");
}

#[test]
fn send_requests_carry_the_signed_transaction() {
    let c = client();
    for (req, id) in [(c.pay_request("AAAA=="), 2), (c.cancel_request("AAAA=="), 3), (c.refund_request("AAAA=="), 4)] {
        assert_eq!(req.id, id);
        assert_eq!(req.method, "sendTransaction");
        assert_eq!(req.params.get("transaction").and_then(|t| t.as_str()), Some("AAAA=="));
    }
    let h = c.rpc_health_request();
    assert_eq!((h.id, h.method), (3, "getLatestLedger"));
}

// ── reading answers ────────────────────────────────────────────────────────

#[test]
fn rpc_errors_map_contract_codes() {
    let fault = |code: u64| RpcFault {
        body: object(vec![("code", num(code)), ("message", text("x"))]),
        text: format!("{{\"code\":{},\"message\":\"x\"}}", code),
    };
    assert_eq!(rpc_error_to_error(&fault(6)).message, "NOT_FOUND");
    assert_eq!(rpc_error_to_error(&fault(1)).message, "UNAUTHORIZED");
    assert_eq!(rpc_error_to_error(&fault(10)).message, "NOT_PAID");
    assert_eq!(rpc_error_to_error(&fault(7)).message, "RPC error: {\"code\":7,\"message\":\"x\"}");
    // The code is read as a 32-bit number, as the node's codes are.
    assert_eq!(rpc_error_to_error(&fault((1u64 << 32) + 6)).message, "NOT_FOUND");
    let no_code = RpcFault { body: object(vec![]), text: "{}".to_string() };
    assert_eq!(rpc_error_to_error(&no_code).message, "RPC error: {}");
}

#[test]
fn rpc_result_prefers_the_error_then_needs_a_result() {
    let empty = RpcResponse { result: None, error: None };
    assert_eq!(rpc_result(empty).unwrap_err().message, "Empty RPC result");
    let both = RpcResponse {
        result: Some(num(1)),
        error: Some(RpcFault { body: object(vec![("code", num(6))]), text: String::new() }),
    };
    assert_eq!(rpc_result(both).unwrap_err().message, "NOT_FOUND");
    let ok = RpcResponse { result: Some(num(42)), error: None };
    assert_eq!(rpc_result(ok).unwrap().as_u64(), Some(42));
}

#[test]
fn parse_invoice_result_reads_the_entry_map() {
    let result = object(vec![(
        "map",
        Json::Array(vec![
            entry("id", num(1)),
            entry("merchant", text("GMERCHANT")),
            entry("status", num(0)),
        ]),
    )]);
    let inv = parse_invoice_result(&result, 1).unwrap();
    assert_eq!(inv.id, 1);
    assert_eq!(inv.merchant, "GMERCHANT");
    assert_eq!(inv.status, InvoiceStatus::Pending);
    assert_eq!(inv.payer, None);
    assert_eq!(inv.amount_usdc, 0);
    assert_eq!(inv.due_date, 0);
}

#[test]
fn parse_invoice_result_reads_every_field_and_defaults() {
    let result = object(vec![(
        "map",
        Json::Array(vec![
            entry("merchant", text("GM")),
            entry("payer", text("GP")),
            entry("token", text("USDC")),
            entry("amount_usdc", num(10_000_000)),
            entry("gross_usdc", num(10_500_000)),
            entry("status", num(1)),
            entry("expires_at", num(3600)),
            entry("paid_at", num(100)),
            entry("created_at", num(50)),
            // A later entry with the same key is not read.
            entry("status", num(2)),
        ]),
    )]);
    let inv = parse_invoice_result(&result, 77).unwrap();
    assert_eq!(inv.id, 77);
    assert_eq!(inv.payer.as_deref(), Some("GP"));
    assert_eq!(inv.token.as_deref(), Some("USDC"));
    assert_eq!((inv.amount_usdc, inv.gross_usdc), (10_000_000, 10_500_000));
    assert_eq!(inv.status, InvoiceStatus::Paid);
    assert_eq!((inv.due_date, inv.paid_at, inv.created_at), (3600, Some(100), Some(50)));
    // Unknown status codes and non-object results fall back to defaults.
    let odd = object(vec![("map", Json::Array(vec![entry("status", num(99))]))]);
    assert_eq!(parse_invoice_result(&odd, 5).unwrap().status, InvoiceStatus::Pending);
    let inv = parse_invoice_result(&Json::Null, 5).unwrap();
    assert_eq!((inv.id, inv.merchant.as_str()), (5, ""));
}

#[test]
fn get_invoice_outcome_passes_errors_on() {
    let c = client();
    let not_found = RpcResponse {
        result: None,
        error: Some(RpcFault { body: object(vec![("code", num(6))]), text: String::new() }),
    };
    assert_eq!(c.get_invoice_outcome(not_found, 99).unwrap_err().message, "NOT_FOUND");
    let ok = RpcResponse { result: Some(object(vec![("map", Json::Array(vec![]))])), error: None };
    assert_eq!(c.get_invoice_outcome(ok, 3).unwrap().id, 3);
    assert!(c.rpc_health_outcome(RpcResponse { result: Some(num(42)), error: None }).is_ok());
}

#[test]
fn rpc_http_failure_only_for_server_errors() {
    let e = rpc_http_failure(503).unwrap();
    assert_eq!(e.message, "RPC node returned HTTP 503 Service Unavailable");
    assert!(is_transient(&e));
    assert!(rpc_http_failure(404).is_none());
    assert!(rpc_http_failure(200).is_none());
}

#[test]
fn every_server_error_answer_is_transient() {
    for code in [500u16, 501, 502, 503, 504, 505, 599] {
        let e = rpc_http_failure(code).unwrap();
        assert!(e.message.starts_with(&format!("RPC node returned HTTP {} ", code)));
        assert_eq!(e.status, Some(code));
        assert!(is_transient(&e), "HTTP {} should be retried", code);
    }
    let e = rpc_http_failure(501).unwrap();
    assert_eq!(e.message, "RPC node returned HTTP 501 Not Implemented");
    assert!(rpc_http_failure(499).is_none());
    assert!(rpc_http_failure(600).is_none());
}

#[test]
fn horizon_server_errors_are_retried_and_client_errors_are_not() {
    let c = client();
    for code in [500u16, 501, 505, 599] {
        assert!(is_transient(&c.horizon_health_outcome(code).unwrap_err()));
    }
    for code in [400u16, 401, 429, 499, 301] {
        assert!(!is_transient(&c.horizon_health_outcome(code).unwrap_err()));
    }
    assert!(c.horizon_health_outcome(204).is_ok());
}

#[test]
fn horizon_health_url_trims_trailing_slashes() {
    let mut c = client();
    assert_eq!(c.horizon_health_url(), "https://horizon.stellar.org/health");
    c.horizon_url = "http://127.0.0.1:8000//".to_string();
    assert_eq!(c.horizon_health_url(), "http://127.0.0.1:8000/health");
}

#[test]
fn horizon_health_outcome_by_status() {
    let c = client();
    assert!(c.horizon_health_outcome(200).is_ok());
    let e = c.horizon_health_outcome(503).unwrap_err();
    assert_eq!(e.message, "Horizon health check failed with HTTP 503 Service Unavailable");
    assert!(is_transient(&e));
    let e = c.horizon_health_outcome(404).unwrap_err();
    assert_eq!(e.message, "Horizon health check failed with status 404 Not Found");
    assert!(!is_transient(&e));
}

fn invoice(payer: Option<&str>, merchant: &str) -> comebackhere::types::InvoiceResponse {
    comebackhere::types::InvoiceResponse {
        id: 1,
        merchant: merchant.to_string(),
        payer: payer.map(|p| p.to_string()),
        token: None,
        amount_usdc: 0,
        gross_usdc: 0,
        status: InvoiceStatus::Pending,
        due_date: 0,
        paid_at: None,
        created_at: None,
    }
}

#[test]
fn payer_and_merchant_checks() {
    let c = client();
    assert!(c.authorize_payer(&invoice(None, "GM"), "GP").is_ok());
    assert!(c.authorize_payer(&invoice(Some(""), "GM"), "GP").is_ok());
    assert!(c.authorize_payer(&invoice(Some("GP"), "GM"), "GP").is_ok());
    assert_eq!(c.authorize_payer(&invoice(Some("GX"), "GM"), "GP").unwrap_err().message, "UNAUTHORIZED");
    assert!(c.authorize_merchant(&invoice(None, "GM"), "GM").is_ok());
    assert_eq!(c.authorize_merchant(&invoice(None, "GM"), "GX").unwrap_err().message, "UNAUTHORIZED");
}

#[test]
fn transaction_outcomes_carry_the_hash() {
    let c = client();
    let sent = || RpcResponse { result: Some(object(vec![("hash", text("abc123"))])), error: None };
    let p = c.pay_outcome(sent()).unwrap();
    assert_eq!((p.status, p.transaction_hash.as_str()), (InvoiceStatus::Paid, "abc123"));
    let p = c.cancel_outcome(sent()).unwrap();
    assert_eq!((p.status, p.transaction_hash.as_str()), (InvoiceStatus::Cancelled, "abc123"));
    let p = c.refund_outcome(sent()).unwrap();
    assert_eq!((p.status, p.transaction_hash.as_str()), (InvoiceStatus::RefundRequested, "abc123"));
    let no_hash = RpcResponse { result: Some(object(vec![])), error: None };
    assert_eq!(c.pay_outcome(no_hash).unwrap().transaction_hash, "");
    let not_paid = RpcResponse {
        result: None,
        error: Some(RpcFault { body: object(vec![("code", num(10))]), text: String::new() }),
    };
    assert_eq!(c.refund_outcome(not_paid).unwrap_err().message, "NOT_PAID");
}

// ── the retry policy against a sequence of attempt outcomes ────────────────

/// Runs the retry policy over the outcomes of successive attempts, as the
/// client's retry loop does, and returns the final outcome and the number of
/// attempts made.
fn run_policy(outcomes: Vec<Result<(), ClientError>>) -> (Result<(), ClientError>, u32) {
    let mut state = RetryState::start();
    let mut attempts = 0u32;
    for outcome in outcomes {
        attempts += 1;
        match outcome {
            Ok(()) => return (Ok(()), attempts),
            Err(err) => {
                let (decision, next) = state.after_failure(is_transient(&err));
                match decision {
                    RetryDecision::GiveUp => return (Err(err), attempts),
                    RetryDecision::Retry(_) => state = next,
                }
            }
        }
    }
    panic!("the policy asked for more attempts than were scripted");
}

fn http_503() -> Result<(), ClientError> {
    Err(rpc_http_failure(503).unwrap())
}

#[test]
fn retries_on_5xx_and_eventually_succeeds() {
    let (result, attempts) = run_policy(vec![http_503(), http_503(), Ok(())]);
    assert!(result.is_ok(), "expected success after retries: {:?}", result);
    // 2 failures + 1 success.
    assert_eq!(attempts, 3);
}

#[test]
fn gives_up_after_max_retries_on_persistent_5xx() {
    let outcomes = (0..MAX_RETRIES + 10).map(|_| http_503()).collect();
    let (result, attempts) = run_policy(outcomes);
    assert!(result.is_err(), "expected failure after exhausting retries");
    assert_eq!(attempts, MAX_RETRIES + 1);
}

#[test]
fn does_not_retry_on_4xx() {
    // A 404 is not a server error; its empty body then fails to decode.
    assert!(rpc_http_failure(404).is_none());
    let decode_failure = ClientError {
        message: "error decoding response body".to_string(),
        transport: Some(TransportFault { timeout: false, connect: false, request: false, status: None }),
        status: None,
    };
    let outcomes = (0..MAX_RETRIES + 10).map(|_| Err(decode_failure.clone())).collect();
    let (result, attempts) = run_policy(outcomes);
    assert!(result.is_err());
    assert_eq!(attempts, 1);
}

#[test]
fn get_invoice_retries_on_5xx_and_succeeds() {
    let (result, attempts) = run_policy(vec![http_503(), Ok(())]);
    assert!(result.is_ok(), "expected get_invoice to succeed after retry: {:?}", result);
    assert_eq!(attempts, 2);
    // The answer of the successful attempt is then read as the invoice.
    let answer = RpcResponse {
        result: Some(object(vec![(
            "map",
            Json::Array(vec![
                entry("id", num(1)),
                entry("merchant", text("GMERCHANT")),
                entry("status", num(0)),
            ]),
        )])),
        error: None,
    };
    let invoice = client().get_invoice_outcome(answer, 1).unwrap();
    assert_eq!((invoice.id, invoice.merchant.as_str()), (1, "GMERCHANT"));
}

#[test]
fn not_found_error_is_not_retried() {
    // The node answers with a JSON-RPC error with code 6: one exchange, read as NOT_FOUND.
    let answer = RpcResponse {
        result: None,
        error: Some(RpcFault {
            body: object(vec![("code", num(6)), ("message", text("not found"))]),
            text: "{\"code\":6,\"message\":\"not found\"}".to_string(),
        }),
    };
    let err = client().get_invoice_outcome(answer, 99).unwrap_err();
    assert!(err.message.contains("NOT_FOUND"), "unexpected error: {}", err.message);
    let (result, attempts) = run_policy(vec![Err(err)]);
    assert!(result.is_err());
    assert_eq!(attempts, 1);
}

#[test]
fn invoice_not_found_code_on_cancel_and_refund() {
    let c = client();
    let code4 = || RpcResponse {
        result: None,
        error: Some(RpcFault { body: object(vec![("code", num(4))]), text: "contract error 4".to_string() }),
    };
    assert_eq!(c.cancel_outcome(code4()).unwrap_err().message, "NOT_FOUND");
    assert_eq!(c.refund_outcome(code4()).unwrap_err().message, "NOT_FOUND");
    // Paying reads code 4 as any other node error.
    assert_eq!(c.pay_outcome(code4()).unwrap_err().message, "RPC error: contract error 4");
    let code1 = RpcResponse {
        result: None,
        error: Some(RpcFault { body: object(vec![("code", num(1))]), text: String::new() }),
    };
    assert_eq!(c.cancel_outcome(code1).unwrap_err().message, "UNAUTHORIZED");
}

#[test]
fn nothing_is_submitted_without_authorization() {
    let c = client();
    let owned = invoice(Some("GP"), "GM");
    let req = c.pay_submission(&owned, "GP", "SIGNED").unwrap();
    assert_eq!((req.id, req.method), (2, "sendTransaction"));
    assert_eq!(req.params.get("transaction").and_then(|t| t.as_str()), Some("SIGNED"));
    assert_eq!(c.pay_submission(&owned, "GX", "SIGNED").unwrap_err().message, "UNAUTHORIZED");
    assert_eq!(c.refund_submission(&owned, "GP", "SIGNED").unwrap().id, 4);
    assert_eq!(c.refund_submission(&owned, "GX", "SIGNED").unwrap_err().message, "UNAUTHORIZED");
    assert_eq!(c.cancel_submission(&owned, "GM", "SIGNED").unwrap().id, 3);
    assert_eq!(c.cancel_submission(&owned, "GP", "SIGNED").unwrap_err().message, "UNAUTHORIZED");
}

#[test]
fn horizon_probes_by_status() {
    let c = client();
    let probes = |status: u16| -> u32 {
        let outcomes = (0..MAX_RETRIES + 10).map(|_| c.horizon_health_outcome(status)).collect();
        run_policy(outcomes).1
    };
    assert_eq!(probes(200), 1);
    assert_eq!(probes(404), 1);
    assert_eq!(probes(301), 1);
    assert_eq!(probes(500), MAX_RETRIES + 1);
    assert_eq!(probes(501), MAX_RETRIES + 1);
    assert_eq!(probes(503), MAX_RETRIES + 1);
}

#[test]
fn contract_errors_are_not_retried_whatever_status_they_carry() {
    let err = ClientError { message: "NOT_FOUND: 503".to_string(), transport: None, status: Some(503) };
    assert!(!is_transient(&err));
    let err = ClientError { message: "UNAUTHORIZED".to_string(), transport: None, status: Some(500) };
    assert!(!is_transient(&err));
    let err = ClientError { message: "anything".to_string(), transport: None, status: Some(500) };
    assert!(is_transient(&err));
}
