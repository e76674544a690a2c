use comebackhere::idempotency::IdempotencyStore;
use comebackhere::routes::cancel::cancel_error_response;
use comebackhere::routes::health::rpc_health_report;
use comebackhere::routes::invoices::invoice_error_response;
use comebackhere::routes::pay::pay_error_response;
use comebackhere::soroban::ClientError;
use comebackhere::text::{decimal_string, str_contains};
use comebackhere::types::HealthStatus;

const SECOND: u128 = 1_000_000_000;

#[test]
fn make_key_scopes_by_endpoint_and_invoice() {
    assert_eq!(IdempotencyStore::make_key("cancel", 1, "cancel-key-abc"), "cancel:1:cancel-key-abc");
    assert_ne!(
        IdempotencyStore::make_key("cancel", 1, "k"),
        IdempotencyStore::make_key("pay", 1, "k")
    );
}

#[test]
fn test_same_idempotency_key_returns_cached_response() {
    let mut store = IdempotencyStore::new(std::time::Duration::from_secs(86_400).as_nanos());
    assert_eq!(store.replay_at("cancel", 1, Some("cancel-key-abc"), 0), None);
    store.remember_at("cancel", 1, Some("cancel-key-abc"), 500, "{\"error\":\"x\"}".to_string(), 10);
    let hit = store.replay_at("cancel", 1, Some("cancel-key-abc"), 10 + 5 * SECOND);
    assert_eq!(hit, Some((500, "{\"error\":\"x\"}".to_string())));
    // Another invoice or endpoint does not see it.
    assert_eq!(store.replay_at("cancel", 2, Some("cancel-key-abc"), 20), None);
    assert_eq!(store.replay_at("pay", 1, Some("cancel-key-abc"), 20), None);
}

#[test]
fn cached_answers_expire_after_the_ttl() {
    let mut store = IdempotencyStore::new(std::time::Duration::from_secs(2).as_nanos());
    store.remember_at("cancel", 1, Some("k"), 200, "{}".to_string(), 0);
    assert!(store.replay_at("cancel", 1, Some("k"), 2 * SECOND - 1).is_some());
    assert_eq!(store.replay_at("cancel", 1, Some("k"), 2 * SECOND), None);
    // The stale entry was dropped: even an earlier clock reading finds nothing now.
    assert_eq!(store.replay_at("cancel", 1, Some("k"), 0), None);
}

#[test]
fn requests_without_a_key_are_not_cached() {
    let mut store = IdempotencyStore::new(std::time::Duration::from_secs(60).as_nanos());
    store.remember_at("cancel", 1, None, 200, "{}".to_string(), 0);
    assert_eq!(store.replay_at("cancel", 1, None, 0), None);
}

#[test]
fn get_and_insert_use_the_store_clock() {
    let mut store = IdempotencyStore::new(std::time::Duration::from_secs(60).as_nanos());
    store.insert("k".to_string(), 201, "{}".to_string());
    let c = store.get("k").unwrap();
    assert_eq!((c.status, c.body.as_str()), (201, "{}"));
    assert!(store.get("missing").is_none());
    store.remember("pay", 9, Some("x"), 200, "{}".to_string());
    assert_eq!(store.replay("pay", 9, Some("x")), Some((200, "{}".to_string())));
}

#[test]
fn invalid_cached_status_is_answered_as_ok() {
    let mut store = IdempotencyStore::new(std::time::Duration::from_secs(60).as_nanos());
    store.remember_at("cancel", 1, Some("k"), 42, "{}".to_string(), 0);
    assert_eq!(store.replay_at("cancel", 1, Some("k"), 1), Some((200, "{}".to_string())));
}

#[test]
fn cancel_errors_map_to_http_answers() {
    let (s, body) = cancel_error_response(&ClientError::msg("UNAUTHORIZED"), 1);
    assert_eq!((s, body.code), (403, Some(1)));
    assert_eq!(body.error, "Only the invoice merchant is authorised to cancel this invoice");
    let (s, body) = cancel_error_response(&ClientError::msg("NOT_FOUND"), 12);
    assert_eq!((s, body.error.as_str(), body.code), (404, "Invoice 12 not found", Some(4)));
    let (s, body) = cancel_error_response(&ClientError::msg("connection refused"), 1);
    assert_eq!((s, body.error.as_str(), body.code), (500, "connection refused", None));
}

#[test]
fn pay_errors_map_to_http_answers() {
    let (s, body) = pay_error_response(&ClientError::msg("UNAUTHORIZED"), 1);
    assert_eq!((s, body.code), (403, Some(1)));
    assert_eq!(body.error, "Payer does not match the expected address for this invoice");
    let (s, body) = pay_error_response(&ClientError::msg("NOT_FOUND"), 3);
    assert_eq!((s, body.error.as_str(), body.code), (404, "Invoice 3 not found", Some(6)));
    let (s, _) = pay_error_response(&ClientError::msg("RPC error: {}"), 3);
    assert_eq!(s, 500);
}

#[test]
fn invoice_lookup_errors_map_to_http_answers() {
    let (s, body) = invoice_error_response(&ClientError::msg("NOT_FOUND"), 99);
    assert_eq!((s, body.error.as_str(), body.code), (404, "Invoice 99 not found", Some(6)));
    let (s, body) = invoice_error_response(&ClientError::msg("Empty RPC result"), 99);
    assert_eq!((s, body.error.as_str(), body.code), (500, "Empty RPC result", None));
}

#[test]
fn returns_200_when_all_dependencies_are_healthy() {
    let (code, report) = rpc_health_report(Ok(()), Ok(()));
    assert_eq!((code, report.status), (200, HealthStatus::Healthy));
    assert_eq!(report.dependencies[0].0, "horizon");
    assert_eq!(report.dependencies[1].0, "soroban_rpc");
    assert_eq!(
        report.dependencies[0].1.detail.as_deref(),
        Some("Horizon health endpoint responded")
    );
    assert_eq!(
        report.dependencies[1].1.detail.as_deref(),
        Some("Soroban RPC responded to getLatestLedger")
    );
}

#[test]
fn returns_503_when_any_dependency_is_degraded() {
    let down = ClientError::msg("RPC node returned HTTP 500 Internal Server Error");
    let (code, report) = rpc_health_report(Err(down), Err(ClientError::msg("Horizon health check failed with HTTP 503 Service Unavailable")));
    assert_eq!((code, report.status), (503, HealthStatus::Degraded));
    let (code, report) = rpc_health_report(Ok(()), Err(ClientError::msg("down")));
    assert_eq!((code, report.status), (503, HealthStatus::Degraded));
    assert_eq!(report.dependencies[0].1.status, HealthStatus::Degraded);
    assert_eq!(report.dependencies[0].1.detail.as_deref(), Some("down"));
    assert_eq!(report.dependencies[1].1.status, HealthStatus::Healthy);
    let (code, _) = rpc_health_report(Err(ClientError::msg("x")), Ok(()));
    assert_eq!(code, 503);
}

#[test]
fn text_helpers() {
    assert_eq!(decimal_string(0), "0");
    assert_eq!(decimal_string(86_400), "86400");
    assert_eq!(decimal_string(u64::MAX), "18446744073709551615");
    assert!(str_contains("connection refused", "connection"));
    assert!(str_contains("abc", ""));
    assert!(!str_contains("ab", "abc"));
}

#[test]
fn a_sub_second_time_to_live_is_honoured() {
    let mut store = IdempotencyStore::new(std::time::Duration::from_millis(1500).as_nanos());
    store.remember_at("pay", 3, Some("k"), 200, "{}".to_string(), 0);
    assert!(store.replay_at("pay", 3, Some("k"), 1_499_999_999).is_some());
    assert_eq!(store.replay_at("pay", 3, Some("k"), 1_500_000_000), None);
}
