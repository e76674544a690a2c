use comebackhere::compliance::{
    Address, AddressStatus, ComplianceContract, ComplianceEvent, ContractError, DataKey,
    StorageWrite, StoredValue,
};

const ADMIN: &str = "GADMINAAAAAAAAAAAAAAAAAAAAAAAAAAAAAAAAAAAAAAAAAAAAAAAAAA";
const ADDR: &str = "GADDRESSAAAAAAAAAAAAAAAAAAAAAAAAAAAAAAAAAAAAAAAAAAAAAAAA";

/// A contract initialized with an admin, one address to act on, and the ledger time.
fn setup(ts: u64) -> (ComplianceContract, u64, Address, Address) {
    let mut c = ComplianceContract::new();
    let admin = Address::new(ADMIN);
    let addr = Address::new(ADDR);
    c.initialize(&admin);
    (c, ts, admin, addr)
}

fn addr(id: &str) -> Address {
    Address::new(id)
}

// ── expiry ─────────────────────────────────────────────────────────────────

#[test]
fn test_is_allowed_not_expired() {
    let (mut c, now, admin, addr) = setup(1000);
    c.allow_address_until(&admin, &addr, 2000u64).unwrap();
    assert!(c.is_allowed(&addr, now));
}

#[test]
fn test_is_allowed_exactly_at_expiry_returns_false() {
    let (mut c, now, admin, addr) = setup(1000);
    c.allow_address_until(&admin, &addr, 1000u64).unwrap();
    assert!(!c.is_allowed(&addr, now));
}

#[test]
fn test_is_allowed_past_expiry_returns_false() {
    let (mut c, now, admin, addr) = setup(1001);
    c.allow_address_until(&admin, &addr, 1000u64).unwrap();
    assert!(!c.is_allowed(&addr, now));
}

#[test]
fn test_permanent_allow_unaffected_by_time() {
    let (mut c, now, admin, addr) = setup(9999);
    c.allow_address(&admin, &addr).unwrap();
    assert!(c.is_allowed(&addr, now));
}

// ── sweep_expired ──────────────────────────────────────────────────────────

#[test]
fn test_sweep_expired_removes_expired_entry_and_returns_count() {
    let (mut c, now, admin, addr) = setup(1001);
    // A time-boxed allowance that has already expired (until=1000, now=1001).
    c.allow_address_until(&admin, &addr, 1000u64).unwrap();
    assert!(!c.is_allowed(&addr, now));

    let swept = c.sweep_expired(&admin, &vec![addr.clone()], now);
    assert_eq!(swept, 1);

    assert!(matches!(c.get_address_status(&addr), AddressStatus::Cleared));
}

#[test]
fn test_sweep_expired_skips_non_expired_entry() {
    let (mut c, now, admin, addr) = setup(500);
    // Allowance expires at 2000, now=500: not yet expired.
    c.allow_address_until(&admin, &addr, 2000u64).unwrap();
    assert!(c.is_allowed(&addr, now));

    let swept = c.sweep_expired(&admin, &vec![addr.clone()], now);
    assert_eq!(swept, 0);

    assert!(c.is_allowed(&addr, now));
}

#[test]
fn test_sweep_expired_at_exact_boundary_removes_entry() {
    let (mut c, now, admin, addr) = setup(1000);
    c.allow_address_until(&admin, &addr, 1000u64).unwrap();
    assert!(!c.is_allowed(&addr, now));

    let swept = c.sweep_expired(&admin, &vec![addr.clone()], now);
    assert_eq!(swept, 1);
    assert!(matches!(c.get_address_status(&addr), AddressStatus::Cleared));
}

#[test]
fn test_sweep_expired_skips_permanently_allowed_address() {
    let (mut c, now, admin, addr) = setup(9999);
    c.allow_address(&admin, &addr).unwrap();

    let swept = c.sweep_expired(&admin, &vec![addr.clone()], now);
    assert_eq!(swept, 0);
    assert!(c.is_allowed(&addr, now));
}

#[test]
fn test_sweep_expired_skips_blocked_address() {
    let (mut c, now, admin, addr) = setup(9999);
    c.block_address(&admin, &addr).unwrap();

    let swept = c.sweep_expired(&admin, &vec![addr.clone()], now);
    assert_eq!(swept, 0);
    assert!(matches!(c.get_address_status(&addr), AddressStatus::Blocked));
}

#[test]
fn test_sweep_expired_skips_cleared_address() {
    let (mut c, now, admin, addr) = setup(9999);
    // addr has no status (Cleared by default).
    let swept = c.sweep_expired(&admin, &vec![addr.clone()], now);
    assert_eq!(swept, 0);
}

#[test]
fn test_sweep_expired_batch_mixed_addresses() {
    let (mut c, now, admin, _) = setup(1500);

    let expired1 = addr("GEXPIRED1AAAAAAAAAAAAAAAAAAAAAAAAAAAAAAAAAAAAAAAAAAAAAAA");
    let expired2 = addr("GEXPIRED2AAAAAAAAAAAAAAAAAAAAAAAAAAAAAAAAAAAAAAAAAAAAAAA");
    let live = addr("GLIVEAAAAAAAAAAAAAAAAAAAAAAAAAAAAAAAAAAAAAAAAAAAAAAAAAAA");
    let permanent = addr("GPERMANENTAAAAAAAAAAAAAAAAAAAAAAAAAAAAAAAAAAAAAAAAAAAAAA");

    // expired: until=1000 < now=1500
    c.allow_address_until(&admin, &expired1, 1000u64).unwrap();
    c.allow_address_until(&admin, &expired2, 500u64).unwrap();
    // live: until=9000 > now=1500
    c.allow_address_until(&admin, &live, 9000u64).unwrap();
    // permanent allow
    c.allow_address(&admin, &permanent).unwrap();

    let batch = vec![expired1.clone(), expired2.clone(), live.clone(), permanent.clone()];
    let swept = c.sweep_expired(&admin, &batch, now);
    assert_eq!(swept, 2);

    assert!(matches!(c.get_address_status(&expired1), AddressStatus::Cleared));
    assert!(matches!(c.get_address_status(&expired2), AddressStatus::Cleared));
    assert!(c.is_allowed(&live, now));
    assert!(c.is_allowed(&permanent, now));
}

#[test]
fn test_sweep_expired_empty_batch_returns_zero() {
    let (mut c, now, admin, _) = setup(1000);
    let swept = c.sweep_expired(&admin, &vec![], now);
    assert_eq!(swept, 0);
}

// ── further scenarios ──────────────────────────────────────────────────────

#[test]
fn sweep_counts_a_repeated_address_once() {
    let (mut c, now, admin, a) = setup(1500);
    c.allow_address_until(&admin, &a, 1000).unwrap();
    let swept = c.sweep_expired(&admin, &vec![a.clone(), a.clone()], now);
    assert_eq!(swept, 1);
    // A second sweep finds nothing left to remove.
    assert_eq!(c.sweep_expired(&admin, &vec![a.clone()], now), 0);
}

#[test]
fn sweep_publishes_one_event_per_removed_entry() {
    let (mut c, now, admin, a) = setup(1500);
    c.allow_address_until(&admin, &a, 1000).unwrap();
    c.take_events();
    c.sweep_expired(&admin, &vec![a.clone()], now);
    let events = c.take_events();
    assert_eq!(events.len(), 1);
    assert_eq!(events[0].topic(), "address_swept");
    assert!(matches!(&events[0], ComplianceEvent::AddressSwept(x) if x.as_str() == ADDR));
}

#[test]
fn uninitialized_contract_is_not_paused_and_knows_no_address() {
    let c = ComplianceContract::new();
    assert!(!c.is_paused());
    assert_eq!(c.check_not_paused(), Ok(()));
    assert_eq!(c.get_address_status(&addr(ADDR)), AddressStatus::Cleared);
    assert!(!c.is_allowed(&addr(ADDR), 0));
}

#[test]
fn blocked_address_is_refused_and_can_be_allowed_again() {
    let (mut c, now, admin, a) = setup(10);
    c.block_address(&admin, &a).unwrap();
    assert!(!c.is_allowed(&a, now));
    c.allow_address(&admin, &a).unwrap();
    assert!(c.is_allowed(&a, now));
}

#[test]
fn clear_address_resets_and_refuses_an_unknown_address() {
    let (mut c, now, admin, a) = setup(10);
    assert_eq!(c.clear_address(&admin, &a), Err(ContractError::AddressNotFound));
    c.allow_address(&admin, &a).unwrap();
    assert_eq!(c.clear_address(&admin, &a), Ok(()));
    assert_eq!(c.get_address_status(&a), AddressStatus::Cleared);
    assert!(!c.is_allowed(&a, now));
    assert_eq!(c.clear_address(&admin, &a), Err(ContractError::AddressNotFound));
}

#[test]
fn paused_contract_refuses_admin_operations() {
    let (mut c, _now, admin, a) = setup(10);
    c.pause(&admin);
    assert!(c.is_paused());
    assert_eq!(c.check_not_paused(), Err(ContractError::ContractPaused));
    assert_eq!(c.allow_address(&admin, &a), Err(ContractError::ContractPaused));
    assert_eq!(c.block_address(&admin, &a), Err(ContractError::ContractPaused));
    assert_eq!(c.allow_address_until(&admin, &a, 50), Err(ContractError::ContractPaused));
    assert_eq!(c.clear_address(&admin, &a), Err(ContractError::ContractPaused));
    assert_eq!(
        c.transfer_admin(&admin, &addr("GNEWADMIN")),
        Err(ContractError::ContractPaused)
    );
    assert_eq!(c.get_address_status(&a), AddressStatus::Cleared);
    c.unpause(&admin);
    assert!(!c.is_paused());
    assert_eq!(c.allow_address(&admin, &a), Ok(()));
}

#[test]
fn non_admin_is_refused() {
    let (mut c, _now, _admin, a) = setup(10);
    let intruder = addr("GINTRUDER");
    assert_eq!(c.allow_address(&intruder, &a), Err(ContractError::Unauthorized));
    assert_eq!(c.block_address(&intruder, &a), Err(ContractError::Unauthorized));
    assert_eq!(c.allow_address_until(&intruder, &a, 99), Err(ContractError::Unauthorized));
    assert_eq!(c.transfer_admin(&intruder, &intruder), Err(ContractError::Unauthorized));
    assert_eq!(c.get_address_status(&a), AddressStatus::Cleared);
}

#[test]
fn admin_handover_takes_two_steps() {
    let (mut c, _now, admin, a) = setup(10);
    let new_admin = addr("GNEWADMIN");
    let other = addr("GOTHER");
    assert_eq!(c.accept_admin(&new_admin), Err(ContractError::Unauthorized));
    c.transfer_admin(&admin, &new_admin).unwrap();
    // Until the nominee accepts, the old admin stays in control.
    assert_eq!(c.allow_address(&admin, &a), Ok(()));
    assert_eq!(c.accept_admin(&other), Err(ContractError::Unauthorized));
    assert_eq!(c.accept_admin(&new_admin), Ok(()));
    assert_eq!(c.block_address(&admin, &a), Err(ContractError::Unauthorized));
    assert_eq!(c.block_address(&new_admin, &a), Ok(()));
    // The nomination is used up.
    assert_eq!(c.accept_admin(&new_admin), Err(ContractError::Unauthorized));
}

#[test]
fn error_codes_match_the_contract() {
    assert_eq!(ContractError::Unauthorized.code(), 1);
    assert_eq!(ContractError::ContractPaused.code(), 2);
    assert_eq!(ContractError::AlreadyInitialized.code(), 3);
    assert_eq!(ContractError::AddressNotFound.code(), 4);
}

#[test]
fn operations_journal_their_storage_writes_and_events() {
    let mut c = ComplianceContract::new();
    let admin = addr(ADMIN);
    let a = addr(ADDR);
    c.initialize(&admin);
    c.allow_address_until(&admin, &a, 77).unwrap();
    c.clear_address(&admin, &a).unwrap();
    let writes = c.take_writes();
    assert_eq!(writes.len(), 4);
    assert!(matches!(&writes[0], StorageWrite::Put(DataKey::Admin, StoredValue::Account(x)) if x.as_str() == ADMIN));
    assert!(matches!(&writes[1], StorageWrite::Put(DataKey::Paused, StoredValue::Flag(false))));
    assert!(matches!(&writes[2], StorageWrite::Put(DataKey::Status(x), StoredValue::Status(AddressStatus::AllowedUntil(77))) if x.as_str() == ADDR));
    assert!(matches!(&writes[3], StorageWrite::Delete(DataKey::Status(x)) if x.as_str() == ADDR));
    assert_eq!(c.take_writes().len(), 0);
    let events = c.take_events();
    let topics: Vec<&str> = events.iter().map(|e| e.topic()).collect();
    assert_eq!(topics, vec!["address_allowed_until", "address_cleared"]);
}

#[test]
fn restored_storage_answers_like_the_contract_it_came_from() {
    let mut c = ComplianceContract::new();
    let a = addr(ADDR);
    c.restore_settings(Some(addr(ADMIN)), Some(false), None);
    c.restore_status(&a, AddressStatus::AllowedUntil(500));
    assert!(c.is_allowed(&a, 499));
    assert!(!c.is_allowed(&a, 500));
    assert_eq!(c.take_writes().len(), 0);
}

#[test]
fn accept_admin_publishes_its_event() {
    let (mut c, _now, admin, _a) = setup(10);
    let n = addr("GNEWADMIN");
    c.transfer_admin(&admin, &n).unwrap();
    c.take_events();
    c.accept_admin(&n).unwrap();
    let events = c.take_events();
    assert_eq!(events.len(), 1);
    assert_eq!(events[0].topic(), "accept_admin");
}

#[test]
fn granting_one_address_leaves_others_untouched() {
    let (mut c, now, admin, a) = setup(100);
    let b = addr("GOTHERADDRESS");
    c.allow_address_until(&admin, &b, 500).unwrap();
    c.allow_address(&admin, &a).unwrap();
    c.block_address(&admin, &a).unwrap();
    c.clear_address(&admin, &a).unwrap();
    assert_eq!(c.get_address_status(&b), AddressStatus::AllowedUntil(500));
    assert!(c.is_allowed(&b, now));
}

#[test]
fn sweep_never_changes_who_is_allowed_now() {
    let (mut c, now, admin, a) = setup(1500);
    let live = addr("GLIVE");
    let blocked = addr("GBLOCKED");
    c.allow_address_until(&admin, &a, 1500).unwrap();
    c.allow_address_until(&admin, &live, 1501).unwrap();
    c.block_address(&admin, &blocked).unwrap();
    let batch = vec![a.clone(), live.clone(), blocked.clone()];
    let before: Vec<bool> = batch.iter().map(|x| c.is_allowed(x, now)).collect();
    assert_eq!(c.sweep_expired(&admin, &batch, now), 1);
    let after: Vec<bool> = batch.iter().map(|x| c.is_allowed(x, now)).collect();
    assert_eq!(before, after);
}

#[test]
fn status_is_the_one_last_written() {
    let (mut c, now, admin, a) = setup(500);
    let other = addr("GOTHER");
    assert_eq!(c.get_address_status(&a), AddressStatus::Cleared);
    c.allow_address(&admin, &a).unwrap();
    c.block_address(&admin, &a).unwrap();
    c.allow_address_until(&admin, &other, 100u64).unwrap();
    assert_eq!(c.get_address_status(&a), AddressStatus::Blocked);
    c.allow_address_until(&admin, &a, 900u64).unwrap();
    c.pause(&admin);
    assert_eq!(c.block_address(&admin, &a), Err(ContractError::ContractPaused));
    c.unpause(&admin);
    assert_eq!(c.get_address_status(&a), AddressStatus::AllowedUntil(900));
    c.sweep_expired(&admin, &vec![a.duplicate(), other.duplicate()], now);
    assert_eq!(c.get_address_status(&a), AddressStatus::AllowedUntil(900));
    assert_eq!(c.get_address_status(&other), AddressStatus::Cleared);
    c.clear_address(&admin, &a).unwrap();
    assert_eq!(c.get_address_status(&a), AddressStatus::Cleared);
}
