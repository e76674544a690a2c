//! Properties of the invoice backend that relate several operations: the
//! idempotency cache's replay guarantee and the retry policy's bounds.
use vstd::prelude::*;

use crate::idempotency::{
    after_remember, after_replay, age, replay_spec, replay_status, store_key, CachedResponse,
};
use crate::soroban::{
    horizon_outcome, retry_start_spec,
    never_retried, retry_after_failure_spec, retry_state_ok, transient_spec, ClientError,
    RetryDecision, RetryState, MAX_RETRIES, MAX_TOTAL_BACKOFF_MS,
};

verus! {

/// An answer remembered under an idempotency key at time `t` is what a repeated
/// request on the same endpoint, for the same invoice and key, finds at any time
/// less than the time to live later; from then on it finds nothing and the
/// entry is dropped. Requests without a key are neither remembered nor replayed.
pub proof fn law_replay_within_ttl(
    entries: Map<Seq<char>, CachedResponse>,
    endpoint: Seq<char>,
    invoice_id: u64,
    key: Seq<char>,
    status: u16,
    body: String,
    t: u128,
    now: u128,
    ttl_nanos: u128,
)
    ensures
        ({
            let e = after_remember(entries, endpoint, invoice_id, Some(key), status, body, t);
            &&& replay_spec(e, endpoint, invoice_id, Some(key), now, ttl_nanos) == if age(t, now)
                < ttl_nanos {
                Some((replay_status(status), body@))
            } else {
                None
            }
            &&& age(t, now) >= ttl_nanos ==> !after_replay(
                e,
                endpoint,
                invoice_id,
                Some(key),
                now,
                ttl_nanos,
            ).dom().contains(store_key(endpoint, invoice_id, key))
        }),
        after_remember(entries, endpoint, invoice_id, None, status, body, t) == entries,
        replay_spec(entries, endpoint, invoice_id, None, now, ttl_nanos) is None,
{
}

/// On the store's clock, which never goes back, an answer remembered at `t0`
/// is replayed by a repeated request at any later reading `t1` less than the
/// time to live after `t0`, and by none at `t0 + ttl` or later.
pub proof fn law_replay_expires_on_store_clock(
    entries: Map<Seq<char>, CachedResponse>,
    endpoint: Seq<char>,
    invoice_id: u64,
    key: Seq<char>,
    status: u16,
    body: String,
    t0: u128,
    t1: u128,
    ttl_nanos: u128,
)
    requires
        t0 <= t1,
    ensures
        replay_spec(
            after_remember(entries, endpoint, invoice_id, Some(key), status, body, t0),
            endpoint,
            invoice_id,
            Some(key),
            t1,
            ttl_nanos,
        ) == if t1 < t0 + ttl_nanos {
            Some((replay_status(status), body@))
        } else {
            None::<(u16, Seq<char>)>
        },
{
}

/// The same idempotency key for the same invoice on two different endpoints
/// gives two different storage keys.
pub proof fn law_keys_scoped_by_endpoint(
    e1: Seq<char>,
    e2: Seq<char>,
    invoice_id: u64,
    key: Seq<char>,
)
    requires
        e1 != e2,
    ensures
        store_key(e1, invoice_id, key) != store_key(e2, invoice_id, key),
{
    let tail = ":"@ + crate::text::decimal(invoice_id as nat) + ":"@ + key;
    assert(store_key(e1, invoice_id, key) =~= e1 + tail);
    assert(store_key(e2, invoice_id, key) =~= e2 + tail);
    if store_key(e1, invoice_id, key) == store_key(e2, invoice_id, key) {
        assert((e1 + tail).len() == (e2 + tail).len());
        assert(e1.len() == e2.len());
        assert(e1 =~= (e1 + tail).subrange(0, e1.len() as int));
        assert(e2 =~= (e2 + tail).subrange(0, e2.len() as int));
    }
}

/// A cached status is answered again unchanged when it is a valid HTTP status.
pub proof fn law_replay_keeps_status(status: u16)
    requires
        100 <= status <= 999,
    ensures
        replay_status(status) == status,
{
}

/// Errors whose message names a contract or logic failure are never retried:
/// the policy gives up on them at once, whatever the HTTP client reported and
/// whatever HTTP status they carry.
pub proof fn law_contract_errors_not_retried(e: ClientError, s: RetryState)
    requires
        never_retried(e.message@),
    ensures
        !transient_spec(e),
        retry_after_failure_spec(s, transient_spec(e)).0 == RetryDecision::GiveUp,
{
}

/// Client-error (4xx) answers are not retried, whether the client raised the
/// error for the answer or the HTTP client reported it without a timeout,
/// connection or request failure.
pub proof fn law_client_errors_not_retried(e: ClientError)
    requires
        ({
            ||| e.status matches Some(code) && 400 <= code < 500
            ||| e.status is None && (e.transport matches Some(t) && !t.timeout && !t.connect
                && !t.request && (t.status matches Some(code) && 400 <= code < 500))
        }),
    ensures
        !transient_spec(e),
{
}

/// Every error for a server-error (5xx) answer whose message names no contract
/// or logic failure, as every such error of the RPC node or of Horizon is, is
/// transient, and is retried by the policy while attempts and the sleep budget
/// remain.
pub proof fn law_server_errors_retried(e: ClientError, s: RetryState)
    requires
        e.status matches Some(code) && 500 <= code < 600,
        !never_retried(e.message@),
        retry_state_ok(s),
    ensures
        transient_spec(e),
        s.attempt < MAX_RETRIES && s.total_waited_ms + s.delay_ms <= MAX_TOTAL_BACKOFF_MS
            ==> retry_after_failure_spec(s, transient_spec(e)).0 == RetryDecision::Retry(
            s.delay_ms,
        ),
{
}

/// Every retry sleeps the current delay and stays within the total budget, the
/// attempt counter grows by one per retry and never passes `MAX_RETRIES`, so an
/// operation runs at most `MAX_RETRIES + 1` times and sleeps at most
/// `MAX_TOTAL_BACKOFF_MS` in all; giving up leaves the state as it was.
pub proof fn law_retry_bounded(s: RetryState, transient: bool)
    requires
        retry_state_ok(s),
    ensures
        ({
            let (d, next) = retry_after_failure_spec(s, transient);
            &&& retry_state_ok(next)
            &&& match d {
                RetryDecision::Retry(ms) => {
                    &&& transient
                    &&& s.attempt < MAX_RETRIES
                    &&& next.attempt == s.attempt + 1
                    &&& ms == s.delay_ms
                    &&& next.total_waited_ms == s.total_waited_ms + ms
                    &&& next.total_waited_ms <= MAX_TOTAL_BACKOFF_MS
                },
                RetryDecision::GiveUp => next == s,
            }
        }),
{
}


// ---------------------------------------------------------------------------
// Whole runs of the retry loop
// ---------------------------------------------------------------------------

/// The number of attempts that the retry loop makes from state `s` when
/// attempt `i + k` ends with `outcome(i + k)`: `None` for success, `Some(t)`
/// for a failure whose error is transient exactly when `t`. The loop stops at
/// the first success or when the policy gives up.
pub open spec fn attempts_made(s: RetryState, outcome: spec_fn(nat) -> Option<bool>, i: nat) -> nat
    decreases MAX_RETRIES - s.attempt,
{
    match outcome(i) {
        None => 1,
        Some(t) => {
            let (d, next) = retry_after_failure_spec(s, t);
            match d {
                RetryDecision::Retry(_) => 1 + attempts_made(next, outcome, i + 1),
                RetryDecision::GiveUp => 1,
            }
        },
    }
}

/// A run of the retry loop makes at least one and at most `MAX_RETRIES + 1`
/// attempts in all; every attempt but the last failed with a transient error,
/// so the loop never calls again after a success or a permanent error.
pub proof fn law_retry_run(s: RetryState, outcome: spec_fn(nat) -> Option<bool>, i: nat)
    requires
        retry_state_ok(s),
    ensures
        1 <= attempts_made(s, outcome, i) <= MAX_RETRIES + 1 - s.attempt,
        forall|k: nat|
            k + 1 < attempts_made(s, outcome, i) ==> #[trigger] outcome(i + k) == Some(true),
    decreases MAX_RETRIES - s.attempt,
{
    match outcome(i) {
        None => {},
        Some(t) => {
            let (d, next) = retry_after_failure_spec(s, t);
            match d {
                RetryDecision::Retry(_) => {
                    law_retry_run(next, outcome, i + 1);
                    let n = attempts_made(s, outcome, i);
                    assert forall|k: nat| k + 1 < n implies #[trigger] outcome(i + k) == Some(
                        true,
                    ) by {
                        if k > 0 {
                            let k1 = (k - 1) as nat;
                            assert(outcome((i + 1) + k1) == Some(true));
                            assert((i + 1) + k1 == i + k);
                        }
                    }
                },
                RetryDecision::GiveUp => {},
            }
        },
    }
}

/// From the first attempt, `m` transient failures followed by a success, with
/// `m <= MAX_RETRIES`, take exactly `m + 1` attempts; transient failures on
/// every attempt take exactly `MAX_RETRIES + 1` attempts. The sleeps of 200,
/// 400 and 800 ms fit in the budget, so no retry is cut short.
pub proof fn law_retry_until_success(outcome: spec_fn(nat) -> Option<bool>, m: nat)
    requires
        m <= MAX_RETRIES,
        forall|k: nat| k < m ==> #[trigger] outcome(k) == Some(true),
    ensures
        outcome(m) is None ==> attempts_made(retry_start_spec(), outcome, 0) == m + 1,
        (m == MAX_RETRIES && outcome(m) == Some(true)) ==> attempts_made(
            retry_start_spec(),
            outcome,
            0,
        ) == MAX_RETRIES + 1,
{
    reveal_with_fuel(attempts_made, 5);
    let s0 = retry_start_spec();
    let s1 = retry_after_failure_spec(s0, true).1;
    let s2 = retry_after_failure_spec(s1, true).1;
    let s3 = retry_after_failure_spec(s2, true).1;
    assert(s1 == RetryState { attempt: 1, delay_ms: 400, total_waited_ms: 200 });
    assert(s2 == RetryState { attempt: 2, delay_ms: 800, total_waited_ms: 600 });
    assert(s3 == RetryState { attempt: 3, delay_ms: 1600, total_waited_ms: 1400 });
    if m >= 1 {
        assert(outcome(0) == Some(true));
    }
    if m >= 2 {
        assert(outcome(1) == Some(true));
    }
    if m >= 3 {
        assert(outcome(2) == Some(true));
    }
    assert(attempts_made(s3, outcome, 3) == 1);
}

/// The outcome of one probe of Horizon that answers with `status`: success
/// for a healthy answer, else a failure that is transient exactly for 5xx.
pub open spec fn horizon_attempt(status: u16) -> Option<bool> {
    match horizon_outcome(status) {
        Ok(_) => None,
        Err(_) => Some(500 <= status < 600),
    }
}

/// A Horizon health endpoint that always answers with `status` is probed once
/// when it answers 2xx (success) or anything but 5xx (a permanent failure), and
/// `MAX_RETRIES + 1` times when it answers 5xx.
pub proof fn law_horizon_attempts(status: u16)
    ensures
        attempts_made(retry_start_spec(), |k: nat| horizon_attempt(status), 0) == if 500 <= status
            < 600 {
            MAX_RETRIES + 1
        } else {
            1
        },
{
    let f = |k: nat| horizon_attempt(status);
    if 500 <= status < 600 {
        assert forall|k: nat| k < MAX_RETRIES implies #[trigger] f(k) == Some(true) by {}
        law_retry_until_success(f, MAX_RETRIES as nat);
    } else {
        reveal_with_fuel(attempts_made, 2);
    }
}

} // verus!
