//! The idempotency cache: answers recorded against an idempotency key, handed
//! back for repeated requests until their time to live has passed.
use dashmap::DashMap;
use std::time::Instant;
use vstd::prelude::*;
use vstd::string::*;

use crate::text::{decimal, push_decimal};

verus! {

#[verifier::external_type_specification]
#[verifier::external_body]
#[verifier::reject_recursive_types(K)]
#[verifier::reject_recursive_types(V)]
#[verifier::reject_recursive_types(S)]
pub struct ExDashMap<K, V, S>(DashMap<K, V, S>);

#[verifier::external_type_specification]
#[verifier::external_body]
pub struct ExInstant(Instant);

/// A cached answer: its HTTP status, its JSON body as text, and when it was
/// recorded, in nanoseconds on the store's clock.
#[derive(Clone, Debug)]
pub struct CachedResponse {
    pub status: u16,
    pub body: String,
    pub recorded_at: u128,
}

/// The entries of a cache map, by key text.
pub uninterp spec fn cache_entries(m: DashMap<String, CachedResponse>) -> Map<Seq<char>, CachedResponse>;

/// `DashMap::new`: the contract claims the new map has no entries.
#[verifier::external_body]
fn cache_new() -> (m: DashMap<String, CachedResponse>)
    ensures
        cache_entries(m).is_empty(),
{
    DashMap::new()
}

/// `DashMap::get`, with the entry's value cloned out: the contract claims the
/// result is the value stored under `key`, if any.
#[verifier::external_body]
fn cache_get(m: &DashMap<String, CachedResponse>, key: &str) -> (r: Option<CachedResponse>)
    ensures
        r == (if cache_entries(*m).dom().contains(key@) {
            Some(cache_entries(*m)[key@])
        } else {
            None
        }),
{
    m.get(key).map(|entry| entry.value().clone())
}

/// `DashMap::insert`: the contract claims the map then holds `value` under
/// `key` and is otherwise unchanged.
#[verifier::external_body]
fn cache_insert(m: &mut DashMap<String, CachedResponse>, key: String, value: CachedResponse)
    ensures
        cache_entries(*final(m)) == cache_entries(*old(m)).insert(key@, value),
{
    m.insert(key, value);
}

/// `DashMap::remove`: the contract claims the map then holds nothing under
/// `key` and is otherwise unchanged.
#[verifier::external_body]
fn cache_remove(m: &mut DashMap<String, CachedResponse>, key: &str)
    ensures
        cache_entries(*final(m)) == cache_entries(*old(m)).remove(key@),
{
    m.remove(key);
}

/// `Instant::now`: a point on the monotonic clock; nothing is claimed of it.
#[verifier::external_body]
fn instant_now() -> (i: Instant) {
    Instant::now()
}

/// `Instant::elapsed` in nanoseconds: depends on the time of the call, so
/// nothing is claimed of it.
#[verifier::external_body]
fn nanos_since(origin: &Instant) -> (n: u128) {
    origin.elapsed().as_nanos()
}

/// How long ago a response recorded at `recorded_at` is at time `now`
/// (zero when `now` is not later).
pub open spec fn age(recorded_at: u128, now: u128) -> int {
    if now >= recorded_at {
        now - recorded_at
    } else {
        0
    }
}

/// Whether a response recorded at `recorded_at` is still served at `now` under
/// a time to live of `ttl_nanos` nanoseconds.
pub open spec fn is_fresh(recorded_at: u128, now: u128, ttl_nanos: u128) -> bool {
    age(recorded_at, now) < ttl_nanos
}

/// The storage key for `idempotency_key` on `endpoint` for invoice `invoice_id`.
pub open spec fn store_key(endpoint: Seq<char>, invoice_id: u64, idempotency_key: Seq<char>) -> Seq<
    char,
> {
    endpoint + ":"@ + decimal(invoice_id as nat) + ":"@ + idempotency_key
}

/// The in-memory idempotency store, with a time to live for its entries.
pub struct IdempotencyStore {
    inner: DashMap<String, CachedResponse>,
    ttl_nanos: u128,
    origin: Instant,
    clock: u128,
}

impl IdempotencyStore {
    /// The stored entries, by key text.
    pub closed spec fn entries(&self) -> Map<Seq<char>, CachedResponse> {
        cache_entries(self.inner)
    }

    /// The time to live of the entries, in nanoseconds.
    pub closed spec fn ttl(&self) -> u128 {
        self.ttl_nanos
    }

    /// The latest reading of the store's clock, in nanoseconds since the store
    /// was made: the time at which the last clock-stamped lookup or record was
    /// judged. It never goes back.
    pub closed spec fn clock(&self) -> u128 {
        self.clock
    }

    /// An empty store whose entries live `ttl_nanos` nanoseconds (a
    /// `Duration` taken by `as_nanos`).
    pub fn new(ttl_nanos: u128) -> (s: IdempotencyStore)
        ensures
            s.entries() == Map::<Seq<char>, CachedResponse>::empty(),
            s.ttl() == ttl_nanos,
            s.clock() == 0,
    {
        IdempotencyStore { inner: cache_new(), ttl_nanos, origin: instant_now(), clock: 0 }
    }

    /// The key `"{endpoint}:{invoice_id}:{idempotency_key}"`, so that one
    /// idempotency key used on two endpoints never collides.
    pub fn make_key(endpoint: &str, invoice_id: u64, idempotency_key: &str) -> (k: String)
        ensures
            k@ == store_key(endpoint@, invoice_id, idempotency_key@),
    {
        let mut k = endpoint.to_owned();
        k.append(":");
        push_decimal(&mut k, invoice_id);
        k.append(":");
        k.append(idempotency_key);
        k
    }

    /// Reads the store's clock: the time since the store was made, in
    /// nanoseconds, and never earlier than a reading handed out before.
    fn now(&mut self) -> (t: u128)
        ensures
            t >= old(self).clock(),
            final(self).clock() == t,
            final(self).entries() == old(self).entries(),
            final(self).ttl() == old(self).ttl(),
    {
        let reading = nanos_since(&self.origin);
        let t = if reading > self.clock {
            reading
        } else {
            self.clock
        };
        self.clock = t;
        t
    }

    /// The response cached under `key` if it is still fresh at time `now`; a
    /// stale entry is removed.
    pub fn get_at(&mut self, key: &str, now: u128) -> (r: Option<CachedResponse>)
        ensures
            final(self).clock() == old(self).clock(),
            final(self).ttl() == old(self).ttl(),
            ({
                let e = old(self).entries();
                if e.dom().contains(key@) && is_fresh(e[key@].recorded_at, now, old(self).ttl()) {
                    r == Some(e[key@]) && final(self).entries() == e
                } else {
                    r is None && final(self).entries() == e.remove(key@)
                }
            }),
    {
        match cache_get(&self.inner, key) {
            Some(entry) => {
                let age: u128 = if now >= entry.recorded_at {
                    now - entry.recorded_at
                } else {
                    0
                };
                if age < self.ttl_nanos {
                    Some(entry)
                } else {
                    cache_remove(&mut self.inner, key);
                    None
                }
            },
            None => {
                assert(self.entries().remove(key@) =~= self.entries());
                None
            },
        }
    }

    /// The response cached under `key` if it has not expired; an expired entry
    /// is removed. Freshness is judged on the store's clock at the call.
    pub fn get(&mut self, key: &str) -> (r: Option<CachedResponse>)
        ensures
            final(self).ttl() == old(self).ttl(),
            final(self).clock() >= old(self).clock(),
            ({
                let e = old(self).entries();
                let t = final(self).clock();
                if e.dom().contains(key@) && is_fresh(e[key@].recorded_at, t, old(self).ttl()) {
                    r == Some(e[key@]) && final(self).entries() == e
                } else {
                    r is None && final(self).entries() == e.remove(key@)
                }
            }),
            match r {
                Some(c) => old(self).entries().dom().contains(key@) && c == old(self).entries()[key@]
                    && final(self).entries() == old(self).entries(),
                None => final(self).entries() == old(self).entries().remove(key@),
            },
    {
        let now = self.now();
        self.get_at(key, now)
    }

    /// Records `status` and `body` under `key` at time `now`.
    pub fn insert_at(&mut self, key: String, status: u16, body: String, now: u128)
        ensures
            final(self).clock() == old(self).clock(),
            final(self).ttl() == old(self).ttl(),
            final(self).entries() == old(self).entries().insert(
                key@,
                CachedResponse { status, body, recorded_at: now },
            ),
    {
        cache_insert(&mut self.inner, key, CachedResponse { status, body, recorded_at: now });
    }

    /// Records `status` and `body` under `key`, stamped with the store's clock.
    pub fn insert(&mut self, key: String, status: u16, body: String)
        ensures
            final(self).ttl() == old(self).ttl(),
            final(self).clock() >= old(self).clock(),
            final(self).entries() == old(self).entries().insert(
                key@,
                CachedResponse { status, body, recorded_at: final(self).clock() },
            ),
            exists|t: u128|
                final(self).entries() == old(self).entries().insert(
                    key@,
                    CachedResponse { status, body, recorded_at: t },
                ),
    {
        let now = self.now();
        self.insert_at(key, status, body, now);
    }
}


/// The HTTP status under which a cached status is answered again: itself when
/// it is a valid HTTP status code, 200 otherwise.
pub open spec fn replay_status(status: u16) -> u16 {
    if 100 <= status <= 999 {
        status
    } else {
        200
    }
}

/// An optional string slice, by its text.
pub open spec fn opt_key(k: Option<&str>) -> Option<Seq<char>> {
    match k {
        Some(t) => Some(t@),
        None => None,
    }
}

/// What a repeated request finds in `entries` at time `now`: the status and
/// body cached under its key while they are fresh; nothing for a request
/// without a key.
pub open spec fn replay_spec(
    entries: Map<Seq<char>, CachedResponse>,
    endpoint: Seq<char>,
    invoice_id: u64,
    key: Option<Seq<char>>,
    now: u128,
    ttl_nanos: u128,
) -> Option<(u16, Seq<char>)> {
    match key {
        None => None,
        Some(k) => {
            let sk = store_key(endpoint, invoice_id, k);
            if entries.dom().contains(sk) && is_fresh(entries[sk].recorded_at, now, ttl_nanos) {
                Some((replay_status(entries[sk].status), entries[sk].body@))
            } else {
                None
            }
        },
    }
}

/// The entries after such a lookup: a stale entry under the key is removed.
pub open spec fn after_replay(
    entries: Map<Seq<char>, CachedResponse>,
    endpoint: Seq<char>,
    invoice_id: u64,
    key: Option<Seq<char>>,
    now: u128,
    ttl_nanos: u128,
) -> Map<Seq<char>, CachedResponse> {
    match key {
        None => entries,
        Some(k) => {
            let sk = store_key(endpoint, invoice_id, k);
            if entries.dom().contains(sk) && is_fresh(entries[sk].recorded_at, now, ttl_nanos) {
                entries
            } else {
                entries.remove(sk)
            }
        },
    }
}

/// The entries after recording an answer under a request's key at time `now`.
pub open spec fn after_remember(
    entries: Map<Seq<char>, CachedResponse>,
    endpoint: Seq<char>,
    invoice_id: u64,
    key: Option<Seq<char>>,
    status: u16,
    body: String,
    now: u128,
) -> Map<Seq<char>, CachedResponse> {
    match key {
        None => entries,
        Some(k) => entries.insert(
            store_key(endpoint, invoice_id, k),
            CachedResponse { status, body, recorded_at: now },
        ),
    }
}

/// A cached pair of status and body, by the body's text.
pub open spec fn opt_hit(r: Option<(u16, String)>) -> Option<(u16, Seq<char>)> {
    match r {
        Some(h) => Some((h.0, h.1@)),
        None => None,
    }
}

impl IdempotencyStore {
    /// The cached answer, status and body, for a repeated request on
    /// `endpoint` for invoice `invoice_id` carrying `idempotency_key`, judged at
    /// time `now`; none for a request without an idempotency key.
    pub fn replay_at(
        &mut self,
        endpoint: &str,
        invoice_id: u64,
        idempotency_key: Option<&str>,
        now: u128,
    ) -> (r: Option<(u16, String)>)
        ensures
            final(self).clock() == old(self).clock(),
            final(self).ttl() == old(self).ttl(),
            opt_hit(r) == replay_spec(
                old(self).entries(),
                endpoint@,
                invoice_id,
                opt_key(idempotency_key),
                now,
                old(self).ttl(),
            ),
            final(self).entries() == after_replay(
                old(self).entries(),
                endpoint@,
                invoice_id,
                opt_key(idempotency_key),
                now,
                old(self).ttl(),
            ),
    {
        match idempotency_key {
            None => None,
            Some(k) => {
                let key = IdempotencyStore::make_key(endpoint, invoice_id, k);
                match self.get_at(key.as_str(), now) {
                    Some(cached) => {
                        let status = if 100 <= cached.status && cached.status <= 999 {
                            cached.status
                        } else {
                            200
                        };
                        Some((status, cached.body))
                    },
                    None => None,
                }
            },
        }
    }

    /// Like `replay_at`, judged on the store's clock at the call.
    pub fn replay(&mut self, endpoint: &str, invoice_id: u64, idempotency_key: Option<&str>) -> (r:
        Option<(u16, String)>)
        ensures
            final(self).ttl() == old(self).ttl(),
            final(self).clock() >= old(self).clock(),
            opt_hit(r) == replay_spec(
                old(self).entries(),
                endpoint@,
                invoice_id,
                opt_key(idempotency_key),
                final(self).clock(),
                old(self).ttl(),
            ),
            final(self).entries() == after_replay(
                old(self).entries(),
                endpoint@,
                invoice_id,
                opt_key(idempotency_key),
                final(self).clock(),
                old(self).ttl(),
            ),
            exists|t: u128|
                opt_hit(r) == replay_spec(
                    old(self).entries(),
                    endpoint@,
                    invoice_id,
                    opt_key(idempotency_key),
                    t,
                    old(self).ttl(),
                ) && final(self).entries() == after_replay(
                    old(self).entries(),
                    endpoint@,
                    invoice_id,
                    opt_key(idempotency_key),
                    t,
                    old(self).ttl(),
                ),
    {
        let now = self.now();
        self.replay_at(endpoint, invoice_id, idempotency_key, now)
    }

    /// Records the answer to a request on `endpoint` for invoice `invoice_id`
    /// under its idempotency key, at time `now`; a request without a key is not
    /// recorded.
    pub fn remember_at(
        &mut self,
        endpoint: &str,
        invoice_id: u64,
        idempotency_key: Option<&str>,
        status: u16,
        body: String,
        now: u128,
    )
        ensures
            final(self).clock() == old(self).clock(),
            final(self).ttl() == old(self).ttl(),
            final(self).entries() == after_remember(
                old(self).entries(),
                endpoint@,
                invoice_id,
                opt_key(idempotency_key),
                status,
                body,
                now,
            ),
    {
        match idempotency_key {
            None => {},
            Some(k) => {
                let key = IdempotencyStore::make_key(endpoint, invoice_id, k);
                self.insert_at(key, status, body, now);
            },
        }
    }

    /// Like `remember_at`, stamped with the store's clock.
    pub fn remember(
        &mut self,
        endpoint: &str,
        invoice_id: u64,
        idempotency_key: Option<&str>,
        status: u16,
        body: String,
    )
        ensures
            final(self).ttl() == old(self).ttl(),
            final(self).clock() >= old(self).clock(),
            final(self).entries() == after_remember(
                old(self).entries(),
                endpoint@,
                invoice_id,
                opt_key(idempotency_key),
                status,
                body,
                final(self).clock(),
            ),
            exists|t: u128|
                final(self).entries() == after_remember(
                    old(self).entries(),
                    endpoint@,
                    invoice_id,
                    opt_key(idempotency_key),
                    status,
                    body,
                    t,
                ),
    {
        let now = self.now();
        self.remember_at(endpoint, invoice_id, idempotency_key, status, body, now);
    }
}

} // verus!
