//! Properties of the compliance contract that relate several operations or
//! hold of every state.
use vstd::prelude::*;

use crate::compliance::{
    accept_admin_spec, admin_gate, allow_address_spec, allow_address_until_spec,
    block_address_spec, clear_address_spec, expired_in, is_allowed_in, paused_in, put_paused,
    status_in, sweep_spec, transfer_admin_spec, AddressStatus, ComplianceState, ContractError,
    initialize_spec, put_admin, put_pending, delete_pending, put_status, delete_status, publish,
    gated_status_spec, sweep_one, KeyView, ValueView, WriteView, EventView,
};

verus! {

broadcast use vstd::set::group_set_axioms;

// ---------------------------------------------------------------------------
// Grants, blocks and clears
// ---------------------------------------------------------------------------

/// An address that the admin allows is allowed at every ledger time.
pub proof fn law_allowed_after_allow(s: ComplianceState, admin: Seq<char>, a: Seq<char>, now: u64)
    requires
        admin_gate(s, admin) is None,
    ensures
        allow_address_spec(s, admin, a).1 is Ok,
        is_allowed_in(allow_address_spec(s, admin, a).0, a, now),
        status_in(allow_address_spec(s, admin, a).0, a) == AddressStatus::Allowed,
{
}

/// An address that the admin allows until `until` is allowed exactly at the
/// ledger times strictly before `until`.
pub proof fn law_allowed_until_expiry(
    s: ComplianceState,
    admin: Seq<char>,
    a: Seq<char>,
    until: u64,
    now: u64,
)
    requires
        admin_gate(s, admin) is None,
    ensures
        allow_address_until_spec(s, admin, a, until).1 is Ok,
        is_allowed_in(allow_address_until_spec(s, admin, a, until).0, a, now) == (now < until),
{
}

/// An address that the admin blocks is not allowed at any ledger time.
pub proof fn law_blocked_is_refused(s: ComplianceState, admin: Seq<char>, a: Seq<char>, now: u64)
    requires
        admin_gate(s, admin) is None,
    ensures
        block_address_spec(s, admin, a).1 is Ok,
        status_in(block_address_spec(s, admin, a).0, a) == AddressStatus::Blocked,
        !is_allowed_in(block_address_spec(s, admin, a).0, a, now),
{
}

/// A blocked address can be allowed again by the admin.
pub proof fn law_block_then_allow(s: ComplianceState, admin: Seq<char>, a: Seq<char>, now: u64)
    requires
        admin_gate(s, admin) is None,
    ensures
        ({
            let b = block_address_spec(s, admin, a).0;
            &&& allow_address_spec(b, admin, a).1 is Ok
            &&& is_allowed_in(allow_address_spec(b, admin, a).0, a, now)
        }),
{
    assert(admin_gate(block_address_spec(s, admin, a).0, admin) is None);
}

/// Clearing an address with a status resets it to `Cleared`; clearing it a
/// second time is answered with `AddressNotFound` and changes nothing.
pub proof fn law_clear_resets(s: ComplianceState, admin: Seq<char>, a: Seq<char>)
    requires
        admin_gate(s, admin) is None,
        status_in(s, a) != AddressStatus::Cleared,
    ensures
        clear_address_spec(s, admin, a).1 is Ok,
        status_in(clear_address_spec(s, admin, a).0, a) == AddressStatus::Cleared,
        clear_address_spec(clear_address_spec(s, admin, a).0, admin, a) == (
            clear_address_spec(s, admin, a).0,
            Err::<(), ContractError>(ContractError::AddressNotFound),
        ),
{
    let t = clear_address_spec(s, admin, a).0;
    assert(admin_gate(t, admin) is None);
}

/// Granting, blocking or clearing one address leaves the status of every other
/// address as it was.
pub proof fn law_other_addresses_untouched(
    s: ComplianceState,
    admin: Seq<char>,
    a: Seq<char>,
    b: Seq<char>,
    until: u64,
)
    requires
        a != b,
    ensures
        status_in(allow_address_spec(s, admin, a).0, b) == status_in(s, b),
        status_in(block_address_spec(s, admin, a).0, b) == status_in(s, b),
        status_in(allow_address_until_spec(s, admin, a, until).0, b) == status_in(s, b),
        status_in(clear_address_spec(s, admin, a).0, b) == status_in(s, b),
{
}

// ---------------------------------------------------------------------------
// Refusals
// ---------------------------------------------------------------------------

/// While the contract is paused every admin operation is answered with
/// `ContractPaused` and changes nothing.
pub proof fn law_paused_refuses(
    s: ComplianceState,
    admin: Seq<char>,
    a: Seq<char>,
    until: u64,
)
    requires
        paused_in(s),
    ensures
        allow_address_spec(s, admin, a) == (s, Err::<(), ContractError>(ContractError::ContractPaused)),
        block_address_spec(s, admin, a) == (s, Err::<(), ContractError>(ContractError::ContractPaused)),
        allow_address_until_spec(s, admin, a, until) == (
            s,
            Err::<(), ContractError>(ContractError::ContractPaused),
        ),
        clear_address_spec(s, admin, a) == (s, Err::<(), ContractError>(ContractError::ContractPaused)),
        transfer_admin_spec(s, admin, a) == (
            s,
            Err::<(), ContractError>(ContractError::ContractPaused),
        ),
{
}

/// On a running contract, an admin operation requested by anyone but the
/// stored admin is answered with `Unauthorized` and changes nothing.
pub proof fn law_non_admin_refused(
    s: ComplianceState,
    caller: Seq<char>,
    a: Seq<char>,
    until: u64,
)
    requires
        !paused_in(s),
        s.admin != Some(caller),
    ensures
        allow_address_spec(s, caller, a) == (s, Err::<(), ContractError>(ContractError::Unauthorized)),
        block_address_spec(s, caller, a) == (s, Err::<(), ContractError>(ContractError::Unauthorized)),
        allow_address_until_spec(s, caller, a, until) == (
            s,
            Err::<(), ContractError>(ContractError::Unauthorized),
        ),
        clear_address_spec(s, caller, a) == (s, Err::<(), ContractError>(ContractError::Unauthorized)),
        transfer_admin_spec(s, caller, a) == (
            s,
            Err::<(), ContractError>(ContractError::Unauthorized),
        ),
{
}

/// Pausing sets the pause flag, lifting it clears it, and neither changes any
/// address's status.
pub proof fn law_pause_unpause(s: ComplianceState, a: Seq<char>)
    ensures
        paused_in(put_paused(s, true)),
        !paused_in(put_paused(put_paused(s, true), false)),
        status_in(put_paused(s, true), a) == status_in(s, a),
        status_in(put_paused(put_paused(s, true), false), a) == status_in(s, a),
{
}

// ---------------------------------------------------------------------------
// Admin hand-over
// ---------------------------------------------------------------------------

/// Nominating a new admin leaves the admin in place and in control; the
/// nominee's acceptance then makes it the admin, ends the nomination and takes
/// control from the previous admin, while anyone else's acceptance is refused
/// with `Unauthorized`.
pub proof fn law_admin_handover(
    s: ComplianceState,
    admin: Seq<char>,
    nominee: Seq<char>,
    other: Seq<char>,
)
    requires
        admin_gate(s, admin) is None,
        other != nominee,
    ensures
        ({
            let t = transfer_admin_spec(s, admin, nominee);
            let u = accept_admin_spec(t.0, nominee);
            &&& t.1 is Ok
            &&& t.0.admin == Some(admin)
            &&& admin_gate(t.0, admin) is None
            &&& u.1 is Ok
            &&& u.0.admin == Some(nominee)
            &&& u.0.pending_admin is None
            &&& admin_gate(u.0, nominee) is None
            &&& (admin != nominee ==> admin_gate(u.0, admin) == Some(ContractError::Unauthorized))
            &&& accept_admin_spec(t.0, other) == (
                t.0,
                Err::<(), ContractError>(ContractError::Unauthorized),
            )
        }),
{
}

/// Without a pending nomination every acceptance is refused with `Unauthorized`.
pub proof fn law_accept_needs_nomination(s: ComplianceState, who: Seq<char>)
    requires
        s.pending_admin is None,
    ensures
        accept_admin_spec(s, who) == (s, Err::<(), ContractError>(ContractError::Unauthorized)),
{
}

/// Whether an address is allowed never depends on the pause flag: pausing or
/// lifting a pause leaves every answer as it was. An address is allowed at
/// `now` exactly when it holds a permanent grant, or a time-boxed grant whose
/// expiry is later than `now`.
pub proof fn law_allowed_ignores_pause(s: ComplianceState, b: bool, a: Seq<char>, now: u64)
    ensures
        is_allowed_in(put_paused(s, b), a, now) == is_allowed_in(s, a, now),
        is_allowed_in(s, a, now) == ({
            ||| status_in(s, a) == AddressStatus::Allowed
            ||| exists|until: u64|
                status_in(s, a) == AddressStatus::AllowedUntil(until) && now < until
        }),
        status_in(s, a) == AddressStatus::Allowed ==> is_allowed_in(put_paused(s, true), a, now),
{
    assert(status_in(put_paused(s, b), a) == status_in(s, a));
    if let AddressStatus::AllowedUntil(until) = status_in(s, a) {
        if now < until {
            assert(status_in(s, a) == AddressStatus::AllowedUntil(until) && now < until);
        }
    }
}

/// The nominee's acceptance succeeds whatever the pause flag: it makes the
/// nominee the admin and ends the nomination, paused or not, and leaves the
/// pause flag and every address status as they were.
pub proof fn law_accept_ignores_pause(s: ComplianceState, n: Seq<char>, b: bool)
    requires
        s.pending_admin == Some(n),
    ensures
        accept_admin_spec(s, n).1 is Ok,
        accept_admin_spec(s, n).0.admin == Some(n),
        accept_admin_spec(s, n).0.pending_admin is None,
        accept_admin_spec(s, n).0.paused == s.paused,
        accept_admin_spec(s, n).0.statuses == s.statuses,
        accept_admin_spec(put_paused(s, b), n).1 is Ok,
        accept_admin_spec(put_paused(s, b), n).0.admin == Some(n),
        accept_admin_spec(put_paused(s, b), n).0.pending_admin is None,
{
}

// ---------------------------------------------------------------------------
// Sweeping expired grants
// ---------------------------------------------------------------------------

/// The addresses of a batch whose grant has run out at `now` in state `s`.
pub open spec fn expired_batch(s: ComplianceState, addrs: Seq<Seq<char>>, now: u64) -> Set<
    Seq<char>,
>
    decreases addrs.len(),
{
    if addrs.len() == 0 {
        Set::empty()
    } else {
        let p = expired_batch(s, addrs.drop_last(), now);
        if expired_in(s, addrs.last(), now) {
            p.insert(addrs.last())
        } else {
            p
        }
    }
}

proof fn lemma_expired_batch(s: ComplianceState, addrs: Seq<Seq<char>>, now: u64)
    ensures
        expired_batch(s, addrs, now).finite(),
        forall|b: Seq<char>|
            #[trigger] expired_batch(s, addrs, now).contains(b) <==> (addrs.contains(b)
                && expired_in(s, b, now)),
    decreases addrs.len(),
{
    if addrs.len() > 0 {
        let p = addrs.drop_last();
        lemma_expired_batch(s, p, now);
        assert forall|b: Seq<char>| #[trigger] addrs.contains(b) <==> (p.contains(b) || b
            == addrs.last()) by {
            if addrs.contains(b) {
                let i = choose|i: int| 0 <= i < addrs.len() && addrs[i] == b;
                if i < addrs.len() - 1 {
                    assert(p[i] == b);
                }
            }
            if p.contains(b) {
                let i = choose|i: int| 0 <= i < p.len() && p[i] == b;
                assert(addrs[i] == b);
            }
            if b == addrs.last() {
                assert(addrs[addrs.len() - 1] == b);
            }
        }
    }
}

proof fn lemma_sweep_frame(s: ComplianceState, addrs: Seq<Seq<char>>, now: u64)
    ensures
        ({
            let (t, n) = sweep_spec(s, addrs, now);
            &&& t.admin == s.admin
            &&& t.paused == s.paused
            &&& t.pending_admin == s.pending_admin
            &&& forall|b: Seq<char>|
                #[trigger] status_in(t, b) == if expired_batch(s, addrs, now).contains(b) {
                    AddressStatus::Cleared
                } else {
                    status_in(s, b)
                }
            &&& n == expired_batch(s, addrs, now).len()
        }),
    decreases addrs.len(),
{
    lemma_expired_batch(s, addrs, now);
    if addrs.len() > 0 {
        let p = addrs.drop_last();
        let x = addrs.last();
        lemma_sweep_frame(s, p, now);
        lemma_expired_batch(s, p, now);
        let (t, n) = sweep_spec(s, p, now);
        assert(expired_in(t, x, now) == (expired_in(s, x, now) && !expired_batch(
            s,
            p,
            now,
        ).contains(x))) by {
            assert(status_in(t, x) == (if expired_batch(s, p, now).contains(x) {
                AddressStatus::Cleared
            } else {
                status_in(s, x)
            }));
        }
    }
}

/// A sweep removes exactly the entries of the batch's addresses whose grant has
/// run out at `now`, leaves every other status, the admin, the pending admin and
/// the pause flag as they were, and returns the number of entries it removed.
pub proof fn law_sweep_removes_expired(
    s: ComplianceState,
    addrs: Seq<Seq<char>>,
    now: u64,
    b: Seq<char>,
)
    ensures
        ({
            let (t, n) = sweep_spec(s, addrs, now);
            &&& status_in(t, b) == if addrs.contains(b) && expired_in(s, b, now) {
                AddressStatus::Cleared
            } else {
                status_in(s, b)
            }
            &&& n == expired_batch(s, addrs, now).len()
            &&& t.admin == s.admin
            &&& t.pending_admin == s.pending_admin
            &&& t.paused == s.paused
        }),
{
    lemma_sweep_frame(s, addrs, now);
    lemma_expired_batch(s, addrs, now);
}

/// The events a sweep publishes: one `address_swept` event for each address
/// whose entry it removed, and no other.
pub open spec fn sweep_events_ok(ev: Seq<EventView>, expired: Set<Seq<char>>) -> bool {
    &&& ev.len() == expired.len()
    &&& forall|i: int|
        0 <= i < ev.len() ==> (#[trigger] ev[i] matches EventView::AddressSwept(a)
            && expired.contains(a))
    &&& forall|i: int, j: int| 0 <= i < ev.len() && 0 <= j < ev.len() && i != j ==> #[trigger] ev[i]
        != #[trigger] ev[j]
    &&& forall|a: Seq<char>|
        #[trigger] expired.contains(a) ==> exists|i: int|
            0 <= i < ev.len() && #[trigger] ev[i] == EventView::AddressSwept(a)
}

/// A sweep keeps the events published before it and then publishes exactly
/// one `address_swept` event for each address whose entry it removed (the
/// batch's addresses whose grant ran out), and none for any other address.
pub proof fn law_sweep_events(s: ComplianceState, addrs: Seq<Seq<char>>, now: u64)
    ensures
        ({
            let t = sweep_spec(s, addrs, now).0;
            &&& s.events.len() <= t.events.len()
            &&& t.events.take(s.events.len() as int) == s.events
            &&& sweep_events_ok(
                t.events.skip(s.events.len() as int),
                expired_batch(s, addrs, now),
            )
        }),
    decreases addrs.len(),
{
    lemma_expired_batch(s, addrs, now);
    let n0 = s.events.len() as int;
    if addrs.len() == 0 {
        assert(s.events.take(n0) =~= s.events);
        assert(s.events.skip(n0) =~= Seq::<EventView>::empty());
        assert(expired_batch(s, addrs, now) =~= Set::<Seq<char>>::empty());
    } else {
        let p = addrs.drop_last();
        let x = addrs.last();
        law_sweep_events(s, p, now);
        lemma_sweep_frame(s, p, now);
        lemma_expired_batch(s, p, now);
        let t = sweep_spec(s, p, now).0;
        let ep = expired_batch(s, p, now);
        let e = expired_batch(s, addrs, now);
        let evp = t.events.skip(n0);
        assert(expired_in(t, x, now) == (expired_in(s, x, now) && !ep.contains(x))) by {
            assert(status_in(t, x) == (if ep.contains(x) {
                AddressStatus::Cleared
            } else {
                status_in(s, x)
            }));
        }
        if expired_in(t, x, now) {
            let u = sweep_spec(s, addrs, now).0;
            let ev = u.events.skip(n0);
            assert(u.events == t.events.push(EventView::AddressSwept(x)));
            assert(u.events.take(n0) =~= t.events.take(n0));
            assert(ev =~= evp.push(EventView::AddressSwept(x)));
            assert(e == ep.insert(x));
            assert forall|i: int| 0 <= i < ev.len() implies (#[trigger] ev[i] matches EventView::AddressSwept(a)
                && e.contains(a)) by {
                if i < evp.len() {
                    assert(ev[i] == evp[i]);
                }
            }
            assert forall|i: int, j: int|
                0 <= i < ev.len() && 0 <= j < ev.len() && i != j implies #[trigger] ev[i]
                != #[trigger] ev[j] by {
                if i < evp.len() && j < evp.len() {
                    assert(ev[i] == evp[i] && ev[j] == evp[j]);
                } else if i < evp.len() {
                    assert(ev[i] == evp[i]);
                    assert(evp[i] matches EventView::AddressSwept(a) && ep.contains(a));
                } else if j < evp.len() {
                    assert(ev[j] == evp[j]);
                    assert(evp[j] matches EventView::AddressSwept(a) && ep.contains(a));
                }
            }
            assert forall|a: Seq<char>| #[trigger] e.contains(a) implies exists|i: int|
                0 <= i < ev.len() && #[trigger] ev[i] == EventView::AddressSwept(a) by {
                if a == x {
                    assert(ev[evp.len() as int] == EventView::AddressSwept(a));
                } else {
                    assert(ep.contains(a));
                    let i = choose|i: int|
                        0 <= i < evp.len() && #[trigger] evp[i] == EventView::AddressSwept(a);
                    assert(ev[i] == evp[i]);
                }
            }
        } else {
            assert(e =~= ep) by {
                assert forall|a: Seq<char>| e.contains(a) <==> ep.contains(a) by {
                    if a == x && e.contains(a) {
                        assert(ep.contains(a));
                    }
                    if ep.contains(a) {
                        assert(p.contains(a));
                        let k = choose|k: int| 0 <= k < p.len() && p[k] == a;
                        assert(addrs[k] == a);
                    }
                    if e.contains(a) && a != x {
                        let k = choose|k: int| 0 <= k < addrs.len() && addrs[k] == a;
                        assert(k < addrs.len() - 1);
                        assert(p[k] == a);
                    }
                }
            }
        }
    }
}

/// A sweep never changes whether an address is allowed at the sweep's time.
pub proof fn law_sweep_keeps_allowed(s: ComplianceState, addrs: Seq<Seq<char>>, now: u64, b: Seq<char>)
    ensures
        is_allowed_in(sweep_spec(s, addrs, now).0, b, now) == is_allowed_in(s, b, now),
{
    lemma_sweep_frame(s, addrs, now);
    lemma_expired_batch(s, addrs, now);
}

/// Sweeping the same batch again at the same time removes nothing.
pub proof fn law_sweep_idempotent(s: ComplianceState, addrs: Seq<Seq<char>>, now: u64)
    ensures
        sweep_spec(sweep_spec(s, addrs, now).0, addrs, now).1 == 0,
        sweep_spec(sweep_spec(s, addrs, now).0, addrs, now).0.statuses =~= sweep_spec(
            s,
            addrs,
            now,
        ).0.statuses,
{
    let t = sweep_spec(s, addrs, now).0;
    lemma_sweep_frame(s, addrs, now);
    lemma_expired_batch(s, addrs, now);
    lemma_sweep_frame(t, addrs, now);
    lemma_expired_batch(t, addrs, now);
    assert(expired_batch(t, addrs, now) =~= Set::<Seq<char>>::empty());
    lemma_sweep_statuses_unchanged(t, addrs, now);
}

proof fn lemma_sweep_statuses_unchanged(s: ComplianceState, addrs: Seq<Seq<char>>, now: u64)
    requires
        forall|b: Seq<char>| addrs.contains(b) ==> !#[trigger] expired_in(s, b, now),
    ensures
        sweep_spec(s, addrs, now).0.statuses == s.statuses,
    decreases addrs.len(),
{
    if addrs.len() > 0 {
        let p = addrs.drop_last();
        assert forall|b: Seq<char>| p.contains(b) implies !#[trigger] expired_in(s, b, now) by {
            let i = choose|i: int| 0 <= i < p.len() && p[i] == b;
            assert(addrs[i] == b);
        }
        lemma_sweep_statuses_unchanged(s, p, now);
        lemma_sweep_frame(s, p, now);
        lemma_expired_batch(s, p, now);
        assert(addrs.contains(addrs.last())) by {
            assert(addrs[addrs.len() - 1] == addrs.last());
        }
        let t = sweep_spec(s, p, now).0;
        assert(!expired_in(s, addrs.last(), now));
        assert(status_in(t, addrs.last()) == status_in(s, addrs.last()));
        assert(!expired_in(t, addrs.last(), now));
    }
}


/// No stored status is `Cleared`: a cleared address has no entry at all.
pub open spec fn no_cleared_entries(s: ComplianceState) -> bool {
    forall|a: Seq<char>| #[trigger] s.statuses.dom().contains(a) ==> s.statuses[a] != AddressStatus::Cleared
}

/// Every operation keeps the storage free of `Cleared` entries, so an address
/// has an entry exactly when its status is something other than `Cleared`.
pub proof fn law_no_cleared_entries(
    s: ComplianceState,
    admin: Seq<char>,
    a: Seq<char>,
    until: u64,
    addrs: Seq<Seq<char>>,
    now: u64,
    b: Seq<char>,
)
    requires
        no_cleared_entries(s),
    ensures
        no_cleared_entries(initialize_spec(s, admin)),
        no_cleared_entries(allow_address_spec(s, admin, a).0),
        no_cleared_entries(block_address_spec(s, admin, a).0),
        no_cleared_entries(allow_address_until_spec(s, admin, a, until).0),
        no_cleared_entries(transfer_admin_spec(s, admin, a).0),
        no_cleared_entries(accept_admin_spec(s, a).0),
        no_cleared_entries(clear_address_spec(s, admin, a).0),
        no_cleared_entries(sweep_spec(s, addrs, now).0),
        no_cleared_entries(put_paused(s, true)),
        no_cleared_entries(put_paused(s, false)),
        s.statuses.dom().contains(b) <==> status_in(s, b) != AddressStatus::Cleared,
{
    lemma_sweep_no_cleared(s, addrs, now);
}

proof fn lemma_sweep_no_cleared(s: ComplianceState, addrs: Seq<Seq<char>>, now: u64)
    requires
        no_cleared_entries(s),
    ensures
        no_cleared_entries(sweep_spec(s, addrs, now).0),
    decreases addrs.len(),
{
    if addrs.len() > 0 {
        lemma_sweep_no_cleared(s, addrs.drop_last(), now);
    }
}

// ---------------------------------------------------------------------------
// The write journal
// ---------------------------------------------------------------------------

/// The value that state `s` holds under storage key `k`, if any.
pub open spec fn stored_in(s: ComplianceState, k: KeyView) -> Option<ValueView> {
    match k {
        KeyView::Admin => match s.admin {
            Some(a) => Some(ValueView::Account(a)),
            None => None,
        },
        KeyView::Paused => match s.paused {
            Some(b) => Some(ValueView::Flag(b)),
            None => None,
        },
        KeyView::PendingAdmin => match s.pending_admin {
            Some(a) => Some(ValueView::Account(a)),
            None => None,
        },
        KeyView::Status(a) => if s.statuses.dom().contains(a) {
            Some(ValueView::Status(s.statuses[a]))
        } else {
            None
        },
    }
}

/// The instance storage of state `s`, as a map from keys to values.
pub open spec fn storage_of(s: ComplianceState) -> Map<KeyView, ValueView> {
    Map::new(|k: KeyView| stored_in(s, k) is Some, |k: KeyView| stored_in(s, k)->0)
}

/// The storage after one write.
pub open spec fn apply_write(m: Map<KeyView, ValueView>, w: WriteView) -> Map<KeyView, ValueView> {
    match w {
        WriteView::Put(k, v) => m.insert(k, v),
        WriteView::Delete(k) => m.remove(k),
    }
}

/// The storage after a sequence of writes, oldest first.
pub open spec fn apply_writes(m: Map<KeyView, ValueView>, ws: Seq<WriteView>) -> Map<
    KeyView,
    ValueView,
>
    decreases ws.len(),
{
    if ws.len() == 0 {
        m
    } else {
        apply_write(apply_writes(m, ws.drop_last()), ws.last())
    }
}

/// `after` extends the write journal of `before`, and replaying the added
/// writes on the storage of `before` gives the storage of `after`.
pub open spec fn replays(before: ComplianceState, after: ComplianceState) -> bool {
    &&& before.writes.len() <= after.writes.len()
    &&& after.writes.take(before.writes.len() as int) == before.writes
    &&& apply_writes(storage_of(before), after.writes.skip(before.writes.len() as int))
        == storage_of(after)
}

proof fn lemma_apply_concat(m: Map<KeyView, ValueView>, w1: Seq<WriteView>, w2: Seq<WriteView>)
    ensures
        apply_writes(m, w1 + w2) == apply_writes(apply_writes(m, w1), w2),
    decreases w2.len(),
{
    if w2.len() == 0 {
        assert(w1 + w2 =~= w1);
    } else {
        assert((w1 + w2).drop_last() =~= w1 + w2.drop_last());
        lemma_apply_concat(m, w1, w2.drop_last());
    }
}

proof fn lemma_replays_trans(a: ComplianceState, b: ComplianceState, c: ComplianceState)
    requires
        replays(a, b),
        replays(b, c),
    ensures
        replays(a, c),
{
    let na = a.writes.len() as int;
    let nb = b.writes.len() as int;
    assert(c.writes.take(na) =~= b.writes.take(na));
    assert(c.writes.skip(na) =~= b.writes.skip(na) + c.writes.skip(nb));
    lemma_apply_concat(storage_of(a), b.writes.skip(na), c.writes.skip(nb));
}

proof fn lemma_replays_step(a: ComplianceState, b: ComplianceState, w: WriteView)
    requires
        b.writes == a.writes.push(w),
        storage_of(b) == apply_write(storage_of(a), w),
    ensures
        replays(a, b),
{
    let n = a.writes.len() as int;
    assert(b.writes.take(n) =~= a.writes);
    assert(b.writes.skip(n) =~= seq![w]);
    assert(seq![w].drop_last() =~= Seq::<WriteView>::empty());
    assert(apply_writes(storage_of(a), seq![w]) == apply_write(
        apply_writes(storage_of(a), Seq::<WriteView>::empty()),
        w,
    ));
}

proof fn lemma_replays_publish(a: ComplianceState, e: EventView)
    ensures
        replays(a, publish(a, e)),
{
    let b = publish(a, e);
    assert(b.writes.take(a.writes.len() as int) =~= a.writes);
    assert(b.writes.skip(a.writes.len() as int) =~= Seq::<WriteView>::empty());
    assert(storage_of(b) =~= storage_of(a));
}

proof fn lemma_replays_refl(a: ComplianceState)
    ensures
        replays(a, a),
{
    assert(a.writes.take(a.writes.len() as int) =~= a.writes);
    assert(a.writes.skip(a.writes.len() as int) =~= Seq::<WriteView>::empty());
}

proof fn lemma_replays_put_admin(a: ComplianceState, x: Seq<char>)
    ensures
        replays(a, put_admin(a, x)),
{
    let w = WriteView::Put(KeyView::Admin, ValueView::Account(x));
    assert(storage_of(put_admin(a, x)) =~= apply_write(storage_of(a), w));
    lemma_replays_step(a, put_admin(a, x), w);
}

proof fn lemma_replays_put_paused(a: ComplianceState, x: bool)
    ensures
        replays(a, put_paused(a, x)),
{
    let w = WriteView::Put(KeyView::Paused, ValueView::Flag(x));
    assert(storage_of(put_paused(a, x)) =~= apply_write(storage_of(a), w));
    lemma_replays_step(a, put_paused(a, x), w);
}

proof fn lemma_replays_put_pending(a: ComplianceState, x: Seq<char>)
    ensures
        replays(a, put_pending(a, x)),
{
    let w = WriteView::Put(KeyView::PendingAdmin, ValueView::Account(x));
    assert(storage_of(put_pending(a, x)) =~= apply_write(storage_of(a), w));
    lemma_replays_step(a, put_pending(a, x), w);
}

proof fn lemma_replays_delete_pending(a: ComplianceState)
    ensures
        replays(a, delete_pending(a)),
{
    let w = WriteView::Delete(KeyView::PendingAdmin);
    assert(storage_of(delete_pending(a)) =~= apply_write(storage_of(a), w));
    lemma_replays_step(a, delete_pending(a), w);
}

proof fn lemma_replays_put_status(a: ComplianceState, x: Seq<char>, st: AddressStatus)
    ensures
        replays(a, put_status(a, x, st)),
{
    let w = WriteView::Put(KeyView::Status(x), ValueView::Status(st));
    assert(storage_of(put_status(a, x, st)) =~= apply_write(storage_of(a), w));
    lemma_replays_step(a, put_status(a, x, st), w);
}

proof fn lemma_replays_delete_status(a: ComplianceState, x: Seq<char>)
    ensures
        replays(a, delete_status(a, x)),
{
    let w = WriteView::Delete(KeyView::Status(x));
    assert(storage_of(delete_status(a, x)) =~= apply_write(storage_of(a), w));
    lemma_replays_step(a, delete_status(a, x), w);
}

proof fn lemma_replays_sweep(s: ComplianceState, addrs: Seq<Seq<char>>, now: u64)
    ensures
        replays(s, sweep_spec(s, addrs, now).0),
    decreases addrs.len(),
{
    if addrs.len() == 0 {
        lemma_replays_refl(s);
    } else {
        let t = sweep_spec(s, addrs.drop_last(), now).0;
        lemma_replays_sweep(s, addrs.drop_last(), now);
        let x = addrs.last();
        if expired_in(t, x, now) {
            lemma_replays_delete_status(t, x);
            lemma_replays_publish(delete_status(t, x), EventView::AddressSwept(x));
            lemma_replays_trans(t, delete_status(t, x), sweep_one(t, x, now).0);
            lemma_replays_trans(s, t, sweep_one(t, x, now).0);
        }
    }
}

proof fn lemma_replays_gated(
    s: ComplianceState,
    admin: Seq<char>,
    a: Seq<char>,
    st: AddressStatus,
    e: EventView,
)
    ensures
        replays(s, gated_status_spec(s, admin, a, st, e).0),
{
    lemma_replays_refl(s);
    lemma_replays_put_status(s, a, st);
    lemma_replays_publish(put_status(s, a, st), e);
    lemma_replays_trans(s, put_status(s, a, st), publish(put_status(s, a, st), e));
}

/// Every operation of the contract records, in order, exactly the storage
/// writes that turn the storage before it into the storage after it, so a host
/// that replays them on its own storage ends in the contract's state.
pub proof fn law_writes_replay(
    s: ComplianceState,
    admin: Seq<char>,
    a: Seq<char>,
    until: u64,
    addrs: Seq<Seq<char>>,
    now: u64,
)
    ensures
        replays(s, initialize_spec(s, admin)),
        replays(s, allow_address_spec(s, admin, a).0),
        replays(s, block_address_spec(s, admin, a).0),
        replays(s, allow_address_until_spec(s, admin, a, until).0),
        replays(s, transfer_admin_spec(s, admin, a).0),
        replays(s, accept_admin_spec(s, a).0),
        replays(s, clear_address_spec(s, admin, a).0),
        replays(s, sweep_spec(s, addrs, now).0),
        replays(s, put_paused(s, true)),
        replays(s, put_paused(s, false)),
{
    lemma_replays_refl(s);
    lemma_replays_put_admin(s, admin);
    lemma_replays_put_paused(put_admin(s, admin), false);
    lemma_replays_trans(s, put_admin(s, admin), initialize_spec(s, admin));
    lemma_replays_put_paused(s, true);
    lemma_replays_put_paused(s, false);
    lemma_replays_gated(s, admin, a, AddressStatus::Allowed, EventView::AddressAllowed(a));
    lemma_replays_gated(s, admin, a, AddressStatus::Blocked, EventView::AddressBlocked(a));
    lemma_replays_gated(
        s,
        admin,
        a,
        AddressStatus::AllowedUntil(until),
        EventView::AddressAllowedUntil(a, until),
    );
    lemma_replays_put_pending(s, a);
    lemma_replays_put_admin(s, a);
    lemma_replays_delete_pending(put_admin(s, a));
    lemma_replays_trans(s, put_admin(s, a), delete_pending(put_admin(s, a)));
    lemma_replays_publish(delete_pending(put_admin(s, a)), EventView::AdminAccepted(a));
    lemma_replays_trans(
        s,
        delete_pending(put_admin(s, a)),
        publish(delete_pending(put_admin(s, a)), EventView::AdminAccepted(a)),
    );
    lemma_replays_delete_status(s, a);
    lemma_replays_publish(delete_status(s, a), EventView::AddressCleared(a));
    lemma_replays_trans(
        s,
        delete_status(s, a),
        publish(delete_status(s, a), EventView::AddressCleared(a)),
    );
    lemma_replays_sweep(s, addrs, now);
}

// ---------------------------------------------------------------------------
// Histories of calls
// ---------------------------------------------------------------------------

/// A call of the contract, with addresses taken by their text.
pub enum ContractCall {
    Initialize(Seq<char>),
    Allow(Seq<char>, Seq<char>),
    Block(Seq<char>, Seq<char>),
    AllowUntil(Seq<char>, Seq<char>, u64),
    TransferAdmin(Seq<char>, Seq<char>),
    AcceptAdmin(Seq<char>),
    Clear(Seq<char>, Seq<char>),
    Sweep(Seq<Seq<char>>, u64),
    Pause,
    Unpause,
}

/// The state after one call, whether the call succeeds or is refused.
pub open spec fn apply_call(s: ComplianceState, c: ContractCall) -> ComplianceState {
    match c {
        ContractCall::Initialize(admin) => initialize_spec(s, admin),
        ContractCall::Allow(admin, a) => allow_address_spec(s, admin, a).0,
        ContractCall::Block(admin, a) => block_address_spec(s, admin, a).0,
        ContractCall::AllowUntil(admin, a, until) => allow_address_until_spec(s, admin, a, until).0,
        ContractCall::TransferAdmin(admin, new_admin) => transfer_admin_spec(s, admin, new_admin).0,
        ContractCall::AcceptAdmin(new_admin) => accept_admin_spec(s, new_admin).0,
        ContractCall::Clear(admin, a) => clear_address_spec(s, admin, a).0,
        ContractCall::Sweep(addrs, now) => sweep_spec(s, addrs, now).0,
        ContractCall::Pause => put_paused(s, true),
        ContractCall::Unpause => put_paused(s, false),
    }
}

/// The state after a sequence of calls, oldest first.
pub open spec fn run_calls(s: ComplianceState, cs: Seq<ContractCall>) -> ComplianceState
    decreases cs.len(),
{
    if cs.len() == 0 {
        s
    } else {
        apply_call(run_calls(s, cs.drop_last()), cs.last())
    }
}

/// The status of `a` after the writes `ws`, oldest first, starting from `st`:
/// the status that the last write of `a`'s entry put there, `Cleared` where
/// that write removed the entry, and `st` where no write touched it.
pub open spec fn status_after_writes(st: AddressStatus, ws: Seq<WriteView>, a: Seq<char>) -> AddressStatus
    decreases ws.len(),
{
    if ws.len() == 0 {
        st
    } else {
        match ws.last() {
            WriteView::Put(KeyView::Status(b), v) if b == a => match v {
                ValueView::Status(x) => x,
                _ => AddressStatus::Cleared,
            },
            WriteView::Delete(KeyView::Status(b)) if b == a => AddressStatus::Cleared,
            _ => status_after_writes(st, ws.drop_last(), a),
        }
    }
}

/// The status that a storage map holds for `a`.
pub open spec fn status_stored(m: Map<KeyView, ValueView>, a: Seq<char>) -> AddressStatus {
    if m.dom().contains(KeyView::Status(a)) {
        match m[KeyView::Status(a)] {
            ValueView::Status(x) => x,
            _ => AddressStatus::Cleared,
        }
    } else {
        AddressStatus::Cleared
    }
}

proof fn lemma_status_stored_of(s: ComplianceState, a: Seq<char>)
    ensures
        status_stored(storage_of(s), a) == status_in(s, a),
{
}

proof fn lemma_status_through_writes(m: Map<KeyView, ValueView>, ws: Seq<WriteView>, a: Seq<char>)
    ensures
        status_stored(apply_writes(m, ws), a) == status_after_writes(status_stored(m, a), ws, a),
    decreases ws.len(),
{
    if ws.len() > 0 {
        lemma_status_through_writes(m, ws.drop_last(), a);
    }
}

proof fn lemma_replays_call(s: ComplianceState, c: ContractCall)
    ensures
        replays(s, apply_call(s, c)),
{
    match c {
        ContractCall::Initialize(admin) => law_writes_replay(s, admin, admin, 0, seq![], 0),
        ContractCall::Allow(admin, a) => law_writes_replay(s, admin, a, 0, seq![], 0),
        ContractCall::Block(admin, a) => law_writes_replay(s, admin, a, 0, seq![], 0),
        ContractCall::AllowUntil(admin, a, until) => law_writes_replay(s, admin, a, until, seq![], 0),
        ContractCall::TransferAdmin(admin, n) => law_writes_replay(s, admin, n, 0, seq![], 0),
        ContractCall::AcceptAdmin(n) => law_writes_replay(s, n, n, 0, seq![], 0),
        ContractCall::Clear(admin, a) => law_writes_replay(s, admin, a, 0, seq![], 0),
        ContractCall::Sweep(addrs, now) => law_writes_replay(s, seq![], seq![], 0, addrs, now),
        ContractCall::Pause => law_writes_replay(s, seq![], seq![], 0, seq![], 0),
        ContractCall::Unpause => law_writes_replay(s, seq![], seq![], 0, seq![], 0),
    }
}

proof fn lemma_replays_run(s: ComplianceState, cs: Seq<ContractCall>)
    ensures
        replays(s, run_calls(s, cs)),
    decreases cs.len(),
{
    if cs.len() == 0 {
        lemma_replays_refl(s);
    } else {
        let t = run_calls(s, cs.drop_last());
        lemma_replays_run(s, cs.drop_last());
        lemma_replays_call(t, cs.last());
        lemma_replays_trans(s, t, apply_call(t, cs.last()));
    }
}

/// After any sequence of calls, the status of an address is the one that the
/// last storage write of its entry made: the status that `allow_address`,
/// `block_address` or `allow_address_until` stored, `Cleared` where
/// `clear_address` or a sweep removed the entry since, and the status before
/// the calls where none of them wrote it. The writes of the calls are those
/// that they add to the journal, in order.
pub proof fn law_status_is_last_written(s: ComplianceState, cs: Seq<ContractCall>, a: Seq<char>)
    ensures
        ({
            let t = run_calls(s, cs);
            &&& t.writes.take(s.writes.len() as int) == s.writes
            &&& status_in(t, a) == status_after_writes(
                status_in(s, a),
                t.writes.skip(s.writes.len() as int),
                a,
            )
        }),
{
    let t = run_calls(s, cs);
    lemma_replays_run(s, cs);
    let ws = t.writes.skip(s.writes.len() as int);
    lemma_status_through_writes(storage_of(s), ws, a);
    lemma_status_stored_of(s, a);
    lemma_status_stored_of(t, a);
}

} // verus!
