//! The compliance contract: an allowlist of Stellar addresses with time-boxed
//! grants, blocking, pausing and a two-step admin hand-over.
//!
//! `ComplianceContract` holds the contract's instance storage (admin, pause flag,
//! pending admin and the status of each address). Every operation also records,
//! in order, the storage writes it made and the events it published, so that the
//! host that runs the contract can replay them.
use vstd::prelude::*;

verus! {

// ---------------------------------------------------------------------------
// Errors, statuses, addresses
// ---------------------------------------------------------------------------

/// Errors the compliance contract answers with.
#[derive(Clone, Copy, Debug, PartialEq, Eq, PartialOrd, Ord, Structural)]
pub enum ContractError {
    Unauthorized,
    ContractPaused,
    AlreadyInitialized,
    AddressNotFound,
}

/// The numeric code that the contract reports for an error.
pub open spec fn error_code(e: ContractError) -> u32 {
    match e {
        ContractError::Unauthorized => 1,
        ContractError::ContractPaused => 2,
        ContractError::AlreadyInitialized => 3,
        ContractError::AddressNotFound => 4,
    }
}

impl ContractError {
    /// The numeric code that the contract reports for this error.
    pub fn code(&self) -> (c: u32)
        ensures
            c == error_code(*self),
    {
        match self {
            ContractError::Unauthorized => 1,
            ContractError::ContractPaused => 2,
            ContractError::AlreadyInitialized => 3,
            ContractError::AddressNotFound => 4,
        }
    }
}

/// The compliance status of an address.
#[derive(Clone, Copy, Debug, PartialEq, Eq, Structural)]
pub enum AddressStatus {
    /// Allowed without time limit.
    Allowed,
    /// Allowed while the ledger time is before the given Unix timestamp.
    AllowedUntil(u64),
    /// Explicitly refused.
    Blocked,
    /// No status recorded (the default).
    Cleared,
}

/// Whether an address with status `st` is allowed at ledger time `now`.
pub open spec fn allowed_at(st: AddressStatus, now: u64) -> bool {
    match st {
        AddressStatus::Allowed => true,
        AddressStatus::AllowedUntil(until) => now < until,
        AddressStatus::Blocked => false,
        AddressStatus::Cleared => false,
    }
}

/// A Stellar address, identified by its strkey text (`G...` or `C...`).
#[derive(Clone, Debug)]
pub struct Address {
    pub id: String,
}

impl View for Address {
    type V = Seq<char>;

    open spec fn view(&self) -> Seq<char> {
        self.id@
    }
}

impl Address {
    /// The address whose strkey is `id`.
    pub fn new(id: &str) -> (a: Address)
        ensures
            a@ == id@,
    {
        Address { id: id.to_owned() }
    }

    /// The strkey text of the address.
    pub fn as_str(&self) -> (s: &str)
        ensures
            s@ == self@,
    {
        self.id.as_str()
    }

    /// Whether both values name the same address.
    pub fn same_as(&self, other: &Address) -> (r: bool)
        ensures
            r == (self@ == other@),
    {
        self.id == other.id
    }

    /// A second value naming the same address.
    pub fn duplicate(&self) -> (a: Address)
        ensures
            a@ == self@,
    {
        Address { id: self.id.clone() }
    }
}

// ---------------------------------------------------------------------------
// Storage keys, stored values, writes and events
// ---------------------------------------------------------------------------

/// The keys of the contract's instance storage.
#[derive(Clone, Debug)]
pub enum DataKey {
    Admin,
    Paused,
    Status(Address),
    PendingAdmin,
}

/// A value held in the contract's instance storage.
#[derive(Clone, Debug)]
pub enum StoredValue {
    Account(Address),
    Flag(bool),
    Status(AddressStatus),
}

/// One write to the contract's instance storage.
#[derive(Clone, Debug)]
pub enum StorageWrite {
    Put(DataKey, StoredValue),
    Delete(DataKey),
}

/// An event the contract publishes; the topic is given by `ComplianceEvent::topic`.
#[derive(Clone, Debug)]
pub enum ComplianceEvent {
    AddressAllowed(Address),
    AddressBlocked(Address),
    AddressAllowedUntil(Address, u64),
    AdminAccepted(Address),
    AddressCleared(Address),
    AddressSwept(Address),
}

/// A storage key, with the address taken by its text.
pub enum KeyView {
    Admin,
    Paused,
    Status(Seq<char>),
    PendingAdmin,
}

/// A stored value, with the address taken by its text.
pub enum ValueView {
    Account(Seq<char>),
    Flag(bool),
    Status(AddressStatus),
}

/// A storage write, with addresses taken by their text.
pub enum WriteView {
    Put(KeyView, ValueView),
    Delete(KeyView),
}

/// A published event, with addresses taken by their text.
pub enum EventView {
    AddressAllowed(Seq<char>),
    AddressBlocked(Seq<char>),
    AddressAllowedUntil(Seq<char>, u64),
    AdminAccepted(Seq<char>),
    AddressCleared(Seq<char>),
    AddressSwept(Seq<char>),
}

impl View for DataKey {
    type V = KeyView;

    open spec fn view(&self) -> KeyView {
        match self {
            DataKey::Admin => KeyView::Admin,
            DataKey::Paused => KeyView::Paused,
            DataKey::Status(a) => KeyView::Status(a@),
            DataKey::PendingAdmin => KeyView::PendingAdmin,
        }
    }
}

impl View for StoredValue {
    type V = ValueView;

    open spec fn view(&self) -> ValueView {
        match self {
            StoredValue::Account(a) => ValueView::Account(a@),
            StoredValue::Flag(b) => ValueView::Flag(*b),
            StoredValue::Status(s) => ValueView::Status(*s),
        }
    }
}

impl View for StorageWrite {
    type V = WriteView;

    open spec fn view(&self) -> WriteView {
        match self {
            StorageWrite::Put(k, v) => WriteView::Put(k@, v@),
            StorageWrite::Delete(k) => WriteView::Delete(k@),
        }
    }
}

impl View for ComplianceEvent {
    type V = EventView;

    open spec fn view(&self) -> EventView {
        match self {
            ComplianceEvent::AddressAllowed(a) => EventView::AddressAllowed(a@),
            ComplianceEvent::AddressBlocked(a) => EventView::AddressBlocked(a@),
            ComplianceEvent::AddressAllowedUntil(a, t) => EventView::AddressAllowedUntil(a@, *t),
            ComplianceEvent::AdminAccepted(a) => EventView::AdminAccepted(a@),
            ComplianceEvent::AddressCleared(a) => EventView::AddressCleared(a@),
            ComplianceEvent::AddressSwept(a) => EventView::AddressSwept(a@),
        }
    }
}

/// The topic symbol under which an event is published.
pub open spec fn event_topic(e: EventView) -> Seq<char> {
    match e {
        EventView::AddressAllowed(_) => "address_allowed"@,
        EventView::AddressBlocked(_) => "address_blocked"@,
        EventView::AddressAllowedUntil(_, _) => "address_allowed_until"@,
        EventView::AdminAccepted(_) => "accept_admin"@,
        EventView::AddressCleared(_) => "address_cleared"@,
        EventView::AddressSwept(_) => "address_swept"@,
    }
}

impl ComplianceEvent {
    /// The topic symbol under which this event is published.
    pub fn topic(&self) -> (t: &'static str)
        ensures
            t@ == event_topic(self@),
    {
        match self {
            ComplianceEvent::AddressAllowed(_) => "address_allowed",
            ComplianceEvent::AddressBlocked(_) => "address_blocked",
            ComplianceEvent::AddressAllowedUntil(_, _) => "address_allowed_until",
            ComplianceEvent::AdminAccepted(_) => "accept_admin",
            ComplianceEvent::AddressCleared(_) => "address_cleared",
            ComplianceEvent::AddressSwept(_) => "address_swept",
        }
    }
}

// ---------------------------------------------------------------------------
// The status table
// ---------------------------------------------------------------------------

struct StatusEntry {
    addr: Address,
    status: AddressStatus,
}

/// The status entries of the instance storage, one per address.
struct StatusTable {
    entries: Vec<StatusEntry>,
    model: Ghost<Map<Seq<char>, AddressStatus>>,
}

impl StatusTable {
    spec fn wf(&self) -> bool {
        &&& forall|i: int|
            0 <= i < self.entries@.len() ==> {
                &&& self.model@.dom().contains(#[trigger] self.entries@[i].addr@)
                &&& self.model@[self.entries@[i].addr@] == self.entries@[i].status
            }
        &&& forall|k: Seq<char>|
            #[trigger] self.model@.dom().contains(k) ==> exists|i: int|
                0 <= i < self.entries@.len() && #[trigger] self.entries@[i].addr@ == k
        &&& forall|i: int, j: int|
            0 <= i < self.entries@.len() && 0 <= j < self.entries@.len() && i != j
                ==> #[trigger] self.entries@[i].addr@ != #[trigger] self.entries@[j].addr@
    }

    fn new() -> (t: StatusTable)
        ensures
            t.wf(),
            t.model@ == Map::<Seq<char>, AddressStatus>::empty(),
    {
        StatusTable { entries: Vec::new(), model: Ghost(Map::empty()) }
    }

    fn find(&self, a: &Address) -> (r: Option<usize>)
        requires
            self.wf(),
        ensures
            match r {
                Some(i) => i < self.entries@.len() && self.entries@[i as int].addr@ == a@,
                None => !self.model@.dom().contains(a@),
            },
    {
        let n = self.entries.len();
        let mut i: usize = 0;
        while i < n
            invariant
                n == self.entries@.len(),
                i <= n,
                forall|j: int| 0 <= j < i ==> self.entries@[j].addr@ != a@,
            decreases n - i,
        {
            if self.entries[i].addr.same_as(a) {
                return Some(i);
            }
            i = i + 1;
        }
        None
    }

    fn get(&self, a: &Address) -> (r: Option<AddressStatus>)
        requires
            self.wf(),
        ensures
            r == (if self.model@.dom().contains(a@) {
                Some(self.model@[a@])
            } else {
                None
            }),
    {
        match self.find(a) {
            Some(i) => Some(self.entries[i].status),
            None => None,
        }
    }

    fn set(&mut self, a: &Address, st: AddressStatus)
        requires
            old(self).wf(),
        ensures
            final(self).wf(),
            final(self).model@ == old(self).model@.insert(a@, st),
    {
        let entry = StatusEntry { addr: a.duplicate(), status: st };
        let found = self.find(a);
        let ghost before = self.entries@;
        match found {
            Some(i) => {
                self.entries.set(i, entry);
            },
            None => {
                self.entries.push(entry);
            },
        }
        self.model = Ghost(self.model@.insert(a@, st));
        let ghost at: int = match found {
            Some(i) => i as int,
            None => before.len() as int,
        };
        assert(self.entries@[at].addr@ == a@);
        assert forall|k: Seq<char>| #[trigger] self.model@.dom().contains(k) implies exists|i: int|
            0 <= i < self.entries@.len() && #[trigger] self.entries@[i].addr@ == k by {
            if k != a@ {
                let i = choose|i: int|
                    0 <= i < before.len() && #[trigger] before[i].addr@ == k;
                assert(self.entries@[i].addr@ == k);
            }
        }
    }

    fn remove(&mut self, a: &Address)
        requires
            old(self).wf(),
        ensures
            final(self).wf(),
            final(self).model@ == old(self).model@.remove(a@),
    {
        let found = self.find(a);
        let ghost before = self.entries@;
        let ghost old_model = self.model@;
        match found {
            Some(i) => {
                self.entries.remove(i);
                assert forall|j: int| 0 <= j < self.entries@.len() implies #[trigger] self.entries@[j]
                    == (if j < i { before[j] } else { before[j + 1] }) by {}
            },
            None => {},
        }
        self.model = Ghost(self.model@.remove(a@));
        assert forall|j: int| 0 <= j < self.entries@.len() implies {
            &&& self.model@.dom().contains(#[trigger] self.entries@[j].addr@)
            &&& self.model@[self.entries@[j].addr@] == self.entries@[j].status
        } by {
            match found {
                Some(i) => {
                    let oj = if j < i { j } else { j + 1 };
                    assert(self.entries@[j] == before[oj]);
                    assert(before[oj].addr@ != before[i as int].addr@);
                },
                None => {},
            }
        }
        assert forall|k: Seq<char>| #[trigger] self.model@.dom().contains(k) implies exists|j: int|
            0 <= j < self.entries@.len() && #[trigger] self.entries@[j].addr@ == k by {
            let oi = choose|oi: int| 0 <= oi < before.len() && #[trigger] before[oi].addr@ == k;
            match found {
                Some(i) => {
                    assert(oi != i);
                    let j = if oi < i { oi } else { oi - 1 };
                    assert(self.entries@[j].addr@ == k);
                },
                None => {
                    assert(self.entries@[oi].addr@ == k);
                },
            }
        }
        assert forall|p: int, q: int|
            0 <= p < self.entries@.len() && 0 <= q < self.entries@.len() && p != q
                implies #[trigger] self.entries@[p].addr@ != #[trigger] self.entries@[q].addr@ by {
            match found {
                Some(i) => {
                    let op = if p < i { p } else { p + 1 };
                    let oq = if q < i { q } else { q + 1 };
                    assert(self.entries@[p] == before[op]);
                    assert(self.entries@[q] == before[oq]);
                },
                None => {},
            }
        }
    }
}


// ---------------------------------------------------------------------------
// The contract's state and its transitions
// ---------------------------------------------------------------------------

/// What the contract holds: its instance storage, plus the events it has
/// published and the storage writes it has made, oldest first.
#[verifier::ext_equal]
pub struct ComplianceState {
    pub admin: Option<Seq<char>>,
    pub paused: Option<bool>,
    pub pending_admin: Option<Seq<char>>,
    pub statuses: Map<Seq<char>, AddressStatus>,
    pub events: Seq<EventView>,
    pub writes: Seq<WriteView>,
}

/// Whether the contract is paused (no stored flag counts as not paused).
pub open spec fn paused_in(s: ComplianceState) -> bool {
    s.paused == Some(true)
}

/// The status of `a` (no stored status counts as `Cleared`).
pub open spec fn status_in(s: ComplianceState, a: Seq<char>) -> AddressStatus {
    if s.statuses.dom().contains(a) {
        s.statuses[a]
    } else {
        AddressStatus::Cleared
    }
}

/// Whether `a` is allowed at ledger time `now`.
pub open spec fn is_allowed_in(s: ComplianceState, a: Seq<char>, now: u64) -> bool {
    allowed_at(status_in(s, a), now)
}

pub open spec fn put_admin(s: ComplianceState, a: Seq<char>) -> ComplianceState {
    ComplianceState {
        admin: Some(a),
        writes: s.writes.push(WriteView::Put(KeyView::Admin, ValueView::Account(a))),
        ..s
    }
}

pub open spec fn put_paused(s: ComplianceState, b: bool) -> ComplianceState {
    ComplianceState {
        paused: Some(b),
        writes: s.writes.push(WriteView::Put(KeyView::Paused, ValueView::Flag(b))),
        ..s
    }
}

pub open spec fn put_pending(s: ComplianceState, a: Seq<char>) -> ComplianceState {
    ComplianceState {
        pending_admin: Some(a),
        writes: s.writes.push(WriteView::Put(KeyView::PendingAdmin, ValueView::Account(a))),
        ..s
    }
}

pub open spec fn delete_pending(s: ComplianceState) -> ComplianceState {
    ComplianceState {
        pending_admin: None,
        writes: s.writes.push(WriteView::Delete(KeyView::PendingAdmin)),
        ..s
    }
}

pub open spec fn put_status(s: ComplianceState, a: Seq<char>, st: AddressStatus) -> ComplianceState {
    ComplianceState {
        statuses: s.statuses.insert(a, st),
        writes: s.writes.push(WriteView::Put(KeyView::Status(a), ValueView::Status(st))),
        ..s
    }
}

pub open spec fn delete_status(s: ComplianceState, a: Seq<char>) -> ComplianceState {
    ComplianceState {
        statuses: s.statuses.remove(a),
        writes: s.writes.push(WriteView::Delete(KeyView::Status(a))),
        ..s
    }
}

pub open spec fn publish(s: ComplianceState, e: EventView) -> ComplianceState {
    ComplianceState { events: s.events.push(e), ..s }
}

/// The refusal, if any, of an admin operation requested by `admin`: a paused
/// contract refuses first, then anyone but the stored admin is refused.
pub open spec fn admin_gate(s: ComplianceState, admin: Seq<char>) -> Option<ContractError> {
    if paused_in(s) {
        Some(ContractError::ContractPaused)
    } else if s.admin != Some(admin) {
        Some(ContractError::Unauthorized)
    } else {
        None
    }
}

pub open spec fn initialize_spec(s: ComplianceState, admin: Seq<char>) -> ComplianceState {
    put_paused(put_admin(s, admin), false)
}

/// Sets the status of an address and publishes an event.
pub open spec fn gated_status_spec(
    s: ComplianceState,
    admin: Seq<char>,
    a: Seq<char>,
    st: AddressStatus,
    e: EventView,
) -> (ComplianceState, Result<(), ContractError>) {
    match admin_gate(s, admin) {
        Some(err) => (s, Err(err)),
        None => (publish(put_status(s, a, st), e), Ok(())),
    }
}

pub open spec fn allow_address_spec(s: ComplianceState, admin: Seq<char>, a: Seq<char>) -> (
    ComplianceState,
    Result<(), ContractError>,
) {
    gated_status_spec(s, admin, a, AddressStatus::Allowed, EventView::AddressAllowed(a))
}

pub open spec fn block_address_spec(s: ComplianceState, admin: Seq<char>, a: Seq<char>) -> (
    ComplianceState,
    Result<(), ContractError>,
) {
    gated_status_spec(s, admin, a, AddressStatus::Blocked, EventView::AddressBlocked(a))
}

pub open spec fn allow_address_until_spec(
    s: ComplianceState,
    admin: Seq<char>,
    a: Seq<char>,
    until: u64,
) -> (ComplianceState, Result<(), ContractError>) {
    gated_status_spec(
        s,
        admin,
        a,
        AddressStatus::AllowedUntil(until),
        EventView::AddressAllowedUntil(a, until),
    )
}

pub open spec fn transfer_admin_spec(s: ComplianceState, admin: Seq<char>, new_admin: Seq<char>) -> (
    ComplianceState,
    Result<(), ContractError>,
) {
    match admin_gate(s, admin) {
        Some(err) => (s, Err(err)),
        None => (put_pending(s, new_admin), Ok(())),
    }
}

pub open spec fn accept_admin_spec(s: ComplianceState, new_admin: Seq<char>) -> (
    ComplianceState,
    Result<(), ContractError>,
) {
    if s.pending_admin != Some(new_admin) {
        (s, Err(ContractError::Unauthorized))
    } else {
        (
            publish(
                delete_pending(put_admin(s, new_admin)),
                EventView::AdminAccepted(new_admin),
            ),
            Ok(()),
        )
    }
}

pub open spec fn clear_address_spec(s: ComplianceState, admin: Seq<char>, a: Seq<char>) -> (
    ComplianceState,
    Result<(), ContractError>,
) {
    match admin_gate(s, admin) {
        Some(err) => (s, Err(err)),
        None => if status_in(s, a) == AddressStatus::Cleared {
            (s, Err(ContractError::AddressNotFound))
        } else {
            (publish(delete_status(s, a), EventView::AddressCleared(a)), Ok(()))
        },
    }
}

/// Whether `a` holds a time-boxed grant that has run out at `now`.
pub open spec fn expired_in(s: ComplianceState, a: Seq<char>, now: u64) -> bool {
    match status_in(s, a) {
        AddressStatus::AllowedUntil(until) => now >= until,
        _ => false,
    }
}

/// One step of a sweep: removes `a`'s entry if its grant has run out.
pub open spec fn sweep_one(s: ComplianceState, a: Seq<char>, now: u64) -> (ComplianceState, nat) {
    if expired_in(s, a, now) {
        (publish(delete_status(s, a), EventView::AddressSwept(a)), 1)
    } else {
        (s, 0)
    }
}

/// A sweep over `addrs` in order, with the number of entries it removed.
pub open spec fn sweep_spec(s: ComplianceState, addrs: Seq<Seq<char>>, now: u64) -> (
    ComplianceState,
    nat,
)
    decreases addrs.len(),
{
    if addrs.len() == 0 {
        (s, 0)
    } else {
        let (t, n) = sweep_spec(s, addrs.drop_last(), now);
        let (u, m) = sweep_one(t, addrs.last(), now);
        (u, n + m)
    }
}

/// An optional address, by its text.
pub open spec fn opt_address(o: Option<Address>) -> Option<Seq<char>> {
    match o {
        Some(a) => Some(a@),
        None => None,
    }
}

/// The addresses of a batch, by their text.
pub open spec fn address_views(v: Seq<Address>) -> Seq<Seq<char>> {
    v.map_values(|a: Address| a@)
}

/// The compliance contract with its instance storage.
pub struct ComplianceContract {
    admin: Option<Address>,
    paused: Option<bool>,
    pending_admin: Option<Address>,
    table: StatusTable,
    events: Vec<ComplianceEvent>,
    writes: Vec<StorageWrite>,
}

impl View for ComplianceContract {
    type V = ComplianceState;

    closed spec fn view(&self) -> ComplianceState {
        ComplianceState {
            admin: opt_address(self.admin),
            paused: self.paused,
            pending_admin: opt_address(self.pending_admin),
            statuses: self.table.model@,
            events: self.events@.map_values(|e: ComplianceEvent| e@),
            writes: self.writes@.map_values(|w: StorageWrite| w@),
        }
    }
}

impl ComplianceContract {
    /// Well-formedness of the storage representation.
    pub closed spec fn wf(&self) -> bool {
        self.table.wf()
    }

    /// A contract with empty storage, as freshly deployed.
    pub fn new() -> (c: ComplianceContract)
        ensures
            c.wf(),
            c@.admin is None,
            c@.paused is None,
            c@.pending_admin is None,
            c@.statuses == Map::<Seq<char>, AddressStatus>::empty(),
            c@.events == Seq::<EventView>::empty(),
            c@.writes == Seq::<WriteView>::empty(),
    {
        let c = ComplianceContract {
            admin: None,
            paused: None,
            pending_admin: None,
            table: StatusTable::new(),
            events: Vec::new(),
            writes: Vec::new(),
        };
        assert(c@.events =~= Seq::<EventView>::empty());
        assert(c@.writes =~= Seq::<WriteView>::empty());
        c
    }

    /// Loads the admin, pause flag and pending admin as the storage holds them,
    /// without recording a write.
    pub fn restore_settings(
        &mut self,
        admin: Option<Address>,
        paused: Option<bool>,
        pending_admin: Option<Address>,
    )
        requires
            old(self).wf(),
        ensures
            final(self).wf(),
            final(self)@ == (ComplianceState {
                admin: opt_address(admin),
                paused: paused,
                pending_admin: opt_address(pending_admin),
                ..old(self)@
            }),
    {
        self.admin = admin;
        self.paused = paused;
        self.pending_admin = pending_admin;
    }

    /// Loads the status that the storage holds for `addr`, without recording a write.
    pub fn restore_status(&mut self, addr: &Address, status: AddressStatus)
        requires
            old(self).wf(),
        ensures
            final(self).wf(),
            final(self)@ == (ComplianceState {
                statuses: old(self)@.statuses.insert(addr@, status),
                ..old(self)@
            }),
    {
        self.table.set(addr, status);
    }

    /// Hands out the events published so far and forgets them.
    pub fn take_events(&mut self) -> (events: Vec<ComplianceEvent>)
        requires
            old(self).wf(),
        ensures
            final(self).wf(),
            events@.map_values(|e: ComplianceEvent| e@) == old(self)@.events,
            final(self)@ == (ComplianceState { events: Seq::empty(), ..old(self)@ }),
    {
        let mut taken: Vec<ComplianceEvent> = Vec::new();
        std::mem::swap(&mut taken, &mut self.events);
        assert(self@.events =~= Seq::<EventView>::empty());
        taken
    }

    /// Hands out the storage writes made so far, oldest first, and forgets them.
    pub fn take_writes(&mut self) -> (writes: Vec<StorageWrite>)
        requires
            old(self).wf(),
        ensures
            final(self).wf(),
            writes@.map_values(|w: StorageWrite| w@) == old(self)@.writes,
            final(self)@ == (ComplianceState { writes: Seq::empty(), ..old(self)@ }),
    {
        let mut taken: Vec<StorageWrite> = Vec::new();
        std::mem::swap(&mut taken, &mut self.writes);
        assert(self@.writes =~= Seq::<WriteView>::empty());
        taken
    }

    fn record(&mut self, w: StorageWrite)
        ensures
            final(self).admin == old(self).admin,
            final(self).paused == old(self).paused,
            final(self).pending_admin == old(self).pending_admin,
            final(self).table == old(self).table,
            final(self).events == old(self).events,
            final(self).writes@ == old(self).writes@.push(w),
    {
        self.writes.push(w);
    }

    fn emit(&mut self, e: ComplianceEvent)
        ensures
            final(self)@ == publish(old(self)@, e@),
            final(self).table == old(self).table,
    {
        let ghost before = self.events@;
        self.events.push(e);
        assert(self.events@.map_values(|x: ComplianceEvent| x@) =~= before.map_values(
            |x: ComplianceEvent| x@,
        ).push(e@));
        assert(self@ =~= publish(old(self)@, e@));
    }

    fn write_admin(&mut self, a: &Address)
        ensures
            final(self)@ == put_admin(old(self)@, a@),
            final(self).table == old(self).table,
    {
        self.admin = Some(a.duplicate());
        let ghost before = self.writes@;
        self.record(StorageWrite::Put(DataKey::Admin, StoredValue::Account(a.duplicate())));
        assert(self.writes@.map_values(|x: StorageWrite| x@) =~= before.map_values(
            |x: StorageWrite| x@,
        ).push(WriteView::Put(KeyView::Admin, ValueView::Account(a@))));
        assert(self@ =~= put_admin(old(self)@, a@));
    }

    fn write_paused(&mut self, b: bool)
        ensures
            final(self)@ == put_paused(old(self)@, b),
            final(self).table == old(self).table,
    {
        self.paused = Some(b);
        let ghost before = self.writes@;
        self.record(StorageWrite::Put(DataKey::Paused, StoredValue::Flag(b)));
        assert(self.writes@.map_values(|x: StorageWrite| x@) =~= before.map_values(
            |x: StorageWrite| x@,
        ).push(WriteView::Put(KeyView::Paused, ValueView::Flag(b))));
        assert(self@ =~= put_paused(old(self)@, b));
    }

    fn write_pending(&mut self, a: &Address)
        ensures
            final(self)@ == put_pending(old(self)@, a@),
            final(self).table == old(self).table,
    {
        self.pending_admin = Some(a.duplicate());
        let ghost before = self.writes@;
        self.record(StorageWrite::Put(DataKey::PendingAdmin, StoredValue::Account(a.duplicate())));
        assert(self.writes@.map_values(|x: StorageWrite| x@) =~= before.map_values(
            |x: StorageWrite| x@,
        ).push(WriteView::Put(KeyView::PendingAdmin, ValueView::Account(a@))));
        assert(self@ =~= put_pending(old(self)@, a@));
    }

    fn erase_pending(&mut self)
        ensures
            final(self)@ == delete_pending(old(self)@),
            final(self).table == old(self).table,
    {
        self.pending_admin = None;
        let ghost before = self.writes@;
        self.record(StorageWrite::Delete(DataKey::PendingAdmin));
        assert(self.writes@.map_values(|x: StorageWrite| x@) =~= before.map_values(
            |x: StorageWrite| x@,
        ).push(WriteView::Delete(KeyView::PendingAdmin)));
        assert(self@ =~= delete_pending(old(self)@));
    }

    fn write_status(&mut self, a: &Address, st: AddressStatus)
        requires
            old(self).wf(),
        ensures
            final(self).wf(),
            final(self)@ == put_status(old(self)@, a@, st),
    {
        self.table.set(a, st);
        let ghost before = self.writes@;
        self.record(StorageWrite::Put(DataKey::Status(a.duplicate()), StoredValue::Status(st)));
        assert(self.writes@.map_values(|x: StorageWrite| x@) =~= before.map_values(
            |x: StorageWrite| x@,
        ).push(WriteView::Put(KeyView::Status(a@), ValueView::Status(st))));
        assert(self@ =~= put_status(old(self)@, a@, st));
    }

    fn erase_status(&mut self, a: &Address)
        requires
            old(self).wf(),
        ensures
            final(self).wf(),
            final(self)@ == delete_status(old(self)@, a@),
    {
        self.table.remove(a);
        let ghost before = self.writes@;
        self.record(StorageWrite::Delete(DataKey::Status(a.duplicate())));
        assert(self.writes@.map_values(|x: StorageWrite| x@) =~= before.map_values(
            |x: StorageWrite| x@,
        ).push(WriteView::Delete(KeyView::Status(a@))));
        assert(self@ =~= delete_status(old(self)@, a@));
    }

    /// Whether the contract is paused; a contract with no stored flag is not.
    pub fn is_paused(&self) -> (r: bool)
        ensures
            r == paused_in(self@),
    {
        match self.paused {
            Some(b) => b,
            None => false,
        }
    }

    /// `Err(ContractPaused)` while the contract is paused, `Ok(())` otherwise.
    pub fn check_not_paused(&self) -> (r: Result<(), ContractError>)
        ensures
            r == (if paused_in(self@) {
                Err::<(), ContractError>(ContractError::ContractPaused)
            } else {
                Ok(())
            }),
    {
        if self.is_paused() {
            Err(ContractError::ContractPaused)
        } else {
            Ok(())
        }
    }

    fn gate(&self, admin: &Address) -> (r: Option<ContractError>)
        ensures
            r == admin_gate(self@, admin@),
    {
        if self.is_paused() {
            return Some(ContractError::ContractPaused);
        }
        match &self.admin {
            Some(a) => if a.same_as(admin) {
                None
            } else {
                Some(ContractError::Unauthorized)
            },
            None => Some(ContractError::Unauthorized),
        }
    }

    /// Stores `admin` as the contract admin and clears the pause flag.
    pub fn initialize(&mut self, admin: &Address)
        requires
            old(self).wf(),
        ensures
            final(self).wf(),
            final(self)@ == initialize_spec(old(self)@, admin@),
    {
        self.write_admin(admin);
        self.write_paused(false);
    }

    /// Whether `addr` is allowed at ledger time `now`: a permanent grant always
    /// is, a time-boxed one only strictly before its expiry, nothing else is.
    pub fn is_allowed(&self, addr: &Address, now: u64) -> (r: bool)
        requires
            self.wf(),
        ensures
            r == is_allowed_in(self@, addr@, now),
    {
        match self.get_address_status(addr) {
            AddressStatus::Allowed => true,
            AddressStatus::AllowedUntil(until) => now < until,
            AddressStatus::Blocked => false,
            AddressStatus::Cleared => false,
        }
    }

    /// The status of `addr`, `Cleared` where none is stored.
    pub fn get_address_status(&self, addr: &Address) -> (r: AddressStatus)
        requires
            self.wf(),
        ensures
            r == status_in(self@, addr@),
    {
        match self.table.get(addr) {
            Some(st) => st,
            None => AddressStatus::Cleared,
        }
    }

    fn gated_status(
        &mut self,
        admin: &Address,
        addr: &Address,
        st: AddressStatus,
        e: ComplianceEvent,
    ) -> (r: Result<(), ContractError>)
        requires
            old(self).wf(),
        ensures
            final(self).wf(),
            (final(self)@, r) == gated_status_spec(old(self)@, admin@, addr@, st, e@),
    {
        match self.gate(admin) {
            Some(err) => Err(err),
            None => {
                self.write_status(addr, st);
                self.emit(e);
                Ok(())
            },
        }
    }

    /// Permanently allows `addr`; refused while paused or when `admin` is not
    /// the contract admin.
    pub fn allow_address(&mut self, admin: &Address, addr: &Address) -> (r: Result<
        (),
        ContractError,
    >)
        requires
            old(self).wf(),
        ensures
            final(self).wf(),
            (final(self)@, r) == allow_address_spec(old(self)@, admin@, addr@),
    {
        self.gated_status(admin, addr, AddressStatus::Allowed, ComplianceEvent::AddressAllowed(addr.duplicate()))
    }

    /// Blocks `addr`; refused while paused or when `admin` is not the contract admin.
    pub fn block_address(&mut self, admin: &Address, addr: &Address) -> (r: Result<
        (),
        ContractError,
    >)
        requires
            old(self).wf(),
        ensures
            final(self).wf(),
            (final(self)@, r) == block_address_spec(old(self)@, admin@, addr@),
    {
        self.gated_status(admin, addr, AddressStatus::Blocked, ComplianceEvent::AddressBlocked(addr.duplicate()))
    }

    /// Allows `addr` until the Unix timestamp `until`; refused while paused or
    /// when `admin` is not the contract admin.
    pub fn allow_address_until(&mut self, admin: &Address, addr: &Address, until: u64) -> (r:
        Result<(), ContractError>)
        requires
            old(self).wf(),
        ensures
            final(self).wf(),
            (final(self)@, r) == allow_address_until_spec(old(self)@, admin@, addr@, until),
    {
        self.gated_status(
            admin,
            addr,
            AddressStatus::AllowedUntil(until),
            ComplianceEvent::AddressAllowedUntil(addr.duplicate(), until),
        )
    }

    /// Nominates `new_admin`; the admin changes only when the nominee accepts.
    /// Refused while paused or when `admin` is not the contract admin.
    pub fn transfer_admin(&mut self, admin: &Address, new_admin: &Address) -> (r: Result<
        (),
        ContractError,
    >)
        requires
            old(self).wf(),
        ensures
            final(self).wf(),
            (final(self)@, r) == transfer_admin_spec(old(self)@, admin@, new_admin@),
    {
        match self.gate(admin) {
            Some(err) => Err(err),
            None => {
                self.write_pending(new_admin);
                Ok(())
            },
        }
    }

    /// Makes the nominated `new_admin` the admin; refused with `Unauthorized`
    /// when no nomination is pending or another address was nominated.
    pub fn accept_admin(&mut self, new_admin: &Address) -> (r: Result<(), ContractError>)
        requires
            old(self).wf(),
        ensures
            final(self).wf(),
            (final(self)@, r) == accept_admin_spec(old(self)@, new_admin@),
    {
        let nominated = match &self.pending_admin {
            Some(p) => p.same_as(new_admin),
            None => false,
        };
        if !nominated {
            return Err(ContractError::Unauthorized);
        }
        self.write_admin(new_admin);
        self.erase_pending();
        self.emit(ComplianceEvent::AdminAccepted(new_admin.duplicate()));
        Ok(())
    }

    /// Removes the stored status of `addr`; `AddressNotFound` when it has none.
    /// Refused while paused or when `admin` is not the contract admin.
    pub fn clear_address(&mut self, admin: &Address, addr: &Address) -> (r: Result<
        (),
        ContractError,
    >)
        requires
            old(self).wf(),
        ensures
            final(self).wf(),
            (final(self)@, r) == clear_address_spec(old(self)@, admin@, addr@),
    {
        if let Some(err) = self.gate(admin) {
            return Err(err);
        }
        match self.get_address_status(addr) {
            AddressStatus::Cleared => Err(ContractError::AddressNotFound),
            _ => {
                self.erase_status(addr);
                self.emit(ComplianceEvent::AddressCleared(addr.duplicate()));
                Ok(())
            },
        }
    }

    fn sweep_address(&mut self, addr: &Address, now: u64) -> (swept: bool)
        requires
            old(self).wf(),
        ensures
            final(self).wf(),
            (final(self)@, if swept { 1nat } else { 0nat }) == sweep_one(old(self)@, addr@, now),
    {
        match self.get_address_status(addr) {
            AddressStatus::AllowedUntil(until) => {
                if now >= until {
                    self.erase_status(addr);
                    self.emit(ComplianceEvent::AddressSwept(addr.duplicate()));
                    true
                } else {
                    false
                }
            },
            _ => false,
        }
    }

    /// Removes, in batch order, the entries of the addresses whose time-boxed
    /// grant has run out at `now`, and returns how many it removed. Other
    /// entries are left as they are. `admin` authorizes the sweep; its
    /// signature is checked by the host.
    pub fn sweep_expired(&mut self, admin: &Address, addresses: &Vec<Address>, now: u64) -> (swept:
        u32)
        requires
            old(self).wf(),
            addresses@.len() <= u32::MAX,
        ensures
            final(self).wf(),
            (final(self)@, swept as nat) == sweep_spec(old(self)@, address_views(addresses@), now),
    {
        let ghost views = address_views(addresses@);
        let mut swept: u32 = 0;
        let n = addresses.len();
        let mut i: usize = 0;
        assert(views.take(0) =~= Seq::<Seq<char>>::empty());
        while i < n
            invariant
                n == addresses@.len(),
                n <= u32::MAX,
                i <= n,
                swept <= i,
                views == address_views(addresses@),
                self.wf(),
                (self@, swept as nat) == sweep_spec(old(self)@, views.take(i as int), now),
            decreases n - i,
        {
            assert(views.take(i + 1).drop_last() =~= views.take(i as int));
            assert(views.take(i + 1).last() == addresses@[i as int]@);
            if self.sweep_address(&addresses[i], now) {
                swept = swept + 1;
            }
            i = i + 1;
        }
        assert(views.take(n as int) =~= views);
        swept
    }

    /// Pauses the contract. `admin` authorizes the call; its signature is
    /// checked by the host.
    pub fn pause(&mut self, admin: &Address)
        requires
            old(self).wf(),
        ensures
            final(self).wf(),
            final(self)@ == put_paused(old(self)@, true),
    {
        self.write_paused(true);
    }

    /// Lifts a pause. `admin` authorizes the call; its signature is checked by
    /// the host.
    pub fn unpause(&mut self, admin: &Address)
        requires
            old(self).wf(),
        ensures
            final(self).wf(),
            final(self)@ == put_paused(old(self)@, false),
    {
        self.write_paused(false);
    }
}

} // verus!
