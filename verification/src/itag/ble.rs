//! Discovery of iTag candidates among BLE advertisements.
//!
//! The scanner keeps a cache of 64 recently seen candidates. A device
//! becomes a candidate when it advertises one of the iTag service UUIDs or
//! the iTag manufacturer identifier. Sightings of a candidate are passed on
//! to the application, but only when something worth reporting changed:
//! the first sighting, a newly learned name, a signal change of 2 dBm or
//! more, or 1.5 s since the last report. When the cache is full, slots are
//! reused round-robin.

use vstd::prelude::*;
use vstd::string::StringSliceAdditionalSpecFns;
use vstd::utf8::valid_utf8;
use crate::itag::BleAddress;
use crate::itag::events::BleEvent;
use crate::itag::advertising::{
    advertised_name, has_manufacturer_data, has_service_uuid16, str_from_utf8, string_bytes,
    spec_advertised_name, ad_structures, lists_uuid, is_manufacturer,
};

verus! {

/// A signal change that is worth reporting, in dBm.
pub const RSSI_EMIT_THRESHOLD_DBM: i16 = 2;

/// A sighting is reported at least this often, in microseconds.
pub const MIN_EMIT_INTERVAL: u64 = 1_500_000;

/// Slots in the candidate cache.
pub const CACHE_SLOTS: usize = 64;

/// Longest name kept, in bytes.
pub const NAME_CAPACITY: usize = 32;

/// Service UUIDs an iTag advertises.
pub const ITAG_SERVICE_UUIDS: [u16; 3] = [0xFFE0, 0x1802, 0x1803];

/// Manufacturer identifier an iTag advertises.
pub const ITAG_MANUFACTURER_ID: u16 = 0x0105;

/// What the scanner knows about one candidate.
#[derive(Debug, Clone, Copy)]
pub struct DiscoveryState {
    pub addr: Option<[u8; 6]>,
    /// The name's bytes; only the first `name_len` are meaningful.
    pub name: [u8; 32],
    pub name_len: u8,
    pub service_found: bool,
    pub mfg_found: bool,
    pub last_emitted_rssi: i8,
    /// When the candidate was last reported, if ever.
    pub last_emit_at: Option<u64>,
    pub emitted_with_name: bool,
}

/// A [`DiscoveryState`] with its byte arrays as sequences.
pub ghost struct DiscoveryView {
    pub addr: Option<Seq<u8>>,
    pub name: Seq<u8>,
    pub name_len: int,
    pub service_found: bool,
    pub mfg_found: bool,
    pub last_emitted_rssi: i8,
    pub last_emit_at: Option<u64>,
    pub emitted_with_name: bool,
}

impl View for DiscoveryState {
    type V = DiscoveryView;

    open spec fn view(&self) -> DiscoveryView {
        DiscoveryView {
            addr: match self.addr {
                Some(a) => Some(a@),
                None => None,
            },
            name: self.name@,
            name_len: self.name_len as int,
            service_found: self.service_found,
            mfg_found: self.mfg_found,
            last_emitted_rssi: self.last_emitted_rssi,
            last_emit_at: self.last_emit_at,
            emitted_with_name: self.emitted_with_name,
        }
    }
}

/// A candidate nobody has seen: no address, no name, nothing found.
pub open spec fn empty_view() -> DiscoveryView {
    DiscoveryView {
        addr: None,
        name: Seq::new(32, |i: int| 0u8),
        name_len: 0,
        service_found: false,
        mfg_found: false,
        last_emitted_rssi: 0,
        last_emit_at: None,
        emitted_with_name: false,
    }
}

/// The bytes of an optional name.
pub open spec fn name_bytes(name: Option<&str>) -> Option<Seq<u8>> {
    match name {
        Some(s) => Some(s.spec_bytes()),
        None => None,
    }
}

/// The state after storing a name: its first 32 bytes.
pub open spec fn named(v: DiscoveryView, name: Option<Seq<u8>>) -> DiscoveryView {
    match name {
        None => v,
        Some(b) => {
            let len = if b.len() < 32 {
                b.len() as int
            } else {
                32
            };
            DiscoveryView { name: b.take(len) + v.name.skip(len), name_len: len, ..v }
        },
    }
}

/// Whether the candidate is identified as an iTag.
pub open spec fn spec_is_complete(v: DiscoveryView) -> bool {
    v.service_found || v.mfg_found
}

/// Whether a sighting at `now` with signal `rssi` is worth reporting.
pub open spec fn spec_should_emit(v: DiscoveryView, rssi: i8, now: u64) -> bool {
    match v.last_emit_at {
        None => true,
        Some(t) => {
            let delta = rssi - v.last_emitted_rssi;
            ||| v.name_len > 0 && !v.emitted_with_name
            ||| delta >= RSSI_EMIT_THRESHOLD_DBM
            ||| -delta >= RSSI_EMIT_THRESHOLD_DBM
            ||| now - t >= MIN_EMIT_INTERVAL
        },
    }
}

/// The state after a report at `now` with signal `rssi`.
pub open spec fn marked(v: DiscoveryView, rssi: i8, now: u64) -> DiscoveryView {
    DiscoveryView {
        last_emitted_rssi: rssi,
        last_emit_at: Some(now),
        emitted_with_name: v.name_len > 0,
        ..v
    }
}

/// A name learned since the last report is always worth reporting, whatever
/// the signal and however soon after that report.
pub proof fn law_newly_learned_name_is_reported(v: DiscoveryView, rssi: i8, now: u64)
    requires
        v.last_emit_at is Some,
        v.name_len > 0,
        !v.emitted_with_name,
    ensures
        spec_should_emit(v, rssi, now),
{
}

/// A candidate reported before its name was known, whose name is then
/// stored, is reported again at its next sighting, whatever the signal and
/// however soon.
pub proof fn law_name_after_nameless_report_is_reported(
    v: DiscoveryView,
    reported_rssi: i8,
    reported_at: u64,
    name: Seq<u8>,
    rssi: i8,
    now: u64,
)
    requires
        v.name_len == 0,
        name.len() > 0,
    ensures
        !marked(v, reported_rssi, reported_at).emitted_with_name,
        spec_should_emit(named(marked(v, reported_rssi, reported_at), Some(name)), rssi, now),
{
    law_newly_learned_name_is_reported(
        named(marked(v, reported_rssi, reported_at), Some(name)),
        rssi,
        now,
    );
}

impl Default for DiscoveryState {
    fn default() -> (s: Self)
        ensures
            s@ == empty_view(),
    {
        let s = DiscoveryState {
            addr: None,
            name: [0u8; 32],
            name_len: 0,
            service_found: false,
            mfg_found: false,
            last_emitted_rssi: 0,
            last_emit_at: None,
            emitted_with_name: false,
        };
        assert(s.name@ =~= Seq::new(32, |i: int| 0u8));
        s
    }
}

impl DiscoveryState {
    /// The stored name length fits the name array.
    pub open spec fn wf(&self) -> bool {
        self.name_len <= 32
    }

    /// Either an iTag service or the iTag manufacturer data is enough to
    /// identify the device as an iTag.
    pub fn is_complete(&self) -> (b: bool)
        ensures
            b == spec_is_complete(self@),
    {
        self.service_found || self.mfg_found
    }

    /// The stored name, if there is one and it is valid UTF-8.
    pub fn name_as_str(&self) -> (s: Option<&str>)
        requires
            self.wf(),
        ensures
            s is Some <==> self.name_len > 0 && valid_utf8(self.name@.take(self.name_len as int)),
            s matches Some(t) ==> t.spec_bytes() == self.name@.take(self.name_len as int),
    {
        if self.name_len == 0 {
            None
        } else {
            str_from_utf8(vstd::slice::slice_subrange(self.name.as_slice(), 0, self.name_len as usize))
        }
    }

    /// Store a name, truncated to 32 bytes; `None` keeps the current name.
    pub fn set_name(&mut self, name: Option<&str>)
        ensures
            final(self)@ == named(old(self)@, name_bytes(name)),
            final(self).wf() || name is None,
    {
        if let Some(n) = name {
            let bytes = n.as_bytes();
            let len: usize = if bytes.len() < NAME_CAPACITY {
                bytes.len()
            } else {
                NAME_CAPACITY
            };
            let mut k: usize = 0;
            while k < len
                invariant
                    k <= len,
                    len <= 32,
                    len <= bytes@.len(),
                    self.addr == old(self).addr,
                    self.name_len == old(self).name_len,
                    self.service_found == old(self).service_found,
                    self.mfg_found == old(self).mfg_found,
                    self.last_emitted_rssi == old(self).last_emitted_rssi,
                    self.last_emit_at == old(self).last_emit_at,
                    self.emitted_with_name == old(self).emitted_with_name,
                    forall|j: int| 0 <= j < k ==> self.name@[j] == bytes@[j],
                    forall|j: int| k <= j < 32 ==> self.name@[j] == old(self).name@[j],
                decreases len - k,
            {
                self.name[k] = bytes[k];
                k = k + 1;
            }
            self.name_len = len as u8;
            assert(self.name@ =~= bytes@.take(len as int) + old(self).name@.skip(len as int));
        }
    }

    /// Whether a sighting at `now` with signal `rssi` is worth reporting:
    /// the first one always is; later ones when the name was learned since
    /// the last report, the signal moved by 2 dBm or more, or 1.5 s passed.
    pub fn should_emit(&self, rssi: i8, now: u64) -> (b: bool)
        requires
            self.last_emit_at matches Some(t) ==> t <= now,
        ensures
            b == spec_should_emit(self@, rssi, now),
    {
        match self.last_emit_at {
            None => true,
            Some(last_emit_at) => {
                let diff: i16 = rssi as i16 - self.last_emitted_rssi as i16;
                let rssi_delta: i16 = if diff < 0 {
                    -diff
                } else {
                    diff
                };
                let name_gained = self.name_len > 0 && !self.emitted_with_name;
                name_gained || rssi_delta >= RSSI_EMIT_THRESHOLD_DBM || now - last_emit_at
                    >= MIN_EMIT_INTERVAL
            },
        }
    }

    /// Record a report at `now` with signal `rssi`.
    pub fn mark_emitted(&mut self, rssi: i8, now: u64)
        ensures
            final(self)@ == marked(old(self)@, rssi, now),
    {
        self.last_emitted_rssi = rssi;
        self.last_emit_at = Some(now);
        self.emitted_with_name = self.name_len > 0;
    }
}

/// Whether a cache slot holds the candidate with address `addr`.
pub open spec fn slot_has(slot: Option<DiscoveryView>, addr: Seq<u8>) -> bool {
    slot matches Some(s) && s.addr == Some(addr)
}

/// `i` is the first slot holding `addr`.
pub open spec fn first_slot_with(slots: Seq<Option<DiscoveryView>>, addr: Seq<u8>, i: int) -> bool {
    &&& 0 <= i < slots.len()
    &&& slot_has(slots[i], addr)
    &&& forall|j: int| 0 <= j < i ==> !slot_has(#[trigger] slots[j], addr)
}

/// `i` is the first empty slot.
pub open spec fn first_empty_slot(slots: Seq<Option<DiscoveryView>>, i: int) -> bool {
    &&& 0 <= i < slots.len()
    &&& slots[i] is None
    &&& forall|j: int| 0 <= j < i ==> (#[trigger] slots[j]) is Some
}

/// A known candidate after a new sighting: a name is stored if it had none,
/// and the found markers only ever switch on.
pub open spec fn refreshed_view(v: DiscoveryView, name: Option<Seq<u8>>, svc: bool, mfg: bool) -> DiscoveryView {
    let v1 = if name is Some && v.name_len == 0 {
        named(v, name)
    } else {
        v
    };
    DiscoveryView { service_found: v1.service_found || svc, mfg_found: v1.mfg_found || mfg, ..v1 }
}

/// A new candidate from its first sighting.
pub open spec fn new_candidate(addr: Seq<u8>, name: Option<Seq<u8>>, svc: bool, mfg: bool) -> DiscoveryView {
    let v = named(empty_view(), name);
    DiscoveryView { addr: Some(addr), service_found: svc, mfg_found: mfg, ..v }
}

/// The cache, the round-robin position and the report after a sighting.
pub open spec fn spec_update_device(
    slots: Seq<Option<DiscoveryView>>,
    next: int,
    addr: Seq<u8>,
    name: Option<Seq<u8>>,
    svc: bool,
    mfg: bool,
    rssi: i8,
    now: u64,
) -> (Seq<Option<DiscoveryView>>, int, Option<DiscoveryView>) {
    if exists|i: int| first_slot_with(slots, addr, i) {
        let i = choose|i: int| first_slot_with(slots, addr, i);
        let s = refreshed_view(slots[i]->Some_0, name, svc, mfg);
        if spec_is_complete(s) && spec_should_emit(s, rssi, now) {
            let m = marked(s, rssi, now);
            (slots.update(i, Some(m)), next, Some(m))
        } else {
            (slots.update(i, Some(s)), next, None)
        }
    } else if svc || mfg {
        let c = marked(new_candidate(addr, name, svc, mfg), rssi, now);
        if exists|j: int| first_empty_slot(slots, j) {
            let j = choose|j: int| first_empty_slot(slots, j);
            (slots.update(j, Some(c)), next, Some(c))
        } else {
            (slots.update(next, Some(c)), (next + 1) % (CACHE_SLOTS as int), Some(c))
        }
    } else {
        (slots, next, None)
    }
}

/// No two cache slots hold the same address.
pub open spec fn slots_unique(slots: Seq<Option<DiscoveryView>>) -> bool {
    forall|i: int, j: int, a: Seq<u8>|
        0 <= i < j < slots.len() ==> !(#[trigger] slot_has(slots[i], a) && #[trigger] slot_has(slots[j], a))
}

proof fn lemma_some_slot_has_first(slots: Seq<Option<DiscoveryView>>, addr: Seq<u8>, k: int)
    requires
        0 <= k < slots.len(),
        slot_has(slots[k], addr),
    ensures
        exists|i: int| first_slot_with(slots, addr, i),
    decreases k,
{
    if forall|j: int| 0 <= j < k ==> !slot_has(#[trigger] slots[j], addr) {
        assert(first_slot_with(slots, addr, k));
    } else {
        let j = choose|j: int| 0 <= j < k && slot_has(#[trigger] slots[j], addr);
        lemma_some_slot_has_first(slots, addr, j);
    }
}

/// A sighting never caches an address twice: a cached candidate is updated
/// in its slot, and a new one only takes a slot when no slot holds its
/// address.
pub proof fn law_sighting_keeps_cache_unique(
    slots: Seq<Option<DiscoveryView>>,
    next: int,
    addr: Seq<u8>,
    name: Option<Seq<u8>>,
    svc: bool,
    mfg: bool,
    rssi: i8,
    now: u64,
)
    requires
        slots_unique(slots),
        0 <= next < slots.len(),
    ensures
        slots_unique(spec_update_device(slots, next, addr, name, svc, mfg, rssi, now).0),
{
    let r = spec_update_device(slots, next, addr, name, svc, mfg, rssi, now).0;
    if exists|i: int| first_slot_with(slots, addr, i) {
        let i = choose|i: int| first_slot_with(slots, addr, i);
        assert forall|a: int, b: int, x: Seq<u8>| 0 <= a < b < r.len() implies !(#[trigger] slot_has(
            r[a],
            x,
        ) && #[trigger] slot_has(r[b], x)) by {
            assert(slot_has(r[a], x) == slot_has(slots[a], x));
            assert(slot_has(r[b], x) == slot_has(slots[b], x));
        }
    } else if svc || mfg {
        let place = if exists|j: int| first_empty_slot(slots, j) {
            choose|j: int| first_empty_slot(slots, j)
        } else {
            next
        };
        assert forall|k: int| 0 <= k < slots.len() implies !slot_has(#[trigger] slots[k], addr) by {
            if slot_has(slots[k], addr) {
                lemma_some_slot_has_first(slots, addr, k);
            }
        }
        assert forall|a: int, b: int, x: Seq<u8>| 0 <= a < b < r.len() implies !(#[trigger] slot_has(
            r[a],
            x,
        ) && #[trigger] slot_has(r[b], x)) by {
            if a == place {
                assert(slot_has(r[a], x) ==> x == addr);
                assert(!slot_has(slots[b], addr));
            } else if b == place {
                assert(slot_has(r[b], x) ==> x == addr);
                assert(!slot_has(slots[a], addr));
            } else {
                assert(r[a] == slots[a] && r[b] == slots[b]);
            }
        }
    }
}

/// The cache's invariant: 64 slots, the eviction position among them, no
/// address in two slots, and every stored candidate has an address and an
/// iTag marker (only a sighting with a marker fills a slot).
pub open spec fn cache_invariant(slots: Seq<Option<DiscoveryView>>, next: int) -> bool {
    &&& slots.len() == CACHE_SLOTS
    &&& 0 <= next < CACHE_SLOTS
    &&& slots_unique(slots)
    &&& forall|i: int|
        0 <= i < slots.len() ==> (#[trigger] slots[i] matches Some(s) ==> s.addr is Some && spec_is_complete(s))
}

proof fn lemma_empty_cache_invariant()
    ensures
        cache_invariant(Seq::new(CACHE_SLOTS as nat, |i: int| None::<DiscoveryView>), 0),
{
    let e = Seq::new(CACHE_SLOTS as nat, |i: int| None::<DiscoveryView>);
    assert forall|i: int, j: int, a: Seq<u8>| 0 <= i < j < e.len() implies !(#[trigger] slot_has(e[i], a)
        && #[trigger] slot_has(e[j], a)) by {
        assert(e[i] is None);
    }
}

/// A sighting keeps the cache's invariant, never empties a slot, and moves
/// the eviction position only when it evicts.
pub proof fn law_sighting_keeps_cache_invariant(
    slots: Seq<Option<DiscoveryView>>,
    next: int,
    addr: Seq<u8>,
    name: Option<Seq<u8>>,
    svc: bool,
    mfg: bool,
    rssi: i8,
    now: u64,
)
    requires
        cache_invariant(slots, next),
    ensures
        cache_invariant(
            spec_update_device(slots, next, addr, name, svc, mfg, rssi, now).0,
            spec_update_device(slots, next, addr, name, svc, mfg, rssi, now).1,
        ),
        forall|i: int|
            0 <= i < slots.len() && (#[trigger] slots[i]) is Some ==> spec_update_device(
                slots,
                next,
                addr,
                name,
                svc,
                mfg,
                rssi,
                now,
            ).0[i] is Some,
        spec_update_device(slots, next, addr, name, svc, mfg, rssi, now).1 == next || (!(exists|k: int|
            first_slot_with(slots, addr, k)) && (svc || mfg) && (forall|k: int|
            0 <= k < slots.len() ==> (#[trigger] slots[k]) is Some)
            && spec_update_device(slots, next, addr, name, svc, mfg, rssi, now).1 == (next + 1)
            % (CACHE_SLOTS as int)),
{
    law_sighting_keeps_cache_unique(slots, next, addr, name, svc, mfg, rssi, now);
    let r = spec_update_device(slots, next, addr, name, svc, mfg, rssi, now);
    if exists|i: int| first_slot_with(slots, addr, i) {
        let i = choose|i: int| first_slot_with(slots, addr, i);
        assert forall|k: int| 0 <= k < r.0.len() implies (#[trigger] r.0[k] matches Some(s) ==> s.addr is Some
            && spec_is_complete(s)) by {
            if k != i {
                assert(r.0[k] == slots[k]);
            }
        }
    } else if svc || mfg {
        if exists|j: int| first_empty_slot(slots, j) {
            let j = choose|j: int| first_empty_slot(slots, j);
            assert forall|k: int| 0 <= k < r.0.len() implies (#[trigger] r.0[k] matches Some(s) ==> s.addr
                is Some && spec_is_complete(s)) by {
                if k != j {
                    assert(r.0[k] == slots[k]);
                }
            }
        } else {
            assert forall|k: int| 0 <= k < slots.len() implies (#[trigger] slots[k]) is Some by {
                if slots[k] is None {
                    assert(first_empty_slot(slots, k) || exists|j: int| first_empty_slot(slots, j)) by {
                        lemma_some_empty_has_first(slots, k);
                    }
                }
            }
            assert forall|k: int| 0 <= k < r.0.len() implies (#[trigger] r.0[k] matches Some(s) ==> s.addr
                is Some && spec_is_complete(s)) by {
                if k != next {
                    assert(r.0[k] == slots[k]);
                }
            }
        }
    }
}

proof fn lemma_some_empty_has_first(slots: Seq<Option<DiscoveryView>>, k: int)
    requires
        0 <= k < slots.len(),
        slots[k] is None,
    ensures
        exists|i: int| first_empty_slot(slots, i),
    decreases k,
{
    if forall|j: int| 0 <= j < k ==> (#[trigger] slots[j]) is Some {
        assert(first_empty_slot(slots, k));
    } else {
        let j = choose|j: int| 0 <= j < k && (#[trigger] slots[j]) is None;
        lemma_some_empty_has_first(slots, j);
    }
}

/// One sighting as the cache sees it.
pub ghost struct Sighting {
    pub addr: Seq<u8>,
    pub name: Option<Seq<u8>>,
    pub svc: bool,
    pub mfg: bool,
    pub rssi: i8,
    pub now: u64,
}

/// The cache's slots, eviction position and number of evictions after
/// `sightings`, starting from an empty cache.
pub open spec fn cache_after(sightings: Seq<Sighting>) -> (Seq<Option<DiscoveryView>>, int, nat)
    decreases sightings.len(),
{
    if sightings.len() == 0 {
        (Seq::new(CACHE_SLOTS as nat, |i: int| None::<DiscoveryView>), 0, 0)
    } else {
        let (slots, next, evictions) = cache_after(sightings.drop_last());
        let s = sightings.last();
        let r = spec_update_device(slots, next, s.addr, s.name, s.svc, s.mfg, s.rssi, s.now);
        (r.0, r.1, if r.1 != next { evictions + 1 } else { evictions })
    }
}

/// Over any sequence of sightings from an empty cache, no address ever
/// takes two slots, only marked devices are stored, and the slot the next
/// eviction overwrites is the number of evictions so far, modulo 64.
pub proof fn law_cache_over_sightings(sightings: Seq<Sighting>)
    ensures
        cache_invariant(cache_after(sightings).0, cache_after(sightings).1),
        cache_after(sightings).1 == (cache_after(sightings).2 as int) % (CACHE_SLOTS as int),
    decreases sightings.len(),
{
    if sightings.len() == 0 {
        lemma_empty_cache_invariant();
    } else {
        law_cache_over_sightings(sightings.drop_last());
        let (slots, next, evictions) = cache_after(sightings.drop_last());
        let s = sightings.last();
        law_sighting_keeps_cache_invariant(slots, next, s.addr, s.name, s.svc, s.mfg, s.rssi, s.now);
        let r = spec_update_device(slots, next, s.addr, s.name, s.svc, s.mfg, s.rssi, s.now);
        if r.1 != next {
            assert(r.1 == (next + 1) % 64);
            assert(((evictions as int) % 64 + 1) % 64 == ((evictions as int) + 1) % 64) by (nonlinear_arith);
        }
    }
}

/// A sighting without an iTag marker of an address the cache does not hold
/// changes nothing and reports nothing.
pub proof fn law_unmarked_unknown_device_is_ignored(
    slots: Seq<Option<DiscoveryView>>,
    next: int,
    addr: Seq<u8>,
    name: Option<Seq<u8>>,
    rssi: i8,
    now: u64,
)
    requires
        forall|k: int| 0 <= k < slots.len() ==> !slot_has(#[trigger] slots[k], addr),
    ensures
        spec_update_device(slots, next, addr, name, false, false, rssi, now) == (slots, next, None::<
            DiscoveryView,
        >),
{
    if exists|i: int| first_slot_with(slots, addr, i) {
        let i = choose|i: int| first_slot_with(slots, addr, i);
        assert(!slot_has(slots[i], addr));
    }
}

/// The view of an optional state.
pub open spec fn slot_view(slot: Option<DiscoveryState>) -> Option<DiscoveryView> {
    match slot {
        Some(s) => Some(s@),
        None => None,
    }
}

/// Whether two device addresses are the same.
pub fn bd_addr_equal(a: &[u8; 6], b: &[u8; 6]) -> (r: bool)
    ensures
        r == (a@ == b@),
{
    let mut i: usize = 0;
    while i < 6
        invariant
            i <= 6,
            forall|j: int| 0 <= j < i ==> a@[j] == b@[j],
        decreases 6 - i,
    {
        if a[i] != b[i] {
            return false;
        }
        i = i + 1;
    }
    assert(a@ =~= b@);
    true
}

/// The advertisement handler's candidate cache.
pub struct ScannerHandler {
    seen_devices: Vec<Option<DiscoveryState>>,
    next_eviction: usize,
}

impl ScannerHandler {
    /// The cache's slots.
    pub closed spec fn slots(&self) -> Seq<Option<DiscoveryView>> {
        self.seen_devices@.map_values(|s: Option<DiscoveryState>| slot_view(s))
    }

    /// The slot to reuse next when the cache is full.
    pub closed spec fn next_eviction(&self) -> int {
        self.next_eviction as int
    }

    closed spec fn wf_slots(&self) -> bool {
        &&& self.seen_devices.len() == CACHE_SLOTS
        &&& self.next_eviction < CACHE_SLOTS
        &&& forall|i: int| 0 <= i < CACHE_SLOTS ==> (#[trigger] self.seen_devices@[i] matches Some(s)
            ==> s.wf())
    }

    /// The cache's invariant: [`cache_invariant`] over its slots and
    /// eviction position, and every stored candidate well-formed.
    pub closed spec fn wf(&self) -> bool {
        &&& self.wf_slots()
        &&& cache_invariant(self.slots(), self.next_eviction())
    }

    /// Every reported time in the cache is at or before `now`.
    pub open spec fn times_before(&self, now: u64) -> bool {
        forall|i: int|
            0 <= i < self.slots().len() ==> (#[trigger] self.slots()[i] matches Some(s) ==> (
            s.last_emit_at matches Some(t) ==> t <= now))
    }

    /// An empty cache.
    pub fn new() -> (h: Self)
        ensures
            h.wf(),
            cache_invariant(h.slots(), h.next_eviction()),
            h.slots() == Seq::new(CACHE_SLOTS as nat, |i: int| None::<DiscoveryView>),
            h.next_eviction() == 0,
    {
        let mut seen_devices: Vec<Option<DiscoveryState>> = Vec::new();
        let mut i: usize = 0;
        while i < CACHE_SLOTS
            invariant
                i <= CACHE_SLOTS,
                seen_devices.len() == i,
                forall|j: int| 0 <= j < i ==> (#[trigger] seen_devices@[j]) is None,
            decreases CACHE_SLOTS - i,
        {
            seen_devices.push(None);
            i = i + 1;
        }
        let h = ScannerHandler { seen_devices, next_eviction: 0 };
        assert(h.slots() =~= Seq::new(CACHE_SLOTS as nat, |i: int| None::<DiscoveryView>));
        proof {
            lemma_empty_cache_invariant();
        }
        h
    }

    /// Record a sighting of `addr` at `now` and decide whether to report it.
    ///
    /// A cached candidate learns a name if it had none, and its found
    /// markers switch on; it is reported (and the report recorded) when it is
    /// identified as an iTag and the sighting is worth reporting. An unknown
    /// device that shows an iTag marker takes the first empty slot, or the
    /// round-robin slot when the cache is full, and is reported. Returns the
    /// reported state.
    pub fn update_device(
        &mut self,
        addr: [u8; 6],
        name: Option<&str>,
        has_itag_service: bool,
        has_itag_mfg: bool,
        rssi: i8,
        now: u64,
    ) -> (reported: Option<DiscoveryState>)
        requires
            old(self).wf(),
            old(self).times_before(now),
        ensures
            final(self).wf(),
            final(self).times_before(now),
            cache_invariant(final(self).slots(), final(self).next_eviction()),
            ({
                let (slots, next, report) = spec_update_device(
                    old(self).slots(),
                    old(self).next_eviction(),
                    addr@,
                    name_bytes(name),
                    has_itag_service,
                    has_itag_mfg,
                    rssi,
                    now,
                );
                &&& final(self).slots() == slots
                &&& final(self).next_eviction() == next
                &&& slot_view(reported) == report
                &&& (reported matches Some(s) ==> s.wf())
            }),
    {
        let ghost before = *self;
        let reported = self.update_device_step(addr, name, has_itag_service, has_itag_mfg, rssi, now);
        proof {
            law_sighting_keeps_cache_invariant(
                before.slots(),
                before.next_eviction(),
                addr@,
                name_bytes(name),
                has_itag_service,
                has_itag_mfg,
                rssi,
                now,
            );
        }
        reported
    }

    /// One sighting, on a cache whose stored candidates are well-formed.
    fn update_device_step(
        &mut self,
        addr: [u8; 6],
        name: Option<&str>,
        has_itag_service: bool,
        has_itag_mfg: bool,
        rssi: i8,
        now: u64,
    ) -> (reported: Option<DiscoveryState>)
        requires
            old(self).wf_slots(),
            old(self).times_before(now),
        ensures
            final(self).wf_slots(),
            final(self).times_before(now),
            ({
                let (slots, next, report) = spec_update_device(
                    old(self).slots(),
                    old(self).next_eviction(),
                    addr@,
                    name_bytes(name),
                    has_itag_service,
                    has_itag_mfg,
                    rssi,
                    now,
                );
                &&& final(self).slots() == slots
                &&& final(self).next_eviction() == next
                &&& slot_view(reported) == report
                &&& (reported matches Some(s) ==> s.wf())
            }),
    {
        let ghost slots = self.slots();
        let n = self.seen_devices.len();
        let mut i: usize = 0;
        while i < n
            invariant
                i <= n,
                n == CACHE_SLOTS,
                self.wf_slots(),
                *self == *old(self),
                slots == self.slots(),
                old(self).times_before(now),
                forall|j: int| 0 <= j < i ==> !slot_has(#[trigger] slots[j], addr@),
            decreases n - i,
        {
            assert(slots[i as int] == slot_view(self.seen_devices@[i as int]));
            if let Some(state) = self.seen_devices[i] {
                let matches = match state.addr {
                    Some(a) => bd_addr_equal(&a, &addr),
                    None => false,
                };
                if matches {
                    proof {
                        assert(first_slot_with(slots, addr@, i as int));
                        let k = choose|k: int| first_slot_with(slots, addr@, k);
                        if k < i {
                            assert(!slot_has(slots[k], addr@));
                        }
                        if i < k {
                            assert(!slot_has(slots[i as int], addr@));
                        }
                        assert(k == i);
                    }
                    let mut state = state;
                    if name.is_some() && state.name_len == 0 {
                        state.set_name(name);
                    }
                    if has_itag_service && !state.service_found {
                        state.service_found = true;
                    }
                    if has_itag_mfg && !state.mfg_found {
                        state.mfg_found = true;
                    }
                    let ghost refreshed = refreshed_view(slots[i as int]->Some_0, name_bytes(name), has_itag_service, has_itag_mfg);
                    assert(state@ == refreshed);
                    if state.is_complete() && state.should_emit(rssi, now) {
                        state.mark_emitted(rssi, now);
                        self.seen_devices.set(i, Some(state));
                        assert(self.slots() =~= slots.update(i as int, Some(state@)));
                        return Some(state);
                    }
                    self.seen_devices.set(i, Some(state));
                    assert(self.slots() =~= slots.update(i as int, Some(state@)));
                    return None;
                }
            }
            i = i + 1;
        }
        assert(!exists|k: int| first_slot_with(slots, addr@, k));
        if has_itag_service || has_itag_mfg {
            let mut new_state = DiscoveryState::default();
            new_state.set_name(name);
            new_state.addr = Some(addr);
            new_state.service_found = has_itag_service;
            new_state.mfg_found = has_itag_mfg;
            new_state.mark_emitted(rssi, now);
            assert(new_state@ == marked(new_candidate(addr@, name_bytes(name), has_itag_service, has_itag_mfg), rssi, now));
            let mut j: usize = 0;
            while j < n
                invariant
                    j <= n,
                    n == CACHE_SLOTS,
                    self.wf_slots(),
                    *self == *old(self),
                    slots == self.slots(),
                    old(self).times_before(now),
                    !exists|k: int| first_slot_with(slots, addr@, k),
                    has_itag_service || has_itag_mfg,
                    new_state.wf(),
                    new_state@ == marked(new_candidate(addr@, name_bytes(name), has_itag_service, has_itag_mfg), rssi, now),
                    forall|k: int| 0 <= k < j ==> (#[trigger] slots[k]) is Some,
                decreases n - j,
            {
                assert(slots[j as int] == slot_view(self.seen_devices@[j as int]));
                if self.seen_devices[j].is_none() {
                    proof {
                        assert(first_empty_slot(slots, j as int));
                        let k = choose|k: int| first_empty_slot(slots, k);
                        if k < j {
                            assert(slots[k] is Some);
                        }
                        if j < k {
                            assert(slots[j as int] is Some);
                        }
                        assert(k == j);
                    }
                    self.seen_devices.set(j, Some(new_state));
                    assert(self.slots() =~= slots.update(j as int, Some(new_state@)));
                    return Some(new_state);
                }
                j = j + 1;
            }
            assert(!exists|k: int| first_empty_slot(slots, k));
            let idx = self.next_eviction;
            self.seen_devices.set(idx, Some(new_state));
            self.next_eviction = (idx + 1) % CACHE_SLOTS;
            assert(self.slots() =~= slots.update(idx as int, Some(new_state@)));
            return Some(new_state);
        }
        None
    }

    /// Handle one advertising report: find its name and iTag markers, update
    /// the cache, and build the event to pass on when the sighting is
    /// reported. The event's name is the candidate's stored name when that
    /// is valid UTF-8.
    pub fn handle_report(&mut self, addr: BleAddress, data: &[u8], rssi: i8, now: u64) -> (event: Option<BleEvent>)
        requires
            old(self).wf(),
            old(self).times_before(now),
        ensures
            final(self).wf(),
            final(self).times_before(now),
            cache_invariant(final(self).slots(), final(self).next_eviction()),
            ({
                let items = ad_structures(data@);
                let svc = (exists|i: int| 0 <= i < items.len() && lists_uuid(#[trigger] items[i], 0xFFE0u16))
                    || (exists|i: int| 0 <= i < items.len() && lists_uuid(#[trigger] items[i], 0x1802u16))
                    || (exists|i: int| 0 <= i < items.len() && lists_uuid(#[trigger] items[i], 0x1803u16));
                let mfg = exists|i: int| 0 <= i < items.len() && is_manufacturer(#[trigger] items[i], ITAG_MANUFACTURER_ID);
                let (slots, next, report) = spec_update_device(
                    old(self).slots(),
                    old(self).next_eviction(),
                    addr.addr@,
                    spec_advertised_name(items),
                    svc,
                    mfg,
                    rssi,
                    now,
                );
                &&& final(self).slots() == slots
                &&& final(self).next_eviction() == next
                &&& event is Some <==> report is Some
                &&& (event matches Some(BleEvent::DeviceSeen(a, r, n)) ==> a == addr && r == rssi && (
                n is Some <==> report->Some_0.name_len > 0 && valid_utf8(report->Some_0.name.take(report->Some_0.name_len)))
                    && (n matches Some(s) ==> name_string_bytes(s) == report->Some_0.name.take(report->Some_0.name_len)))
            }),
    {
        let name = advertised_name(data);
        let has_itag_service = has_service_uuid16(data, 0xFFE0) || has_service_uuid16(data, 0x1802)
            || has_service_uuid16(data, 0x1803);
        let has_itag_mfg = has_manufacturer_data(data, ITAG_MANUFACTURER_ID);
        let name_ref: Option<&str> = match &name {
            Some(s) => Some(s.as_str()),
            None => None,
        };
        assert(name_bytes(name_ref) == string_bytes(name));
        match self.update_device(addr.addr, name_ref, has_itag_service, has_itag_mfg, rssi, now) {
            Some(discovery_state) => {
                let heapless_name = match discovery_state.name_as_str() {
                    Some(n) => {
                        let mut s = name_string_new();
                        let _ = name_string_push_str(&mut s, n);
                        Some(s)
                    },
                    None => None,
                };
                Some(BleEvent::DeviceSeen(addr, rssi, heapless_name))
            },
            None => None,
        }
    }
}

/// The bytes a name string holds.
pub uninterp spec fn name_string_bytes(s: heapless::String<32>) -> Seq<u8>;

/// `heapless::String::new`: an empty string.
#[verifier::external_body]
fn name_string_new() -> (s: heapless::String<32>)
    ensures
        name_string_bytes(s) == Seq::<u8>::empty(),
{
    heapless::String::new()
}

/// `heapless::String::as_str`: the string's contents, which never exceed
/// its 32-byte capacity.
#[verifier::external_body]
pub(crate) fn name_string_as_str(s: &heapless::String<32>) -> (t: &str)
    ensures
        t.spec_bytes() == name_string_bytes(*s),
        t.spec_bytes().len() <= 32,
{
    s.as_str()
}

/// `heapless::String::push_str`: appends the string's bytes when they fit
/// in the 32-byte capacity, and changes nothing otherwise.
#[verifier::external_body]
fn name_string_push_str(s: &mut heapless::String<32>, t: &str) -> (r: Result<(), ()>)
    ensures
        r is Ok <==> name_string_bytes(*old(s)).len() + t.spec_bytes().len() <= 32,
        r is Ok ==> name_string_bytes(*final(s)) == name_string_bytes(*old(s)) + t.spec_bytes(),
        r is Err ==> name_string_bytes(*final(s)) == name_string_bytes(*old(s)),
{
    s.push_str(t)
}

} // verus!
