//! The WiFi/BLE scanner: the set of BLE devices seen so far and the status
//! LEDs.
//!
//! The status LEDs show the WiFi network count in binary on LEDs 1 to 6
//! (least significant bit on LED 1) in half green, the BLE device count on
//! LEDs 12 down to 7 (least significant bit on LED 12) in half blue, both
//! capped at 63, a pressed A as red LED 13 and a pressed F as magenta LED 18.

use vstd::prelude::*;
use std::collections::{BTreeSet, VecDeque};
use crate::buttons::{Button, ButtonEvent};
use crate::leds::{NamedColor, Rgb8, half, named_color, spec_half, spec_named_color};

verus! {

broadcast use vstd::std_specs::btree::group_btree_axioms, vstd::laws_cmp::group_laws_cmp;

/// A BLE device address as the six bytes of its `[u8; 6]` form.
pub type AddrKey = (u8, u8, u8, u8, u8, u8);

/// Number of addresses the device set tracks.
pub const LRU_CAPACITY: usize = 256;

/// The key of an address.
pub open spec fn addr_key(addr: [u8; 6]) -> AddrKey {
    (addr@[0], addr@[1], addr@[2], addr@[3], addr@[4], addr@[5])
}

/// The tracked addresses, least recently seen first, after `k` is seen:
/// a known address moves to the back; a new one is appended, evicting the
/// front address when the set is full.
pub open spec fn lru_after_insert(s: Seq<AddrKey>, k: AddrKey) -> Seq<AddrKey> {
    if s.contains(k) {
        s.remove(s.index_of(k)).push(k)
    } else if s.len() >= LRU_CAPACITY {
        s.drop_first().push(k)
    } else {
        s.push(k)
    }
}

/// A sequence of addresses the set can hold: no address twice, and at most
/// [`LRU_CAPACITY`] of them.
pub open spec fn valid_order(s: Seq<AddrKey>) -> bool {
    s.no_duplicates() && s.len() <= LRU_CAPACITY
}

/// LRU-evicting set of BLE device addresses.
///
/// Tracks up to [`LRU_CAPACITY`] unique addresses. When full and a new
/// address arrives, the least-recently-seen address is evicted. Re-seeing a
/// known address refreshes its position, so actively-advertising devices
/// are not evicted while present.
pub struct LruBleDevices {
    order: VecDeque<AddrKey>,
    set: BTreeSet<AddrKey>,
}

impl View for LruBleDevices {
    type V = Seq<AddrKey>;

    /// The tracked addresses, least recently seen first.
    closed spec fn view(&self) -> Seq<AddrKey> {
        self.order@
    }
}

fn keys_equal(a: &AddrKey, b: &AddrKey) -> (r: bool)
    ensures
        r == (*a == *b),
{
    a.0 == b.0 && a.1 == b.1 && a.2 == b.2 && a.3 == b.3 && a.4 == b.4 && a.5 == b.5
}

proof fn lemma_index_of_unique(s: Seq<AddrKey>, k: AddrKey, i: int)
    requires
        s.no_duplicates(),
        0 <= i < s.len(),
        s[i] == k,
    ensures
        s.contains(k),
        s.index_of(k) == i,
{
    assert(s.contains(k));
    let j = s.index_of(k);
    assert(0 <= j < s.len() && s[j] == k);
}

proof fn lemma_remove_keeps_no_duplicates(s: Seq<AddrKey>, i: int)
    requires
        s.no_duplicates(),
        0 <= i < s.len(),
    ensures
        s.remove(i).no_duplicates(),
        !s.remove(i).contains(s[i]),
        forall|x: AddrKey| #[trigger] s.remove(i).contains(x) <==> (s.contains(x) && x != s[i]),
{
    let r = s.remove(i);
    assert forall|a: int, b: int| 0 <= a < b < r.len() implies r[a] != r[b] by {
        let sa = if a < i { a } else { a + 1 };
        let sb = if b < i { b } else { b + 1 };
        assert(r[a] == s[sa] && r[b] == s[sb]);
    }
    assert forall|x: AddrKey| r.contains(x) <==> (s.contains(x) && x != s[i]) by {
        if r.contains(x) {
            let a = choose|a: int| 0 <= a < r.len() && r[a] == x;
            let sa = if a < i { a } else { a + 1 };
            assert(s[sa] == x);
        }
        if s.contains(x) && x != s[i] {
            let a = choose|a: int| 0 <= a < s.len() && s[a] == x;
            if a < i {
                assert(r[a] == x);
            } else {
                assert(r[a - 1] == x);
            }
        }
    }
}

proof fn lemma_after_insert_valid(s: Seq<AddrKey>, k: AddrKey)
    requires
        valid_order(s),
    ensures
        valid_order(lru_after_insert(s, k)),
        lru_after_insert(s, k).contains(k),
        lru_after_insert(s, k).last() == k,
        forall|x: AddrKey| #[trigger] lru_after_insert(s, k).contains(x) ==> x == k || s.contains(x),
{
    let t = lru_after_insert(s, k);
    if s.contains(k) {
        let i = s.index_of(k);
        lemma_remove_keeps_no_duplicates(s, i);
        let r = s.remove(i);
        assert(t == r.push(k));
        assert forall|a: int, b: int| 0 <= a < b < t.len() implies t[a] != t[b] by {
            if b == t.len() - 1 {
                assert(r.contains(t[a]));
            }
        }
        assert(t[t.len() - 1] == k);
        assert forall|x: AddrKey| t.contains(x) implies x == k || s.contains(x) by {
            if x != k {
                let a = choose|a: int| 0 <= a < t.len() && t[a] == x;
                assert(r.contains(x));
            }
        }
    } else {
        let r = if s.len() >= LRU_CAPACITY { s.drop_first() } else { s };
        assert(t == r.push(k));
        assert(forall|x: AddrKey| r.contains(x) ==> s.contains(x)) by {
            assert forall|x: AddrKey| r.contains(x) implies s.contains(x) by {
                let a = choose|a: int| 0 <= a < r.len() && r[a] == x;
                if s.len() >= LRU_CAPACITY {
                    assert(s[a + 1] == x);
                } else {
                    assert(s[a] == x);
                }
            }
        }
        assert forall|a: int, b: int| 0 <= a < b < t.len() implies t[a] != t[b] by {
            if b == t.len() - 1 {
                assert(r.contains(t[a]));
            } else if s.len() >= LRU_CAPACITY {
                assert(t[a] == s[a + 1] && t[b] == s[b + 1]);
            }
        }
        assert(t[t.len() - 1] == k);
        assert forall|x: AddrKey| t.contains(x) implies x == k || s.contains(x) by {
            if x != k {
                let a = choose|a: int| 0 <= a < t.len() && t[a] == x;
                assert(r.contains(x));
            }
        }
    }
}

/// Seeing the same address twice in a row leaves the set as the first
/// sighting left it.
pub proof fn law_reinsert_is_idempotent(s: Seq<AddrKey>, k: AddrKey)
    requires
        valid_order(s),
    ensures
        lru_after_insert(lru_after_insert(s, k), k) == lru_after_insert(s, k),
{
    lemma_after_insert_valid(s, k);
    let t = lru_after_insert(s, k);
    lemma_index_of_unique(t, k, t.len() - 1);
    assert(t.remove(t.len() - 1).push(k) =~= t);
}

/// When the set is full, a new address evicts exactly the least recently
/// seen one: every other tracked address stays.
pub proof fn law_full_set_evicts_least_recent(s: Seq<AddrKey>, k: AddrKey)
    requires
        valid_order(s),
        s.len() == LRU_CAPACITY,
        !s.contains(k),
    ensures
        !lru_after_insert(s, k).contains(s[0]),
        forall|i: int| 1 <= i < s.len() ==> lru_after_insert(s, k).contains(#[trigger] s[i]),
        lru_after_insert(s, k).len() == LRU_CAPACITY,
{
    let t = lru_after_insert(s, k);
    assert(t == s.drop_first().push(k));
    assert forall|i: int| 1 <= i < s.len() implies t.contains(#[trigger] s[i]) by {
        assert(t[i - 1] == s[i]);
    }
    if t.contains(s[0]) {
        let a = choose|a: int| 0 <= a < t.len() && t[a] == s[0];
        if a < t.len() - 1 {
            assert(s[a + 1] == s[0]);
        }
    }
}

/// An address that has just been seen survives the next sighting of any
/// address.
pub proof fn law_just_seen_survives_next_insert(s: Seq<AddrKey>, k: AddrKey, j: AddrKey)
    requires
        valid_order(s),
    ensures
        lru_after_insert(lru_after_insert(s, k), j).contains(k),
{
    lemma_after_insert_valid(s, k);
    let t = lru_after_insert(s, k);
    let last = t.len() - 1;
    assert(t[last] == k);
    let u = lru_after_insert(t, j);
    if j == k {
        lemma_after_insert_valid(t, j);
    } else if t.contains(j) {
        let i = t.index_of(j);
        assert(0 <= i < t.len() && t[i] == j);
        assert(i != last);
        assert(u[last - 1] == k);
    } else if t.len() >= LRU_CAPACITY {
        assert(u[last - 1] == k);
    } else {
        assert(u[last] == k);
    }
}

/// Only the least recently seen address is ever evicted, and only when a
/// new address arrives at a full set.
pub proof fn law_only_least_recent_is_evicted(s: Seq<AddrKey>, k: AddrKey, x: AddrKey)
    requires
        valid_order(s),
        s.contains(x),
        !lru_after_insert(s, k).contains(x),
    ensures
        x == s[0],
        s.len() == LRU_CAPACITY,
        !s.contains(k),
{
    let t = lru_after_insert(s, k);
    lemma_after_insert_valid(s, k);
    let a = choose|a: int| 0 <= a < s.len() && s[a] == x;
    if s.contains(k) {
        let i = s.index_of(k);
        lemma_remove_keeps_no_duplicates(s, i);
        assert(x != k);
        assert(s.remove(i).contains(x));
        let b = choose|b: int| 0 <= b < s.remove(i).len() && s.remove(i)[b] == x;
        assert(t[b] == x);
    } else if s.len() >= LRU_CAPACITY {
        if a > 0 {
            assert(t[a - 1] == x);
        }
    } else {
        assert(t[a] == x);
    }
}

/// Seeing an address keeps the relative order of the other tracked
/// addresses: of two addresses other than the one seen, the one seen
/// earlier stays ahead of the other while both are tracked, and the more
/// recently seen one is never evicted while the older one stays.
pub proof fn law_insert_keeps_recency_order(s: Seq<AddrKey>, k: AddrKey, i: int, j: int)
    requires
        valid_order(s),
        0 <= i < j < s.len(),
        s[i] != k,
        s[j] != k,
    ensures
        lru_after_insert(s, k).contains(s[i]) ==> exists|p: int, q: int|
            0 <= p < q < lru_after_insert(s, k).len() && lru_after_insert(s, k)[p] == s[i]
                && lru_after_insert(s, k)[q] == s[j],
        !lru_after_insert(s, k).contains(s[j]) ==> !lru_after_insert(s, k).contains(s[i]),
{
    let t = lru_after_insert(s, k);
    if s.contains(k) {
        let m = s.index_of(k);
        assert(0 <= m < s.len() && s[m] == k);
        let pi = if i < m { i } else { i - 1 };
        let pj = if j < m { j } else { j - 1 };
        assert(t[pi] == s[i] && t[pj] == s[j]);
        assert(t.contains(s[j]));
    } else if s.len() >= LRU_CAPACITY {
        if i > 0 {
            assert(t[i - 1] == s[i] && t[j - 1] == s[j]);
        } else {
            assert(t[j - 1] == s[j]);
            if t.contains(s[0]) {
                law_full_set_evicts_least_recent(s, k);
            }
        }
    } else {
        assert(t[i] == s[i] && t[j] == s[j]);
    }
}

/// The tracked addresses after seeing `ks` in order, starting empty.
pub open spec fn lru_after_all(ks: Seq<AddrKey>) -> Seq<AddrKey>
    decreases ks.len(),
{
    if ks.len() == 0 {
        Seq::empty()
    } else {
        lru_after_insert(lru_after_all(ks.drop_last()), ks.last())
    }
}

/// Over any sequence of sightings from an empty set, no address is tracked
/// twice, at most [`LRU_CAPACITY`] are tracked, and the last one seen is
/// the most recent.
pub proof fn law_sightings_keep_valid_order(ks: Seq<AddrKey>)
    ensures
        valid_order(lru_after_all(ks)),
        ks.len() > 0 ==> lru_after_all(ks).last() == ks.last(),
    decreases ks.len(),
{
    if ks.len() > 0 {
        law_sightings_keep_valid_order(ks.drop_last());
        lemma_after_insert_valid(lru_after_all(ks.drop_last()), ks.last());
    }
}

impl LruBleDevices {
    /// The set's invariant: the order holds no address twice and at most
    /// [`LRU_CAPACITY`] of them, and the lookup set holds the same addresses.
    pub closed spec fn wf(&self) -> bool {
        &&& valid_order(self.order@)
        &&& self.set@ == self.order@.to_set()
    }

    /// An empty set.
    pub fn new() -> (devices: Self)
        ensures
            devices.wf(),
            valid_order(devices@),
            devices@ == Seq::<AddrKey>::empty(),
    {
        let devices = LruBleDevices { order: VecDeque::new(), set: BTreeSet::new() };
        assert(devices.order@.to_set() =~= Set::<AddrKey>::empty());
        devices
    }

    /// Inserts an address. Returns `true` if the address was not already
    /// tracked.
    pub fn insert(&mut self, addr: [u8; 6]) -> (was_new: bool)
        requires
            old(self).wf(),
        ensures
            final(self).wf(),
            valid_order(final(self)@),
            was_new == !old(self)@.contains(addr_key(addr)),
            final(self)@ == lru_after_insert(old(self)@, addr_key(addr)),
    {
        let key: AddrKey = (addr[0], addr[1], addr[2], addr[3], addr[4], addr[5]);
        let ghost s = self.order@;
        proof {
            lemma_after_insert_valid(s, key);
        }
        if self.set.contains(&key) {
            assert(s.to_set().contains(key));
            let mut pos: usize = 0;
            let len = self.order.len();
            while pos < len
                invariant
                    len == self.order@.len(),
                    self.order@ == s,
                    s.contains(key),
                    0 <= pos <= len,
                    forall|j: int| 0 <= j < pos ==> s[j] != key,
                ensures
                    self.order@ == s,
                    0 <= pos <= len,
                    pos < len ==> s[pos as int] == key,
                    forall|j: int| 0 <= j < pos ==> s[j] != key,
                decreases len - pos,
            {
                if keys_equal(&self.order[pos], &key) {
                    break;
                }
                pos = pos + 1;
            }
            if pos == len {
                proof {
                    let j = choose|j: int| 0 <= j < s.len() && s[j] == key;
                    assert(false);
                }
            }
            proof {
                lemma_index_of_unique(s, key, pos as int);
            }
            let _ = self.order.remove(pos);
            self.order.push_back(key);
            assert(self.order@ == s.remove(pos as int).push(key));
            proof {
                assert(self.order@.to_set() =~= s.to_set()) by {
                    lemma_remove_keeps_no_duplicates(s, pos as int);
                    assert forall|x: AddrKey| #[trigger] self.order@.contains(x) <==> s.contains(x) by {
                        if x == key {
                            assert(self.order@[self.order@.len() - 1] == key);
                        } else if s.contains(x) {
                            assert(s.remove(pos as int).contains(x));
                            let a = choose|a: int| 0 <= a < s.remove(pos as int).len() && s.remove(pos as int)[a] == x;
                            assert(self.order@[a] == x);
                        }
                    }
                }
            }
            false
        } else {
            assert(!s.contains(key));
            if self.order.len() >= LRU_CAPACITY {
                let evicted = self.order.pop_front();
                match evicted {
                    Some(old_key) => {
                        self.set.remove(&old_key);
                    },
                    None => {},
                }
            }
            let ghost r = self.order@;
            self.order.push_back(key);
            self.set.insert(key);
            proof {
                if s.len() >= LRU_CAPACITY {
                    assert(r == s.drop_first());
                    assert forall|x: AddrKey| #[trigger] r.contains(x) <==> (s.contains(x) && x != s[0]) by {
                        if r.contains(x) {
                            let a = choose|a: int| 0 <= a < r.len() && r[a] == x;
                            assert(s[a + 1] == x);
                        }
                        if s.contains(x) && x != s[0] {
                            let a = choose|a: int| 0 <= a < s.len() && s[a] == x;
                            assert(r[a - 1] == x);
                        }
                    }
                } else {
                    assert(r == s);
                }
                assert(self.order@ == r.push(key));
                assert forall|x: AddrKey| #[trigger] self.order@.contains(x) <==> (r.contains(x) || x == key) by {
                    if r.contains(x) {
                        let a = choose|a: int| 0 <= a < r.len() && r[a] == x;
                        assert(self.order@[a] == x);
                    }
                    if x == key {
                        assert(self.order@[r.len() as int] == key);
                    }
                }
                assert(self.set@ =~= self.order@.to_set());
            }
            true
        }
    }
}

/// Records an advertising report from `addr` when `seen` devices have been
/// counted so far: the set learns the address, and a new address raises
/// the count, whose new value is returned.
pub fn record_sighting(devices: &mut LruBleDevices, seen: u32, addr: [u8; 6]) -> (new_count: Option<u32>)
    requires
        old(devices).wf(),
        seen < u32::MAX,
    ensures
        final(devices).wf(),
        final(devices)@ == lru_after_insert(old(devices)@, addr_key(addr)),
        !old(devices)@.contains(addr_key(addr)) ==> new_count == Some((seen + 1) as u32),
        old(devices)@.contains(addr_key(addr)) ==> new_count is None,
{
    if devices.insert(addr) {
        Some(seen + 1)
    } else {
        None
    }
}

/// A new count for the status LEDs.
#[derive(Debug, Clone, Copy, PartialEq, Eq, Structural)]
pub enum StatusUpdate {
    /// Networks found by the latest WiFi scan.
    WifiCount(u32),
    /// BLE devices seen so far.
    BleCount(u32),
}

/// What the status LEDs show.
#[derive(Debug, Clone, Copy, PartialEq, Eq, Structural)]
pub struct StatusInputs {
    pub wifi_count: u32,
    pub ble_count: u32,
    pub button_a: bool,
    pub button_f: bool,
}

/// The inputs after a button event: A and F are tracked, the others ignored.
pub open spec fn spec_inputs_after_button(inputs: StatusInputs, event: ButtonEvent) -> StatusInputs {
    match event {
        ButtonEvent::Pressed(Button::A) => StatusInputs { button_a: true, ..inputs },
        ButtonEvent::Released(Button::A) => StatusInputs { button_a: false, ..inputs },
        ButtonEvent::Pressed(Button::F) => StatusInputs { button_f: true, ..inputs },
        ButtonEvent::Released(Button::F) => StatusInputs { button_f: false, ..inputs },
        _ => inputs,
    }
}

/// The inputs after a count update.
pub open spec fn spec_inputs_after_status(inputs: StatusInputs, update: StatusUpdate) -> StatusInputs {
    match update {
        StatusUpdate::WifiCount(n) => StatusInputs { wifi_count: n, ..inputs },
        StatusUpdate::BleCount(n) => StatusInputs { ble_count: n, ..inputs },
    }
}

impl StatusInputs {
    /// Records a button event.
    pub fn on_button(&mut self, event: ButtonEvent)
        ensures
            *final(self) == spec_inputs_after_button(*old(self), event),
    {
        match event {
            ButtonEvent::Pressed(Button::A) => self.button_a = true,
            ButtonEvent::Released(Button::A) => self.button_a = false,
            ButtonEvent::Pressed(Button::F) => self.button_f = true,
            ButtonEvent::Released(Button::F) => self.button_f = false,
            _ => {},
        }
    }

    /// Records a count update.
    pub fn on_status(&mut self, update: StatusUpdate)
        ensures
            *final(self) == spec_inputs_after_status(*old(self), update),
    {
        match update {
            StatusUpdate::WifiCount(n) => self.wifi_count = n,
            StatusUpdate::BleCount(n) => self.ble_count = n,
        }
    }
}

/// The largest count the LEDs can show.
pub const MAX_SHOWN_COUNT: u32 = 63;

/// Whether bit `bit` of `count`, capped at [`MAX_SHOWN_COUNT`], is set.
pub open spec fn count_bit(count: u32, bit: u32) -> bool {
    let shown = if count > MAX_SHOWN_COUNT {
        MAX_SHOWN_COUNT
    } else {
        count
    };
    (shown >> bit) & 1u32 == 1u32
}

/// The colour of status LED `led`.
pub open spec fn spec_status_led(inputs: StatusInputs, led: int) -> Rgb8 {
    let off = spec_named_color(NamedColor::Black);
    if 1 <= led <= 6 {
        if count_bit(inputs.wifi_count, (led - 1) as u32) {
            spec_half(spec_named_color(NamedColor::Green))
        } else {
            off
        }
    } else if 7 <= led <= 12 {
        if count_bit(inputs.ble_count, (12 - led) as u32) {
            spec_half(spec_named_color(NamedColor::Blue))
        } else {
            off
        }
    } else if led == 13 && inputs.button_a {
        spec_named_color(NamedColor::Red)
    } else if led == 18 && inputs.button_f {
        spec_named_color(NamedColor::Magenta)
    } else {
        off
    }
}

/// The status LED frame for `inputs`.
pub fn status_led_frame(inputs: StatusInputs) -> (frame: [Rgb8; 19])
    ensures
        forall|led: int| 0 <= led < 19 ==> #[trigger] frame@[led] == spec_status_led(inputs, led),
{
    let off = named_color(NamedColor::Black);
    let half_green = half(named_color(NamedColor::Green));
    let half_blue = half(named_color(NamedColor::Blue));
    let mut frame = [off; 19];
    let wifi: u32 = if inputs.wifi_count > MAX_SHOWN_COUNT {
        MAX_SHOWN_COUNT
    } else {
        inputs.wifi_count
    };
    let ble: u32 = if inputs.ble_count > MAX_SHOWN_COUNT {
        MAX_SHOWN_COUNT
    } else {
        inputs.ble_count
    };
    let mut i: usize = 0;
    while i < 6
        invariant
            0 <= i <= 6,
            forall|led: int|
                0 <= led < 19 ==> #[trigger] frame@[led] == (if 1 <= led <= i {
                    spec_status_led(inputs, led)
                } else if 13 - i <= led <= 12 {
                    spec_status_led(inputs, led)
                } else {
                    off
                }),
            off == spec_named_color(NamedColor::Black),
            half_green == spec_half(spec_named_color(NamedColor::Green)),
            half_blue == spec_half(spec_named_color(NamedColor::Blue)),
            wifi == (if inputs.wifi_count > MAX_SHOWN_COUNT { MAX_SHOWN_COUNT } else { inputs.wifi_count }),
            ble == (if inputs.ble_count > MAX_SHOWN_COUNT { MAX_SHOWN_COUNT } else { inputs.ble_count }),
        decreases 6 - i,
    {
        let bit: u32 = i as u32;
        if (wifi >> bit) & 1 == 1 {
            frame[i + 1] = half_green;
        }
        if (ble >> bit) & 1 == 1 {
            frame[12 - i] = half_blue;
        }
        i = i + 1;
    }
    if inputs.button_a {
        frame[13] = named_color(NamedColor::Red);
    }
    if inputs.button_f {
        frame[18] = named_color(NamedColor::Magenta);
    }
    frame
}

/// The status LED task's memory of what the LEDs last showed.
pub struct StatusLeds {
    /// The inputs of the last frame written.
    pub shown: StatusInputs,
}

impl StatusLeds {
    /// Nothing shown yet: the counts start at `u32::MAX` so that the first
    /// refresh writes a frame.
    pub fn new() -> (leds: Self)
        ensures
            leds.shown == (StatusInputs {
                wifi_count: u32::MAX,
                ble_count: u32::MAX,
                button_a: false,
                button_f: false,
            }),
    {
        StatusLeds {
            shown: StatusInputs {
                wifi_count: u32::MAX,
                ble_count: u32::MAX,
                button_a: false,
                button_f: false,
            },
        }
    }

    /// The frame to write for `current`: `Some` exactly when it differs
    /// from what was shown last, which it then becomes.
    pub fn refresh(&mut self, current: StatusInputs) -> (frame: Option<[Rgb8; 19]>)
        ensures
            frame is Some <==> current != old(self).shown,
            frame matches Some(f) ==> forall|led: int|
                0 <= led < 19 ==> #[trigger] f@[led] == spec_status_led(current, led),
            final(self).shown == current,
    {
        if current == self.shown {
            None
        } else {
            self.shown = current;
            Some(status_led_frame(current))
        }
    }
}

} // verus!
