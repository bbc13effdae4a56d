//! The iTag finder application: BLE scanning for iTag key finders, a list of
//! the devices seen, selection with the badge buttons, and connecting to the
//! selected tag to make it beep.
//!
//! Times are instants and durations of the 1 MHz system timer, in
//! microseconds.

pub mod advertising;
pub mod ble;
pub mod buttons;
pub mod connect;
pub mod events;
pub mod radar;
pub mod screen;

use vstd::prelude::*;
use crate::itag::events::ButtonEvent;

verus! {

/// A device is dropped from the list after this long without a sighting.
pub const DEVICE_STALE_AFTER: u64 = 20_000_000;

/// A scan session is restarted after this long without a detection.
pub const SCAN_IDLE_RESTART_AFTER: u64 = 2_000_000;

/// A scan session is restarted after running this long.
pub const SCAN_SESSION_RESTART_AFTER: u64 = 10_000_000;

/// The Immediate Alert GATT service.
pub const IMMEDIATE_ALERT_SERVICE_UUID: u16 = 0x1802;

/// The Alert Level characteristic.
pub const ALERT_LEVEL_CHARACTERISTIC_UUID: u16 = 0x2A06;

/// Alert level that silences the tag.
pub const ALERT_LEVEL_OFF: u8 = 0x00;

/// Alert level that makes the tag beep.
pub const ALERT_LEVEL_MILD: u8 = 0x01;

/// Capacity of the device list.
pub const MAX_DEVICES: usize = 16;

/// A BLE device address: the address kind and the six address bytes.
#[derive(Debug, Clone, Copy, PartialEq, Eq)]
pub struct BleAddress {
    pub kind: u8,
    pub addr: [u8; 6],
}

/// Two addresses are the same when kind and bytes agree.
pub open spec fn same_address(a: BleAddress, b: BleAddress) -> bool {
    a.kind == b.kind && a.addr@ == b.addr@
}

/// Whether two addresses are the same.
pub fn addresses_equal(a: &BleAddress, b: &BleAddress) -> (r: bool)
    ensures
        r == same_address(*a, *b),
{
    let mut i: usize = 0;
    while i < 6
        invariant
            i <= 6,
            forall|j: int| 0 <= j < i ==> a.addr@[j] == b.addr@[j],
        decreases 6 - i,
    {
        if a.addr[i] != b.addr[i] {
            return false;
        }
        i = i + 1;
    }
    assert(a.addr@ =~= b.addr@);
    a.kind == b.kind
}

/// What the finder is doing.
#[derive(Debug, Clone, Copy, PartialEq, Eq, Structural)]
pub enum Mode {
    Scanning,
    Connecting,
    Alarming,
}

/// How close a device is, judged by its signal strength.
#[derive(Debug, Clone, Copy, PartialEq, Eq, Structural)]
pub enum RssiHeatLevel {
    Hot,
    Warm,
    Near,
    Cool,
    Cold,
    Far,
}

/// The heat level of a signal strength in dBm. RSSI is logarithmic, so the
/// buckets lean toward weaker values to keep nearby devices warm longer.
pub open spec fn spec_rssi_heat_level(rssi: i8) -> RssiHeatLevel {
    if rssi >= -68 {
        RssiHeatLevel::Hot
    } else if rssi >= -76 {
        RssiHeatLevel::Warm
    } else if rssi >= -84 {
        RssiHeatLevel::Near
    } else if rssi >= -92 {
        RssiHeatLevel::Cool
    } else if rssi >= -100 {
        RssiHeatLevel::Cold
    } else {
        RssiHeatLevel::Far
    }
}

/// The heat level of a signal strength in dBm.
pub fn rssi_heat_level(rssi: i8) -> (level: RssiHeatLevel)
    ensures
        level == spec_rssi_heat_level(rssi),
{
    if rssi >= -68 {
        RssiHeatLevel::Hot
    } else if rssi >= -76 {
        RssiHeatLevel::Warm
    } else if rssi >= -84 {
        RssiHeatLevel::Near
    } else if rssi >= -92 {
        RssiHeatLevel::Cool
    } else if rssi >= -100 {
        RssiHeatLevel::Cold
    } else {
        RssiHeatLevel::Far
    }
}

/// A stronger signal is never colder.
pub proof fn law_heat_level_is_monotonic(weaker: i8, stronger: i8)
    requires
        weaker <= stronger,
    ensures
        heat_rank(spec_rssi_heat_level(stronger)) <= heat_rank(spec_rssi_heat_level(weaker)),
{
}

/// Rank of a heat level, hottest first.
pub open spec fn heat_rank(level: RssiHeatLevel) -> int {
    match level {
        RssiHeatLevel::Hot => 0,
        RssiHeatLevel::Warm => 1,
        RssiHeatLevel::Near => 2,
        RssiHeatLevel::Cool => 3,
        RssiHeatLevel::Cold => 4,
        RssiHeatLevel::Far => 5,
    }
}

/// A device in the finder's list.
#[derive(Debug, Clone)]
pub struct ITagEntry {
    pub addr: BleAddress,
    pub rssi: i8,
    pub name: Option<heapless::String<32>>,
    /// When the device was last seen.
    pub last_seen: u64,
}

/// The devices a device list holds, in order.
pub uninterp spec fn device_list(v: heapless::Vec<ITagEntry, 16>) -> Seq<ITagEntry>;

/// `heapless::Vec::new`: an empty list.
#[verifier::external_body]
fn devices_new() -> (v: heapless::Vec<ITagEntry, 16>)
    ensures
        device_list(v) == Seq::<ITagEntry>::empty(),
{
    heapless::Vec::new()
}

/// `len` of a `heapless::Vec`, which never holds more than its capacity.
#[verifier::external_body]
fn devices_len(v: &heapless::Vec<ITagEntry, 16>) -> (n: usize)
    ensures
        n == device_list(*v).len(),
        n <= MAX_DEVICES,
{
    v.len()
}

/// Indexing a `heapless::Vec`.
#[verifier::external_body]
fn devices_get(v: &heapless::Vec<ITagEntry, 16>, i: usize) -> (e: &ITagEntry)
    requires
        i < device_list(*v).len(),
    ensures
        *e == device_list(*v)[i as int],
{
    &v[i]
}

/// `heapless::Vec::remove`: takes out the item at `i`, shifting the later
/// items down.
#[verifier::external_body]
fn devices_remove(v: &mut heapless::Vec<ITagEntry, 16>, i: usize) -> (e: ITagEntry)
    requires
        i < device_list(*old(v)).len(),
    ensures
        e == device_list(*old(v))[i as int],
        device_list(*final(v)) == device_list(*old(v)).remove(i as int),
{
    v.remove(i)
}

/// `heapless::Vec::insert`: puts the item at `i`, shifting the later items
/// up, when the list is not full, and hands the item back otherwise.
#[verifier::external_body]
fn devices_insert(v: &mut heapless::Vec<ITagEntry, 16>, i: usize, e: ITagEntry) -> (r: Result<(), ITagEntry>)
    requires
        i <= device_list(*old(v)).len(),
    ensures
        r is Ok <==> device_list(*old(v)).len() < MAX_DEVICES,
        r is Ok ==> device_list(*final(v)) == device_list(*old(v)).insert(i as int, e),
        r is Err ==> device_list(*final(v)) == device_list(*old(v)),
{
    v.insert(i, e)
}

/// `heapless::Vec::push`: appends the item when the list is not full, and
/// hands the item back otherwise.
#[verifier::external_body]
fn devices_push(v: &mut heapless::Vec<ITagEntry, 16>, e: ITagEntry) -> (r: Result<(), ITagEntry>)
    ensures
        r is Ok <==> device_list(*old(v)).len() < MAX_DEVICES,
        r is Ok ==> device_list(*final(v)) == device_list(*old(v)).push(e),
        r is Err ==> device_list(*final(v)) == device_list(*old(v)),
{
    v.push(e)
}

/// `heapless::Vec::retain` with the freshness test at `now`: keeps the
/// fresh devices, in order.
#[verifier::external_body]
fn devices_retain_fresh(v: &mut heapless::Vec<ITagEntry, 16>, now: u64)
    ensures
        device_list(*final(v)) == device_list(*old(v)).filter(|e: ITagEntry| spec_is_fresh(e, now)),
{
    v.retain(|d| entry_is_fresh(d, now))
}

/// Whether a device was seen less than [`DEVICE_STALE_AFTER`] before `now`.
pub open spec fn spec_is_fresh(e: ITagEntry, now: u64) -> bool {
    now - e.last_seen < DEVICE_STALE_AFTER
}

/// Whether a device was seen less than [`DEVICE_STALE_AFTER`] before `now`.
pub fn entry_is_fresh(e: &ITagEntry, now: u64) -> (b: bool)
    ensures
        b == spec_is_fresh(*e, now),
{
    e.last_seen > now || now - e.last_seen < DEVICE_STALE_AFTER
}

/// `i` is the first position in `devs` that holds `addr`.
pub open spec fn first_match(devs: Seq<ITagEntry>, addr: BleAddress, i: int) -> bool {
    &&& 0 <= i < devs.len()
    &&& same_address(devs[i].addr, addr)
    &&& forall|j: int| 0 <= j < i ==> !same_address((#[trigger] devs[j]).addr, addr)
}

proof fn lemma_first_match_unique(devs: Seq<ITagEntry>, addr: BleAddress, i: int, k: int)
    requires
        first_match(devs, addr, i),
        first_match(devs, addr, k),
    ensures
        i == k,
{
    if k < i {
        assert(!same_address(devs[k].addr, addr));
    }
    if i < k {
        assert(!same_address(devs[i].addr, addr));
    }
}

/// An entry after a new sighting: the new signal strength and time, and
/// the new name if the sighting carries one.
pub open spec fn refreshed(
    e: ITagEntry,
    rssi: i8,
    name: Option<heapless::String<32>>,
    now: u64,
) -> ITagEntry {
    ITagEntry {
        addr: e.addr,
        rssi,
        name: if name is Some {
            name
        } else {
            e.name
        },
        last_seen: now,
    }
}

/// The device list after a sighting: the known entry for the address is
/// refreshed; an unknown address is appended while the list has room.
pub open spec fn spec_device_seen(
    devs: Seq<ITagEntry>,
    addr: BleAddress,
    rssi: i8,
    name: Option<heapless::String<32>>,
    now: u64,
) -> Seq<ITagEntry> {
    if exists|i: int| first_match(devs, addr, i) {
        let i = choose|i: int| first_match(devs, addr, i);
        devs.update(i, refreshed(devs[i], rssi, name, now))
    } else if devs.len() < MAX_DEVICES {
        devs.push(ITagEntry { addr, rssi, name, last_seen: now })
    } else {
        devs
    }
}

/// No two listed devices share an address.
pub open spec fn addresses_unique(devs: Seq<ITagEntry>) -> bool {
    forall|i: int, j: int|
        0 <= i < j < devs.len() ==> !same_address((#[trigger] devs[i]).addr, (#[trigger] devs[j]).addr)
}

proof fn lemma_some_match_has_first(devs: Seq<ITagEntry>, addr: BleAddress, k: int)
    requires
        0 <= k < devs.len(),
        same_address(devs[k].addr, addr),
    ensures
        exists|i: int| first_match(devs, addr, i),
    decreases k,
{
    if forall|j: int| 0 <= j < k ==> !same_address((#[trigger] devs[j]).addr, addr) {
        assert(first_match(devs, addr, k));
    } else {
        let j = choose|j: int| 0 <= j < k && same_address((#[trigger] devs[j]).addr, addr);
        lemma_some_match_has_first(devs, addr, j);
    }
}

/// A sighting never lists an address twice: a known address is refreshed
/// in place and an unknown one is appended.
pub proof fn law_sighting_keeps_addresses_unique(
    devs: Seq<ITagEntry>,
    addr: BleAddress,
    rssi: i8,
    name: Option<heapless::String<32>>,
    now: u64,
)
    requires
        addresses_unique(devs),
    ensures
        addresses_unique(spec_device_seen(devs, addr, rssi, name, now)),
{
    let r = spec_device_seen(devs, addr, rssi, name, now);
    if exists|i: int| first_match(devs, addr, i) {
        let i = choose|i: int| first_match(devs, addr, i);
        assert forall|a: int, b: int| 0 <= a < b < r.len() implies !same_address(
            (#[trigger] r[a]).addr,
            (#[trigger] r[b]).addr,
        ) by {
            assert(r[a].addr == devs[a].addr);
            assert(r[b].addr == devs[b].addr);
        }
    } else if devs.len() < MAX_DEVICES {
        assert forall|a: int, b: int| 0 <= a < b < r.len() implies !same_address(
            (#[trigger] r[a]).addr,
            (#[trigger] r[b]).addr,
        ) by {
            if b == devs.len() {
                if same_address(devs[a].addr, addr) {
                    lemma_some_match_has_first(devs, addr, a);
                }
            } else {
                assert(r[a] == devs[a] && r[b] == devs[b]);
            }
        }
    }
}

/// The selection after the list shrank to `len` devices: kept if still in
/// range, else moved to the last device (or 0 for an empty list).
pub open spec fn clamped_selection(selected: usize, len: int) -> usize {
    if len == 0 {
        0
    } else if selected >= len {
        (len - 1) as usize
    } else {
        selected
    }
}

/// The finder's shared state.
pub struct AppState {
    pub devices: heapless::Vec<ITagEntry, 16>,
    pub selected_index: usize,
    pub radar_mode_enabled: bool,
    pub mode: Mode,
    pub target_addr: Option<BleAddress>,
}

impl AppState {
    /// The list holds at most sixteen devices, the selection points at a
    /// listed device (or is 0 for an empty list), and a connection always
    /// has a target.
    pub open spec fn wf(&self) -> bool {
        let n = device_list(self.devices).len();
        &&& n <= MAX_DEVICES
        &&& n == 0 ==> self.selected_index == 0
        &&& n > 0 ==> self.selected_index < n
        &&& self.mode == Mode::Connecting ==> self.target_addr is Some
    }

    /// The devices in the list.
    pub open spec fn spec_devices(&self) -> Seq<ITagEntry> {
        device_list(self.devices)
    }

    /// The state at start-up: scanning, nothing listed, radar off.
    pub fn new() -> (s: Self)
        ensures
            s.wf(),
            s.spec_devices() == Seq::<ITagEntry>::empty(),
            s.selected_index == 0,
            !s.radar_mode_enabled,
            s.mode == Mode::Scanning,
            s.target_addr is None,
    {
        AppState {
            devices: devices_new(),
            selected_index: 0,
            radar_mode_enabled: false,
            mode: Mode::Scanning,
            target_addr: None,
        }
    }

    /// Number of devices in the list.
    pub fn device_count(&self) -> (n: usize)
        ensures
            n == self.spec_devices().len(),
            n <= MAX_DEVICES,
    {
        devices_len(&self.devices)
    }

    /// The device at position `i`.
    pub fn device(&self, i: usize) -> (e: &ITagEntry)
        requires
            i < self.spec_devices().len(),
        ensures
            *e == self.spec_devices()[i as int],
    {
        devices_get(&self.devices, i)
    }

    /// Record a sighting of `addr` at `now`: a listed device gets the new
    /// signal strength, time, and name if one came with the sighting; an
    /// unlisted one is appended while the list has room.
    pub fn on_device_seen(
        &mut self,
        addr: BleAddress,
        rssi: i8,
        name: Option<heapless::String<32>>,
        now: u64,
    )
        requires
            old(self).wf(),
        ensures
            final(self).wf(),
            final(self).spec_devices() == spec_device_seen(old(self).spec_devices(), addr, rssi, name, now),
            final(self).selected_index == old(self).selected_index,
            final(self).radar_mode_enabled == old(self).radar_mode_enabled,
            final(self).mode == old(self).mode,
            final(self).target_addr == old(self).target_addr,
    {
        let ghost devs = self.spec_devices();
        let n = devices_len(&self.devices);
        let mut i: usize = 0;
        while i < n
            invariant
                i <= n,
                n == devs.len(),
                n <= MAX_DEVICES,
                old(self).wf(),
                devs == old(self).spec_devices(),
                self.devices == old(self).devices,
                self.selected_index == old(self).selected_index,
                self.radar_mode_enabled == old(self).radar_mode_enabled,
                self.mode == old(self).mode,
                self.target_addr == old(self).target_addr,
                devs == device_list(self.devices),
                forall|j: int| 0 <= j < i ==> !same_address((#[trigger] devs[j]).addr, addr),
            decreases n - i,
        {
            if addresses_equal(&devices_get(&self.devices, i).addr, &addr) {
                proof {
                    assert(first_match(devs, addr, i as int));
                    let k = choose|k: int| first_match(devs, addr, k);
                    lemma_first_match_unique(devs, addr, i as int, k);
                }
                let previous = devices_remove(&mut self.devices, i);
                let new_name = match name {
                    Some(n) => Some(n),
                    None => previous.name,
                };
                let updated = ITagEntry { addr: previous.addr, rssi, name: new_name, last_seen: now };
                let _ = devices_insert(&mut self.devices, i, updated);
                assert(self.spec_devices() =~= devs.update(i as int, refreshed(devs[i as int], rssi, name, now)));
                return;
            }
            i = i + 1;
        }
        assert(!exists|k: int| first_match(devs, addr, k));
        let _ = devices_push(&mut self.devices, ITagEntry { addr, rssi, name, last_seen: now });
    }

    /// Apply a button command while scanning. Returns whether the scan
    /// ends: a selection with a device listed switches to connecting to it.
    pub fn on_button(&mut self, event: ButtonEvent) -> (leave_scan: bool)
        requires
            old(self).wf(),
        ensures
            final(self).wf(),
            final(self).spec_devices() == old(self).spec_devices(),
            ({
                let n = old(self).spec_devices().len();
                let sel = old(self).selected_index;
                &&& final(self).selected_index == (if n > 0 && event == ButtonEvent::Up {
                    if sel == 0 {
                        (n - 1) as usize
                    } else {
                        (sel - 1) as usize
                    }
                } else if n > 0 && event == ButtonEvent::Down {
                    ((sel + 1) % (n as int)) as usize
                } else {
                    sel
                })
                &&& final(self).radar_mode_enabled == (if event == ButtonEvent::ToggleRadar {
                    !old(self).radar_mode_enabled
                } else {
                    old(self).radar_mode_enabled
                })
                &&& leave_scan == (event == ButtonEvent::Select && n > 0)
                &&& final(self).mode == (if leave_scan {
                    Mode::Connecting
                } else {
                    old(self).mode
                })
                &&& final(self).target_addr == (if leave_scan {
                    Some(old(self).spec_devices()[sel as int].addr)
                } else {
                    old(self).target_addr
                })
            }),
    {
        let n = devices_len(&self.devices);
        match event {
            ButtonEvent::Up => {
                if n > 0 {
                    if self.selected_index == 0 {
                        self.selected_index = n - 1;
                    } else {
                        self.selected_index = self.selected_index - 1;
                    }
                }
                false
            },
            ButtonEvent::Down => {
                if n > 0 {
                    self.selected_index = (self.selected_index + 1) % n;
                }
                false
            },
            ButtonEvent::ToggleRadar => {
                self.radar_mode_enabled = !self.radar_mode_enabled;
                false
            },
            ButtonEvent::Select => {
                if n > 0 {
                    let target = devices_get(&self.devices, self.selected_index).addr;
                    self.mode = Mode::Connecting;
                    self.target_addr = Some(target);
                    true
                } else {
                    false
                }
            },
            _ => false,
        }
    }

    /// Drop the devices not seen for [`DEVICE_STALE_AFTER`], keeping the
    /// rest in order, and keep the selection in range. Returns whether any
    /// device was dropped.
    pub fn prune_stale(&mut self, now: u64) -> (removed_any: bool)
        requires
            old(self).wf(),
            forall|i: int|
                0 <= i < old(self).spec_devices().len() ==> (#[trigger] old(self).spec_devices()[i]).last_seen
                    <= now,
        ensures
            final(self).wf(),
            final(self).spec_devices() == old(self).spec_devices().filter(
                |e: ITagEntry| spec_is_fresh(e, now),
            ),
            removed_any == (final(self).spec_devices().len() < old(self).spec_devices().len()),
            final(self).selected_index == (if removed_any {
                clamped_selection(old(self).selected_index, final(self).spec_devices().len() as int)
            } else {
                old(self).selected_index
            }),
            final(self).radar_mode_enabled == old(self).radar_mode_enabled,
            final(self).mode == old(self).mode,
            final(self).target_addr == old(self).target_addr,
    {
        let before = devices_len(&self.devices);
        devices_retain_fresh(&mut self.devices, now);
        let after = devices_len(&self.devices);
        proof {
            old(self).spec_devices().lemma_filter_len(|e: ITagEntry| spec_is_fresh(e, now));
        }
        let removed_any = after < before;
        if removed_any {
            if after == 0 {
                self.selected_index = 0;
            } else if self.selected_index >= after {
                self.selected_index = after - 1;
            }
        }
        removed_any
    }

    /// The tag to connect to, if one was chosen.
    pub fn connect_target(&self) -> (t: Option<BleAddress>)
        ensures
            t == self.target_addr,
            self.wf() && self.mode == Mode::Connecting ==> t is Some,
    {
        self.target_addr
    }

    /// A connection attempt failed or was cancelled: back to scanning.
    pub fn connection_aborted(&mut self)
        ensures
            old(self).wf() ==> final(self).wf(),
            final(self).mode == Mode::Scanning,
            final(self).target_addr == old(self).target_addr,
            final(self).selected_index == old(self).selected_index,
            final(self).radar_mode_enabled == old(self).radar_mode_enabled,
            final(self).devices == old(self).devices,
    {
        self.mode = Mode::Scanning;
    }

    /// The tag acknowledged the alert: it is beeping.
    pub fn alert_started(&mut self)
        ensures
            old(self).wf() ==> final(self).wf(),
            final(self).mode == Mode::Alarming,
            final(self).target_addr == old(self).target_addr,
            final(self).selected_index == old(self).selected_index,
            final(self).radar_mode_enabled == old(self).radar_mode_enabled,
            final(self).devices == old(self).devices,
    {
        self.mode = Mode::Alarming;
    }

    /// The connection to the tag ended: back to scanning, with no target.
    pub fn connection_closed(&mut self)
        ensures
            old(self).wf() ==> final(self).wf(),
            final(self).mode == Mode::Scanning,
            final(self).target_addr is None,
            final(self).selected_index == old(self).selected_index,
            final(self).radar_mode_enabled == old(self).radar_mode_enabled,
            final(self).devices == old(self).devices,
    {
        self.mode = Mode::Scanning;
        self.target_addr = None;
    }

    /// The alarming mode is only held while connected; met outside a
    /// connection, it falls back to scanning.
    pub fn handle_alarming(&mut self)
        ensures
            old(self).wf() ==> final(self).wf(),
            final(self).mode == Mode::Scanning,
            final(self).target_addr == old(self).target_addr,
            final(self).selected_index == old(self).selected_index,
            final(self).radar_mode_enabled == old(self).radar_mode_enabled,
            final(self).devices == old(self).devices,
    {
        self.mode = Mode::Scanning;
    }

    /// The signal strength the radar LEDs show: the selected device's, when
    /// the radar is on and the finder is scanning.
    pub fn radar_rssi(&self) -> (r: Option<i8>)
        requires
            self.wf(),
        ensures
            r == (if self.radar_mode_enabled && self.mode == Mode::Scanning
                && self.selected_index < self.spec_devices().len() {
                Some(self.spec_devices()[self.selected_index as int].rssi)
            } else {
                None
            }),
    {
        if self.radar_mode_enabled && self.mode == Mode::Scanning {
            let n = devices_len(&self.devices);
            if self.selected_index < n {
                Some(devices_get(&self.devices, self.selected_index).rssi)
            } else {
                None
            }
        } else {
            None
        }
    }
}

/// Whether a scan session should be restarted at `now`: after
/// [`SCAN_IDLE_RESTART_AFTER`] without a detection (once something was
/// detected), or after [`SCAN_SESSION_RESTART_AFTER`] in all.
pub fn scan_should_restart(now: u64, scan_started_at: u64, last_detection_at: Option<u64>) -> (restart: bool)
    requires
        scan_started_at <= now,
        last_detection_at matches Some(t) ==> t <= now,
    ensures
        restart == ((last_detection_at matches Some(t) && now - t >= SCAN_IDLE_RESTART_AFTER) || now
            - scan_started_at >= SCAN_SESSION_RESTART_AFTER),
{
    if let Some(t) = last_detection_at {
        if now - t >= SCAN_IDLE_RESTART_AFTER {
            return true;
        }
    }
    now - scan_started_at >= SCAN_SESSION_RESTART_AFTER
}

/// Moving the selection up and then down returns to the same device.
pub proof fn law_up_then_down_restores_selection(n: int, sel: int)
    requires
        0 <= sel < n,
    ensures
        ({
            let up = if sel == 0 {
                n - 1
            } else {
                sel - 1
            };
            (up + 1) % n == sel
        }),
{
    if sel == 0 {
        vstd::arithmetic::div_mod::lemma_mod_self_0(n);
    } else {
        vstd::arithmetic::div_mod::lemma_small_mod(sel as nat, n as nat);
    }
}

} // verus!
