//! What the finder's screen shows, as a list of text items to draw.
//!
//! While scanning: a title, then for each listed device that fits on the
//! round screen a line with its name (selected one marked `> ` in cyan) and
//! its signal strength in the colour of its heat level, then whether the
//! radar is on. While connecting: the target's name and how to cancel.
//! While alarming: a banner and how to stop. When shutting down: a notice.

use vstd::prelude::*;
use vstd::string::{StringExecFns, StringSliceAdditionalSpecFns};
use vstd::utf8::{decode_utf8, encode_utf8_decode_utf8};
use crate::apps::text::{signed_decimal, spec_signed_decimal};
use crate::display::Color565;
use crate::itag::{AppState, BleAddress, ITagEntry, Mode, RssiHeatLevel, addresses_equal, first_match,
    rssi_heat_level, same_address, spec_rssi_heat_level};
use crate::itag::ble::{name_string_as_str, name_string_bytes};

verus! {

/// The fonts the screen uses.
#[derive(Debug, Clone, Copy, PartialEq, Eq, Structural)]
pub enum Font {
    /// 10x20 pixels.
    Large,
    /// 9x15 pixels.
    Small,
}

/// A line of text to draw.
pub struct TextItem {
    pub text: String,
    /// Column of the text's left end, or of its centre when `centered`.
    pub x: i32,
    /// Row of the text's baseline.
    pub y: i32,
    pub color: Color565,
    pub font: Font,
    pub centered: bool,
}

/// A line of text with its characters as a sequence.
pub ghost struct TextItemView {
    pub text: Seq<char>,
    pub x: int,
    pub y: int,
    pub color: Color565,
    pub font: Font,
    pub centered: bool,
}

impl View for TextItem {
    type V = TextItemView;

    open spec fn view(&self) -> TextItemView {
        TextItemView {
            text: self.text@,
            x: self.x as int,
            y: self.y as int,
            color: self.color,
            font: self.font,
            centered: self.centered,
        }
    }
}

/// Red.
pub open spec fn red() -> Color565 {
    Color565 { r: 31, g: 0, b: 0 }
}

/// White.
pub open spec fn white() -> Color565 {
    Color565 { r: 31, g: 63, b: 31 }
}

/// Yellow.
pub open spec fn yellow() -> Color565 {
    Color565 { r: 31, g: 63, b: 0 }
}

/// Green.
pub open spec fn green() -> Color565 {
    Color565 { r: 0, g: 63, b: 0 }
}

/// Cyan.
pub open spec fn cyan() -> Color565 {
    Color565 { r: 0, g: 63, b: 31 }
}

/// The colour of a heat level: red, orange, yellow, green, cyan, blue from
/// hot to far.
pub open spec fn spec_heat_color565(level: RssiHeatLevel) -> Color565 {
    match level {
        RssiHeatLevel::Hot => red(),
        RssiHeatLevel::Warm => Color565 { r: 31, g: 32, b: 0 },
        RssiHeatLevel::Near => yellow(),
        RssiHeatLevel::Cool => green(),
        RssiHeatLevel::Cold => cyan(),
        RssiHeatLevel::Far => Color565 { r: 0, g: 0, b: 31 },
    }
}

/// The colour a signal strength is shown in.
pub fn rssi_color(rssi: i8) -> (c: Color565)
    ensures
        c == spec_heat_color565(spec_rssi_heat_level(rssi)),
        c.wf(),
{
    match rssi_heat_level(rssi) {
        RssiHeatLevel::Hot => Color565 { r: 31, g: 0, b: 0 },
        RssiHeatLevel::Warm => Color565 { r: 31, g: 32, b: 0 },
        RssiHeatLevel::Near => Color565 { r: 31, g: 63, b: 0 },
        RssiHeatLevel::Cool => Color565 { r: 0, g: 63, b: 0 },
        RssiHeatLevel::Cold => Color565 { r: 0, g: 63, b: 31 },
        RssiHeatLevel::Far => Color565 { r: 0, g: 0, b: 31 },
    }
}

/// First row of the device list.
pub const LIST_START_Y: i32 = 65;

/// Rows between device lines.
pub const LIST_ROW_HEIGHT: i32 = 20;

/// Lowest row a device line may use on the round screen.
pub const LIST_LAST_Y: i32 = 215;

/// Left column of the device lines.
pub const LIST_X: i32 = 30;

/// Width of a character of the small font.
pub const SMALL_CHAR_WIDTH: i32 = 9;

/// Device lines that fit above [`LIST_LAST_Y`].
pub const MAX_LISTED: usize = 8;

/// The name a device is listed under.
pub open spec fn listed_name(e: ITagEntry) -> Seq<char> {
    match e.name {
        Some(n) => decode_utf8(name_string_bytes(n)),
        None => "Unknown"@,
    }
}

/// Length in bytes of the name a device is listed under.
pub open spec fn listed_name_len(e: ITagEntry) -> int {
    match e.name {
        Some(n) => name_string_bytes(n).len() as int,
        None => 7,
    }
}

/// The name line of device `i`.
pub open spec fn device_line(e: ITagEntry, i: int, selected: bool) -> TextItemView {
    TextItemView {
        text: (if selected { "> "@ } else { "  "@ }) + listed_name(e) + " "@,
        x: LIST_X as int,
        y: LIST_START_Y + i * LIST_ROW_HEIGHT,
        color: if selected { cyan() } else { white() },
        font: Font::Small,
        centered: false,
    }
}

/// The signal strength of device `i`, right after its name line.
pub open spec fn rssi_item(e: ITagEntry, i: int) -> TextItemView {
    TextItemView {
        text: "RSSI:"@ + spec_signed_decimal(e.rssi),
        x: LIST_X + SMALL_CHAR_WIDTH * (3 + listed_name_len(e)),
        y: LIST_START_Y + i * LIST_ROW_HEIGHT,
        color: spec_heat_color565(spec_rssi_heat_level(e.rssi)),
        font: Font::Small,
        centered: false,
    }
}

/// Item `j` of the device list: name and signal strength of each device in
/// turn.
pub open spec fn device_list_item(devs: Seq<ITagEntry>, selected: int, j: int) -> TextItemView {
    let i = j / 2;
    if j % 2 == 0 {
        device_line(devs[i], i, i == selected)
    } else {
        rssi_item(devs[i], i)
    }
}

/// Number of devices listed.
pub open spec fn listed_count(n: int) -> int {
    if n < MAX_LISTED {
        n
    } else {
        MAX_LISTED as int
    }
}

/// A centred line.
pub open spec fn centered_item(text: Seq<char>, y: int, color: Color565, font: Font) -> TextItemView {
    TextItemView { text, x: 120, y, color, font, centered: true }
}

/// The screen while scanning.
pub open spec fn spec_scanning_screen(devs: Seq<ITagEntry>, selected: int, radar: bool) -> Seq<TextItemView> {
    seq![centered_item("iTag Radar"@, 35, white(), Font::Large)] + Seq::new(
        (2 * listed_count(devs.len() as int)) as nat,
        |j: int| device_list_item(devs, selected, j),
    ) + seq![
        centered_item(
            if radar { "B radar: ON"@ } else { "B radar: OFF"@ },
            206,
            if radar { green() } else { white() },
            Font::Small,
        ),
    ]
}

/// The name shown while connecting: the name of the first listed device
/// with the target's address, or `iTag`.
pub open spec fn connecting_name(devs: Seq<ITagEntry>, target: Option<BleAddress>) -> Seq<char> {
    match target {
        Some(t) => if exists|i: int| first_match(devs, t, i) {
            let i = choose|i: int| first_match(devs, t, i);
            match devs[i].name {
                Some(n) => decode_utf8(name_string_bytes(n)),
                None => "iTag"@,
            }
        } else {
            "iTag"@
        },
        None => "iTag"@,
    }
}

/// The screen while connecting.
pub open spec fn spec_connecting_screen(devs: Seq<ITagEntry>, target: Option<BleAddress>) -> Seq<TextItemView> {
    seq![
        centered_item("Connecting to"@, 95, yellow(), Font::Large),
        centered_item(connecting_name(devs, target), 120, white(), Font::Small),
        centered_item("(Press F to Cancel)"@, 150, white(), Font::Small),
    ]
}

/// The screen while alarming.
pub open spec fn spec_alarming_screen() -> Seq<TextItemView> {
    seq![
        centered_item("!!! ALARMING !!!"@, 110, red(), Font::Large),
        centered_item("(Press F to Stop)"@, 140, white(), Font::Small),
    ]
}

/// The screen while shutting down.
pub open spec fn spec_shutdown_screen() -> Seq<TextItemView> {
    seq![centered_item("Shutting down..."@, 120, red(), Font::Large)]
}

/// The screen for a finder state.
pub open spec fn spec_radar_screen(state: AppState, shutting_down: bool) -> Seq<TextItemView> {
    if shutting_down {
        spec_shutdown_screen()
    } else {
        match state.mode {
            Mode::Scanning => spec_scanning_screen(
                state.spec_devices(),
                state.selected_index as int,
                state.radar_mode_enabled,
            ),
            Mode::Connecting => spec_connecting_screen(state.spec_devices(), state.target_addr),
            Mode::Alarming => spec_alarming_screen(),
        }
    }
}

/// The views of a list of items.
pub open spec fn items_view(items: Seq<TextItem>) -> Seq<TextItemView> {
    items.map_values(|t: TextItem| t@)
}

fn centered(text: &str, y: i32, color: Color565, font: Font) -> (item: TextItem)
    ensures
        item@ == centered_item(text@, y as int, color, font),
{
    TextItem { text: String::from_str(text), x: 120, y, color, font, centered: true }
}

fn name_chars(n: &heapless::String<32>) -> (s: &str)
    ensures
        s@ == decode_utf8(name_string_bytes(*n)),
        s.spec_bytes().len() == name_string_bytes(*n).len(),
        s.spec_bytes().len() <= 32,
{
    let s = name_string_as_str(n);
    proof {
        encode_utf8_decode_utf8(s@);
    }
    s
}

/// The screen shown while the badge shuts down.
pub fn shutdown_screen() -> (items: Vec<TextItem>)
    ensures
        items_view(items@) == spec_shutdown_screen(),
{
    let mut items: Vec<TextItem> = Vec::new();
    items.push(centered("Shutting down...", 120, Color565 { r: 31, g: 0, b: 0 }, Font::Large));
    assert(items_view(items@) =~= spec_shutdown_screen());
    items
}

fn device_items(e: &ITagEntry, i: usize, selected: bool) -> (pair: (TextItem, TextItem))
    requires
        i < MAX_LISTED,
    ensures
        pair.0@ == device_line(*e, i as int, selected),
        pair.1@ == rssi_item(*e, i as int),
{
    let mut line = if selected {
        String::from_str("> ")
    } else {
        String::from_str("  ")
    };
    let name_len: usize = match &e.name {
        Some(n) => {
            let s = name_chars(n);
            line.append(s);
            s.len()
        },
        None => {
            line.append("Unknown");
            proof { reveal_strlit("Unknown"); }
            7
        },
    };
    line.append(" ");
    let y: i32 = LIST_START_Y + (i as i32) * LIST_ROW_HEIGHT;
    let name_item = TextItem {
        text: line,
        x: LIST_X,
        y,
        color: if selected { Color565 { r: 0, g: 63, b: 31 } } else { Color565 { r: 31, g: 63, b: 31 } },
        font: Font::Small,
        centered: false,
    };
    let mut rssi_text = String::from_str("RSSI:");
    let digits = signed_decimal(e.rssi);
    rssi_text.append(digits.as_str());
    let width: i32 = SMALL_CHAR_WIDTH * (3 + name_len as i32);
    let rssi = TextItem {
        text: rssi_text,
        x: LIST_X + width,
        y,
        color: rssi_color(e.rssi),
        font: Font::Small,
        centered: false,
    };
    (name_item, rssi)
}

fn connecting_name_str<'a>(state: &'a AppState) -> (s: String)
    requires
        state.wf(),
    ensures
        s@ == connecting_name(state.spec_devices(), state.target_addr),
{
    let devs = Ghost(state.spec_devices());
    match state.target_addr {
        None => {
            proof { reveal_strlit("iTag"); }
            String::from_str("iTag")
        },
        Some(target) => {
            let n = state.device_count();
            let mut j: usize = 0;
            while j < n
                invariant
                    n == devs@.len(),
                    devs@ == state.spec_devices(),
                    state.target_addr == Some(target),
                    0 <= j <= n,
                    forall|k: int| 0 <= k < j ==> !same_address((#[trigger] devs@[k]).addr, target),
                decreases n - j,
            {
                let e = state.device(j);
                if addresses_equal(&e.addr, &target) {
                    proof {
                        assert(first_match(devs@, target, j as int));
                        let i = choose|i: int| first_match(devs@, target, i);
                        crate::itag::lemma_first_match_unique(devs@, target, i, j as int);
                    }
                    return match &e.name {
                        Some(name) => String::from_str(name_chars(name)),
                        None => String::from_str("iTag"),
                    };
                }
                j = j + 1;
            }
            proof {
                assert forall|i: int| !first_match(devs@, target, i) by {
                    if first_match(devs@, target, i) {
                        assert(!same_address(devs@[i].addr, target));
                    }
                }
            }
            String::from_str("iTag")
        },
    }
}

/// The items to draw for the finder's state, or the shutdown notice while
/// the badge shuts down.
pub fn radar_screen(state: &AppState, shutting_down: bool) -> (items: Vec<TextItem>)
    requires
        state.wf(),
    ensures
        items_view(items@) == spec_radar_screen(*state, shutting_down),
{
    if shutting_down {
        return shutdown_screen();
    }
    let white = Color565 { r: 31, g: 63, b: 31 };
    let mut items: Vec<TextItem> = Vec::new();
    match state.mode {
        Mode::Scanning => {
            items.push(centered("iTag Radar", 35, white, Font::Large));
            let n = state.device_count();
            let shown: usize = if n < MAX_LISTED { n } else { MAX_LISTED };
            let ghost devs = state.spec_devices();
            let ghost sel = state.selected_index as int;
            let mut i: usize = 0;
            while i < shown
                invariant
                    devs == state.spec_devices(),
                    sel == state.selected_index as int,
                    n == devs.len(),
                    shown == listed_count(n as int),
                    0 <= i <= shown,
                    items_view(items@) =~= seq![centered_item("iTag Radar"@, 35, white, Font::Large)]
                        + Seq::new((2 * i) as nat, |j: int| device_list_item(devs, sel, j)),
                decreases shown - i,
            {
                let e = state.device(i);
                let (line, rssi) = device_items(e, i, i == state.selected_index);
                let ghost before = items@;
                items.push(line);
                items.push(rssi);
                proof {
                    let f = |j: int| device_list_item(devs, sel, j);
                    assert(f(2 * i) == device_line(devs[i as int], i as int, i == sel));
                    assert(f(2 * i + 1) == rssi_item(devs[i as int], i as int));
                    let title = seq![centered_item("iTag Radar"@, 35, white, Font::Large)];
                    let prev = title + Seq::new((2 * i) as nat, f);
                    let next = title + Seq::new((2 * (i + 1)) as nat, f);
                    assert(items_view(before) == prev);
                    assert(items@ == before.push(line).push(rssi));
                    let lhs = items_view(items@);
                    assert(lhs.len() == items@.len());
                    assert(items_view(before).len() == before.len());
                    assert(prev.len() == 1 + 2 * i);
                    assert(next.len() == 1 + 2 * (i + 1));
                    assert(lhs.len() == next.len());
                    assert forall|k: int| 0 <= k < lhs.len() implies lhs[k] == next[k] by {
                        if k < prev.len() {
                            assert(lhs[k] == items@[k]@);
                            assert(items@[k] == before[k]);
                            assert(items_view(before)[k] == before[k]@);
                        } else if k == prev.len() {
                            assert(lhs[k] == line@);
                        } else {
                            assert(lhs[k] == rssi@);
                        }
                    }
                    assert(lhs =~= next);
                }
                i = i + 1;
            }
            if state.radar_mode_enabled {
                items.push(centered("B radar: ON", 206, Color565 { r: 0, g: 63, b: 0 }, Font::Small));
            } else {
                items.push(centered("B radar: OFF", 206, white, Font::Small));
            }
            assert(items_view(items@) =~= spec_radar_screen(*state, shutting_down));
        },
        Mode::Connecting => {
            items.push(centered("Connecting to", 95, Color565 { r: 31, g: 63, b: 0 }, Font::Large));
            let name = connecting_name_str(state);
            items.push(TextItem { text: name, x: 120, y: 120, color: white, font: Font::Small, centered: true });
            items.push(centered("(Press F to Cancel)", 150, white, Font::Small));
            assert(items_view(items@) =~= spec_radar_screen(*state, shutting_down));
        },
        Mode::Alarming => {
            items.push(centered("!!! ALARMING !!!", 110, Color565 { r: 31, g: 0, b: 0 }, Font::Large));
            items.push(centered("(Press F to Stop)", 140, white, Font::Small));
            assert(items_view(items@) =~= spec_radar_screen(*state, shutting_down));
        },
    }
    items
}

} // verus!
