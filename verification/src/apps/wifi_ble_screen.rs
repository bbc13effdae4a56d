//! The scanner's animated screen: a ball that bounces between the sides, a
//! triangle whose tip bobs, and two bars that grow with the WiFi network and
//! BLE device counts, under lines of text with the battery voltage and the
//! scan counts. The screen is redrawn about thirty times a second.

use vstd::prelude::*;
use crate::display::Color565;
use crate::apps::text::{labelled_count, spec_decimal, spec_volts, volts};
use vstd::string::StringExecFns;

verus! {

/// Left edge of the two count bars.
pub const BAR_FILL_LEFT: i32 = 68;

/// Widest a count bar gets.
pub const BAR_MAX_WIDTH: u32 = 124;

/// Narrowest a count bar gets.
pub const BAR_MIN_WIDTH: u32 = 10;

/// Width a count bar grows by per counted item.
pub const BAR_WIDTH_PER_ITEM: u32 = 7;

/// `a / b` rounded toward zero, as Rust's integer division does.
pub open spec fn trunc_div(a: int, b: int) -> int {
    if a >= 0 {
        a / b
    } else {
        -((-a) / b)
    }
}

/// The period in use: a period of zero counts as one.
pub open spec fn effective_period(period: u32) -> int {
    if period < 1 {
        1
    } else {
        period as int
    }
}

/// `x`, a value below 2^32, read as an `i32` as `as i32` reads a `u32`.
pub open spec fn wrap_i32(x: int) -> int {
    if x < 0x8000_0000 {
        x
    } else {
        x - 0x1_0000_0000
    }
}

/// Whether `x` fits in an `i32`.
pub open spec fn in_i32(x: int) -> bool {
    i32::MIN <= x <= i32::MAX
}

/// The magnitude of `x`.
pub open spec fn magnitude(x: int) -> int {
    if x < 0 {
        -x
    } else {
        x
    }
}

/// `a / b` for a nonzero `b`, rounded toward zero, as Rust's integer
/// division does.
pub open spec fn rust_div(a: int, b: int) -> int {
    let q = magnitude(a) / magnitude(b);
    if (a >= 0) == (b > 0) {
        q
    } else {
        -q
    }
}

/// The frames in a bounce cycle: twice the period, saturating, and at
/// least two.
pub open spec fn bounce_cycle(period: u32) -> int {
    let d = 2 * period;
    if d > u32::MAX {
        u32::MAX as int
    } else if d < 2 {
        2
    } else {
        d
    }
}

/// The position in the cycle, as the `i32` the computation uses.
pub open spec fn bounce_step(frame: u32, period: u32) -> int {
    wrap_i32((frame as int) % bounce_cycle(period))
}

/// The period in use, as the `i32` the computation uses.
pub open spec fn bounce_period(period: u32) -> int {
    wrap_i32(effective_period(period))
}

/// The scaled distance from `min`, before the division by the period:
/// the step times the span on the way out, the steps left times the span
/// on the way back.
pub open spec fn bounce_numerator(frame: u32, min: i32, max: i32, period: u32) -> int {
    let step = bounce_step(frame, period);
    let p = bounce_period(period);
    if step < p {
        step * (max - min)
    } else {
        (2 * p - step) * (max - min)
    }
}

/// Position in the bounce cycle: it goes from `min` to `max` in `period`
/// frames and back in as many.
pub open spec fn spec_ping_pong(frame: u32, min: i32, max: i32, period: u32) -> int {
    min + rust_div(bounce_numerator(frame, min, max, period), bounce_period(period))
}

/// The inputs on which every step of the computation stays within `i32`.
pub open spec fn ping_pong_fits(frame: u32, min: i32, max: i32, period: u32) -> bool {
    let span = max - min;
    let step = bounce_step(frame, period);
    let p = bounce_period(period);
    let n = bounce_numerator(frame, min, max, period);
    &&& in_i32(span)
    &&& step < p ==> in_i32(step * span)
    &&& step >= p ==> in_i32(2 * p) && in_i32(2 * p - step) && in_i32(n)
    &&& !(p == -1 && n == i32::MIN)
    &&& in_i32(min + rust_div(n, p))
}

/// `a / b` as Rust's `i32` division computes it.
fn div_trunc(a: i32, b: i32) -> (r: i32)
    requires
        b != 0,
        !(a == i32::MIN && b == -1),
    ensures
        r == rust_div(a as int, b as int),
{
    if b > 0 {
        a / b
    } else if b == i32::MIN {
        if a == i32::MIN {
            1
        } else {
            0
        }
    } else {
        let q = a / (-b);
        assert(q == rust_div(a as int, -(b as int)));
        assert(magnitude(q as int) <= magnitude(a as int)) by (nonlinear_arith)
            requires
                q == rust_div(a as int, -(b as int)),
                -(b as int) >= 1,
        {
            assert(magnitude(a as int) / (-(b as int)) <= magnitude(a as int)) by (nonlinear_arith)
                requires
                    -(b as int) >= 1,
                    magnitude(a as int) >= 0,
            ;
        }
        if a == i32::MIN {
            assert(magnitude(q as int) <= 0x4000_0000) by (nonlinear_arith)
                requires
                    q == rust_div(a as int, -(b as int)),
                    -(b as int) >= 2,
                    magnitude(a as int) == 0x8000_0000,
            {
                assert(0x8000_0000int / (-(b as int)) <= 0x8000_0000int / 2) by (nonlinear_arith)
                    requires
                        -(b as int) >= 2,
                ;
            }
        }
        -q
    }
}

proof fn lemma_wrap_i32(x: u32)
    ensures
        (x as i32) as int == wrap_i32(x as int),
{
    assert(x < 0x8000_0000u32 ==> (x as i32) as int == x as int) by (bit_vector);
    assert(x >= 0x8000_0000u32 ==> (x as i32) as int == x as int - 0x1_0000_0000) by (bit_vector);
}

/// With a period that fits in an `i32` twice over, the cycle is twice the
/// period and the step and period are plain.
proof fn lemma_plain_bounce(frame: u32, period: u32)
    requires
        period <= 0x3FFF_FFFF,
    ensures
        bounce_cycle(period) == 2 * effective_period(period),
        bounce_period(period) == effective_period(period),
        bounce_step(frame, period) == (frame as int) % (2 * effective_period(period)),
{
    let c = bounce_cycle(period);
    assert(0 <= (frame as int) % c < c);
}

proof fn lemma_scaled_step(q: int, p: int, span: int)
    requires
        0 <= q <= p,
        p > 0,
        p * span <= i32::MAX,
        p * (-span) <= i32::MAX,
    ensures
        -(i32::MAX as int) <= q * span <= i32::MAX,
        span >= 0 ==> 0 <= trunc_div(q * span, p) <= span,
        span < 0 ==> span <= trunc_div(q * span, p) <= 0,
        q == 0 ==> trunc_div(q * span, p) == 0,
        q == p ==> trunc_div(q * span, p) == span,
{
    if span >= 0 {
        assert(0 <= q * span <= p * span) by (nonlinear_arith)
            requires
                0 <= q <= p,
                span >= 0,
        ;
        assert(0 <= (q * span) / p <= span) by (nonlinear_arith)
            requires
                0 <= q * span <= p * span,
                p > 0,
        ;
        assert(q == p ==> (q * span) / p == span) by (nonlinear_arith)
            requires
                p > 0,
        ;
    } else {
        let n = -span;
        assert(0 <= q * n <= p * n) by (nonlinear_arith)
            requires
                0 <= q <= p,
                n > 0,
        ;
        assert(q * span == -(q * n)) by (nonlinear_arith)
            requires
                n == -span,
        ;
        assert(0 <= (q * n) / p <= n) by (nonlinear_arith)
            requires
                0 <= q * n <= p * n,
                p > 0,
        ;
        assert(q == p ==> (q * n) / p == n) by (nonlinear_arith)
            requires
                p > 0,
        ;
        assert(q == 0 ==> q * n == 0);
    }
}

/// Position in a bounce between `min` and `max` that takes `period` frames
/// each way.
pub fn ping_pong(frame: u32, min: i32, max: i32, period: u32) -> (v: i32)
    requires
        ping_pong_fits(frame, min, max, period),
    ensures
        v == spec_ping_pong(frame, min, max, period),
{
    let span: i32 = max - min;
    let doubled: u32 = match period.checked_mul(2) {
        Some(d) => d,
        None => u32::MAX,
    };
    let cycle: u32 = if doubled < 2 {
        2
    } else {
        doubled
    };
    let step_u: u32 = frame % cycle;
    let step: i32 = step_u as i32;
    let p_u: u32 = if period < 1 {
        1
    } else {
        period
    };
    let p: i32 = p_u as i32;
    proof {
        lemma_wrap_i32(step_u);
        lemma_wrap_i32(p_u);
        assert(cycle == bounce_cycle(period));
        assert(step == bounce_step(frame, period));
        assert(p == bounce_period(period));
        assert(p != 0);
    }
    let offset: i32 = if step < p {
        div_trunc(step * span, p)
    } else {
        div_trunc((p * 2 - step) * span, p)
    };
    min + offset
}

/// A bounce never leaves the range between its ends.
pub proof fn law_ping_pong_stays_in_range(frame: u32, min: i32, max: i32, period: u32)
    requires
        period <= 0x3FFF_FFFF,
        effective_period(period) * (max - min) <= i32::MAX,
        min <= max,
    ensures
        ping_pong_fits(frame, min, max, period),
        min <= spec_ping_pong(frame, min, max, period) <= max,
{
    lemma_plain_bounce(frame, period);
    let p = effective_period(period);
    let span = max - min;
    assert(p * (-span) <= i32::MAX && span <= p * span) by (nonlinear_arith)
        requires
            p >= 1,
            span >= 0,
    ;
    let step = (frame as int) % (2 * p);
    assert(0 <= step < 2 * p);
    if step < p {
        lemma_scaled_step(step, p, span);
    } else {
        lemma_scaled_step(2 * p - step, p, span);
    }
}

/// A bounce starts each cycle at `min` and turns at `max` half-way through.
pub proof fn law_ping_pong_turns_at_ends(frame: u32, min: i32, max: i32, period: u32)
    requires
        period <= 0x3FFF_FFFF,
        in_i32(max - min),
        effective_period(period) * (max - min) <= i32::MAX,
        effective_period(period) * (min - max) <= i32::MAX,
    ensures
        (frame as int) % (2 * effective_period(period)) == 0 ==> spec_ping_pong(frame, min, max, period) == min,
        (frame as int) % (2 * effective_period(period)) == effective_period(period) ==> spec_ping_pong(
            frame,
            min,
            max,
            period,
        ) == max,
{
    lemma_plain_bounce(frame, period);
    let p = effective_period(period);
    let step = (frame as int) % (2 * p);
    assert(0 <= step < 2 * p);
    if step == 0 {
        lemma_scaled_step(0, p, max - min);
    }
    if step == p {
        lemma_scaled_step(p, p, max - min);
    }
}

/// The width of a count bar: seven pixels per item, saturating, kept
/// between [`BAR_MIN_WIDTH`] and [`BAR_MAX_WIDTH`].
pub open spec fn spec_bar_width(count: u32) -> u32 {
    let grown = if count * BAR_WIDTH_PER_ITEM > u32::MAX {
        u32::MAX
    } else {
        (count * BAR_WIDTH_PER_ITEM) as u32
    };
    if grown < BAR_MIN_WIDTH {
        BAR_MIN_WIDTH
    } else if grown > BAR_MAX_WIDTH {
        BAR_MAX_WIDTH
    } else {
        grown
    }
}

/// The width of a count bar.
pub fn bar_width(count: u32) -> (w: u32)
    ensures
        w == spec_bar_width(count),
{
    let grown: u32 = match count.checked_mul(BAR_WIDTH_PER_ITEM) {
        Some(g) => g,
        None => u32::MAX,
    };
    if grown < BAR_MIN_WIDTH {
        BAR_MIN_WIDTH
    } else if grown > BAR_MAX_WIDTH {
        BAR_MAX_WIDTH
    } else {
        grown
    }
}

/// The colour of the BLE bar in frame `frame`: red, green and blue in turn.
pub open spec fn spec_accent(frame: u32) -> Color565 {
    if frame % 3 == 0 {
        Color565 { r: 31, g: 0, b: 0 }
    } else if frame % 3 == 1 {
        Color565 { r: 0, g: 63, b: 0 }
    } else {
        Color565 { r: 0, g: 0, b: 31 }
    }
}

/// The moving parts of one frame of the screen.
#[derive(Debug, Clone, Copy, PartialEq, Eq, Structural)]
pub struct FrameState {
    /// Horizontal centre of the bouncing ball.
    pub circle_center_x: i32,
    /// Row of the triangle's tip.
    pub triangle_tip_y: i32,
    /// Width of the WiFi bar.
    pub wifi_bar_width: u32,
    /// Width of the BLE bar.
    pub ble_bar_width: u32,
    /// Colour of the BLE bar.
    pub accent: Color565,
}

/// The moving parts of frame `frame`, with `wifi_networks` networks and
/// `ble_seen` BLE devices counted.
pub fn frame_state(frame: u32, wifi_networks: u32, ble_seen: u32) -> (state: FrameState)
    ensures
        state.circle_center_x == spec_ping_pong(frame, 42, 198, 20),
        state.triangle_tip_y == spec_ping_pong(frame.wrapping_add(10), 154, 188, 24),
        state.wifi_bar_width == spec_bar_width(wifi_networks),
        state.ble_bar_width == spec_bar_width(ble_seen),
        state.accent == spec_accent(frame),
        state.accent.wf(),
{
    let accent = if frame % 3 == 0 {
        Color565 { r: 31, g: 0, b: 0 }
    } else if frame % 3 == 1 {
        Color565 { r: 0, g: 63, b: 0 }
    } else {
        Color565 { r: 0, g: 0, b: 31 }
    };
    proof {
        law_ping_pong_stays_in_range(frame, 42, 198, 20);
        law_ping_pong_stays_in_range(frame.wrapping_add(10), 154, 188, 24);
    }
    FrameState {
        circle_center_x: ping_pong(frame, 42, 198, 20),
        triangle_tip_y: ping_pong(frame.wrapping_add(10), 154, 188, 24),
        wifi_bar_width: bar_width(wifi_networks),
        ble_bar_width: bar_width(ble_seen),
        accent,
    }
}

/// Frame period aimed at, in milliseconds.
pub const TARGET_FRAME_MS: u64 = 33;

/// Pause after a frame that overran its period, in milliseconds.
pub const OVERRUN_PAUSE_MS: u64 = 1;

/// How long to wait after a frame whose drawing took `elapsed_ms`: the rest
/// of the frame period, or a short yield when the frame overran it.
pub fn frame_delay_ms(elapsed_ms: u64) -> (delay: u64)
    ensures
        elapsed_ms < TARGET_FRAME_MS ==> delay == TARGET_FRAME_MS - elapsed_ms,
        elapsed_ms >= TARGET_FRAME_MS ==> delay == OVERRUN_PAUSE_MS,
{
    if elapsed_ms < TARGET_FRAME_MS {
        TARGET_FRAME_MS - elapsed_ms
    } else {
        OVERRUN_PAUSE_MS
    }
}

/// Wait before reading the battery again after a good reading, in
/// milliseconds.
pub const BATTERY_REFRESH_MS: u64 = 30_000;

/// Wait before reading the battery again after a failed or empty reading,
/// in milliseconds.
pub const BATTERY_RETRY_MS: u64 = 1_000;

/// Whether a battery reading is kept: it must show a voltage.
pub open spec fn spec_reading_is_kept(vbat_millivolts: Option<u32>) -> bool {
    vbat_millivolts matches Some(mv) && mv > 0
}

/// Whether a battery reading (`None` when the read failed) is kept for
/// display: only one with a voltage is.
pub fn reading_is_kept(vbat_millivolts: Option<u32>) -> (kept: bool)
    ensures
        kept == spec_reading_is_kept(vbat_millivolts),
{
    match vbat_millivolts {
        Some(mv) => mv > 0,
        None => false,
    }
}

/// When to read the battery again after a reading (`None` when the read
/// failed), in milliseconds.
pub fn battery_refresh_interval_ms(vbat_millivolts: Option<u32>) -> (ms: u64)
    ensures
        spec_reading_is_kept(vbat_millivolts) ==> ms == BATTERY_REFRESH_MS,
        !spec_reading_is_kept(vbat_millivolts) ==> ms == BATTERY_RETRY_MS,
{
    if reading_is_kept(vbat_millivolts) {
        BATTERY_REFRESH_MS
    } else {
        BATTERY_RETRY_MS
    }
}

/// The battery line for the kept voltage, if any.
pub open spec fn spec_battery_label(vbat_millivolts: Option<u32>) -> Seq<char> {
    match vbat_millivolts {
        Some(mv) => "battery: "@ + spec_volts(mv as nat),
        None => "battery: --.-V"@,
    }
}

/// The battery line: the voltage with two decimals, or dashes before the
/// first good reading.
pub fn battery_label(vbat_millivolts: Option<u32>) -> (s: String)
    ensures
        s@ == spec_battery_label(vbat_millivolts),
{
    match vbat_millivolts {
        Some(mv) => {
            let mut s = String::from_str("battery: ");
            let v = volts(mv);
            s.append(v.as_str());
            s
        },
        None => String::from_str("battery: --.-V"),
    }
}

/// The voltage a battery line was made for, in millivolts, with -1000
/// standing for "none".
pub open spec fn shown_millivolts(vbat_millivolts: Option<u32>) -> int {
    match vbat_millivolts {
        Some(mv) => mv as int,
        None => -1000,
    }
}

/// Whether the battery line must be made again: the voltage moved by more
/// than 10 mV since it was made.
pub fn battery_label_is_stale(shown: Option<u32>, current: Option<u32>) -> (stale: bool)
    ensures
        stale == (shown_millivolts(current) - shown_millivolts(shown) > 10 || shown_millivolts(
            shown,
        ) - shown_millivolts(current) > 10),
{
    let a: i64 = match shown {
        Some(mv) => mv as i64,
        None => -1000,
    };
    let b: i64 = match current {
        Some(mv) => mv as i64,
        None => -1000,
    };
    b - a > 10 || a - b > 10
}

/// The WiFi scan count line.
pub fn wifi_scans_label(scans: u32) -> (s: String)
    ensures
        s@ == "WiFi scans: "@ + spec_decimal(scans as nat),
{
    labelled_count("WiFi scans: ", scans)
}

/// The WiFi network count line.
pub fn networks_label(networks: u32) -> (s: String)
    ensures
        s@ == "Networks: "@ + spec_decimal(networks as nat),
{
    labelled_count("Networks: ", networks)
}

/// The BLE device count line.
pub fn ble_seen_label(seen: u32) -> (s: String)
    ensures
        s@ == "BLE seen: "@ + spec_decimal(seen as nat),
{
    labelled_count("BLE seen: ", seen)
}

/// Length of the window over which frames are counted, in milliseconds.
pub const FPS_WINDOW_MS: u64 = 1_000;

/// Counts frames drawn per second.
pub struct FpsCounter {
    /// Frames drawn since the window began.
    pub frames: u32,
    /// When the window began, in milliseconds.
    pub window_start_ms: u64,
}

impl FpsCounter {
    /// A counter whose window begins at `now_ms`.
    pub fn new(now_ms: u64) -> (c: Self)
        ensures
            c.frames == 0,
            c.window_start_ms == now_ms,
    {
        FpsCounter { frames: 0, window_start_ms: now_ms }
    }

    /// Counts a frame drawn at `now_ms`. Once a full window has passed it
    /// returns the frames counted in it and begins a new window.
    pub fn tick(&mut self, now_ms: u64) -> (rate: Option<u32>)
        requires
            old(self).frames < u32::MAX,
            old(self).window_start_ms <= now_ms,
        ensures
            now_ms - old(self).window_start_ms >= FPS_WINDOW_MS ==> {
                &&& rate == Some((old(self).frames + 1) as u32)
                &&& final(self).frames == 0
                &&& final(self).window_start_ms == now_ms
            },
            now_ms - old(self).window_start_ms < FPS_WINDOW_MS ==> {
                &&& rate is None
                &&& final(self).frames == old(self).frames + 1
                &&& final(self).window_start_ms == old(self).window_start_ms
            },
    {
        self.frames = self.frames + 1;
        if now_ms - self.window_start_ms >= FPS_WINDOW_MS {
            let rate = self.frames;
            self.frames = 0;
            self.window_start_ms = now_ms;
            Some(rate)
        } else {
            None
        }
    }
}

} // verus!
