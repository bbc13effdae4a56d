//! The radar LEDs: while scanning with the radar on, LEDs 1 to 12 pulse in
//! a colour that shows how close the selected tag is.

use vstd::prelude::*;
use crate::itag::{RssiHeatLevel, rssi_heat_level, spec_rssi_heat_level};
use crate::leds::{NUM_LEDS, Rgb8};

verus! {

/// First LED of the radar ring.
pub const RADAR_LED_FIRST: usize = 1;

/// Last LED of the radar ring.
pub const RADAR_LED_LAST: usize = 12;

/// Wait between checks while the radar is idle, in microseconds.
pub const RADAR_PULSE_IDLE: u64 = 200_000;

/// Wait between pulse steps, in microseconds.
pub const RADAR_PULSE_STEP: u64 = 90_000;

/// Steps in one pulse cycle.
pub const RADAR_PULSE_STEPS: u8 = 24;

/// Dimmest point of the pulse.
pub const RADAR_MIN_BRIGHTNESS: u8 = 12;

/// Brightest point of the pulse.
pub const RADAR_MAX_BRIGHTNESS: u8 = 96;

/// The colour of a heat level.
pub open spec fn spec_heat_color(level: RssiHeatLevel) -> Rgb8 {
    match level {
        RssiHeatLevel::Hot => Rgb8 { r: 255, g: 0, b: 0 },
        RssiHeatLevel::Warm => Rgb8 { r: 255, g: 96, b: 0 },
        RssiHeatLevel::Near => Rgb8 { r: 255, g: 200, b: 0 },
        RssiHeatLevel::Cool => Rgb8 { r: 0, g: 255, b: 0 },
        RssiHeatLevel::Cold => Rgb8 { r: 0, g: 200, b: 255 },
        RssiHeatLevel::Far => Rgb8 { r: 0, g: 0, b: 255 },
    }
}

/// The colour of a heat level: red for hot through blue for far.
pub fn heat_color(level: RssiHeatLevel) -> (c: Rgb8)
    ensures
        c == spec_heat_color(level),
{
    match level {
        RssiHeatLevel::Hot => Rgb8 { r: 255, g: 0, b: 0 },
        RssiHeatLevel::Warm => Rgb8 { r: 255, g: 96, b: 0 },
        RssiHeatLevel::Near => Rgb8 { r: 255, g: 200, b: 0 },
        RssiHeatLevel::Cool => Rgb8 { r: 0, g: 255, b: 0 },
        RssiHeatLevel::Cold => Rgb8 { r: 0, g: 200, b: 255 },
        RssiHeatLevel::Far => Rgb8 { r: 0, g: 0, b: 255 },
    }
}

/// A channel scaled by `brightness` out of 255, rounded down.
pub open spec fn spec_scale_channel(value: u8, brightness: u8) -> u8 {
    ((value * brightness) / 255) as u8
}

/// A channel scaled by `brightness` out of 255, rounded down.
pub fn scale_channel(value: u8, brightness: u8) -> (s: u8)
    ensures
        s == spec_scale_channel(value, brightness),
        s <= value,
{
    assert(value * brightness <= 255 * 255) by (nonlinear_arith)
        requires
            value <= 255,
            brightness <= 255,
    ;
    assert((value * brightness) / 255 <= value) by (nonlinear_arith)
        requires
            brightness <= 255,
            value <= 255,
    ;
    ((value as u16 * brightness as u16) / 255) as u8
}

/// A colour scaled by `brightness` out of 255.
pub open spec fn spec_scale_color(c: Rgb8, brightness: u8) -> Rgb8 {
    Rgb8 {
        r: spec_scale_channel(c.r, brightness),
        g: spec_scale_channel(c.g, brightness),
        b: spec_scale_channel(c.b, brightness),
    }
}

/// A colour scaled by `brightness` out of 255.
pub fn scale_color(color: Rgb8, brightness: u8) -> (c: Rgb8)
    ensures
        c == spec_scale_color(color, brightness),
{
    Rgb8 {
        r: scale_channel(color.r, brightness),
        g: scale_channel(color.g, brightness),
        b: scale_channel(color.b, brightness),
    }
}

/// The pulse brightness at `step` of the cycle: a linear ramp from the
/// minimum at step 0 up to the maximum at step 12 and back down.
pub open spec fn spec_pulse_brightness(step: u8) -> int {
    let half_cycle: int = RADAR_PULSE_STEPS as int / 2;
    let ramp: int = if step < half_cycle {
        step as int
    } else {
        RADAR_PULSE_STEPS - step
    };
    RADAR_MIN_BRIGHTNESS + ((RADAR_MAX_BRIGHTNESS - RADAR_MIN_BRIGHTNESS) * ramp) / half_cycle
}

/// The pulse brightness at `step` of the cycle.
pub fn pulse_brightness(step: u8) -> (b: u8)
    requires
        step <= RADAR_PULSE_STEPS,
    ensures
        b == spec_pulse_brightness(step),
        RADAR_MIN_BRIGHTNESS <= b <= RADAR_MAX_BRIGHTNESS,
{
    let half_cycle = RADAR_PULSE_STEPS / 2;
    let ramp = if step < half_cycle {
        step
    } else {
        RADAR_PULSE_STEPS - step
    };
    let span = (RADAR_MAX_BRIGHTNESS - RADAR_MIN_BRIGHTNESS) as u16;
    assert((span * ramp) / (half_cycle as int) <= 84) by (nonlinear_arith)
        requires
            span == 84,
            ramp <= 12,
            half_cycle == 12,
    ;
    RADAR_MIN_BRIGHTNESS + ((span * ramp as u16) / half_cycle as u16) as u8
}

/// The pulse rises and falls symmetrically around its midpoint.
pub proof fn law_pulse_is_symmetric(step: u8)
    requires
        0 < step < RADAR_PULSE_STEPS,
    ensures
        spec_pulse_brightness(step) == spec_pulse_brightness((RADAR_PULSE_STEPS - step) as u8),
{
}

/// The radar frame: LEDs 1 to 12 in `color` at `brightness`, the rest off.
pub open spec fn spec_radar_frame(color: Rgb8, brightness: u8) -> Seq<Rgb8> {
    Seq::new(
        NUM_LEDS as nat,
        |i: int|
            if RADAR_LED_FIRST <= i <= RADAR_LED_LAST {
                spec_scale_color(color, brightness)
            } else {
                Rgb8 { r: 0, g: 0, b: 0 }
            },
    )
}

/// The radar frame: LEDs 1 to 12 in `color` at `brightness`, the rest off.
pub fn radar_frame(color: Rgb8, brightness: u8) -> (frame: [Rgb8; 19])
    ensures
        frame@ == spec_radar_frame(color, brightness),
{
    let mut frame = [Rgb8::black(); 19];
    let pulsed = scale_color(color, brightness);
    let mut led: usize = RADAR_LED_FIRST;
    while led <= RADAR_LED_LAST
        invariant
            RADAR_LED_FIRST <= led <= RADAR_LED_LAST + 1,
            pulsed == spec_scale_color(color, brightness),
            forall|i: int|
                0 <= i < NUM_LEDS ==> #[trigger] frame@[i] == (if RADAR_LED_FIRST <= i < led {
                    pulsed
                } else {
                    Rgb8 { r: 0, g: 0, b: 0 }
                }),
        decreases RADAR_LED_LAST + 1 - led,
    {
        frame[led] = pulsed;
        led = led + 1;
    }
    assert(frame@ =~= spec_radar_frame(color, brightness));
    frame
}

/// What the radar LEDs do next.
#[derive(Debug, Clone, Copy, PartialEq, Eq)]
pub enum RadarAction {
    /// Write this frame, then wait [`RADAR_PULSE_STEP`].
    Show([Rgb8; 19]),
    /// Switch the LEDs off, then wait [`RADAR_PULSE_IDLE`].
    Clear,
    /// Leave the LEDs off and wait [`RADAR_PULSE_IDLE`].
    Idle,
}

/// How long to wait after an action, in microseconds: a pulse step after a
/// frame, the idle wait otherwise.
pub fn radar_wait_us(action: &RadarAction) -> (wait: u64)
    ensures
        *action is Show ==> wait == RADAR_PULSE_STEP,
        !(*action is Show) ==> wait == RADAR_PULSE_IDLE,
{
    match action {
        RadarAction::Show(_) => RADAR_PULSE_STEP,
        _ => RADAR_PULSE_IDLE,
    }
}

/// The radar LED task's state: the position in the pulse cycle and whether
/// the LEDs are known to be off.
pub struct RadarLeds {
    pub pulse_step: u8,
    pub cleared: bool,
}

impl RadarLeds {
    /// At start the LEDs count as off.
    pub fn new() -> (r: Self)
        ensures
            r.pulse_step == 0,
            r.cleared,
    {
        RadarLeds { pulse_step: 0, cleared: true }
    }

    /// Decide the next action from the selected tag's signal strength (or
    /// `None` when the radar shows nothing): a pulse frame in the tag's heat
    /// colour while there is a tag, otherwise switch the LEDs off once.
    pub fn next_action(&mut self, rssi: Option<i8>) -> (action: RadarAction)
        requires
            old(self).pulse_step < RADAR_PULSE_STEPS,
        ensures
            final(self).pulse_step < RADAR_PULSE_STEPS,
            final(self).cleared == old(self).cleared,
            match rssi {
                Some(r) => {
                    &&& action matches RadarAction::Show(frame) && frame@ == spec_radar_frame(
                        spec_heat_color(spec_rssi_heat_level(r)),
                        spec_pulse_brightness(old(self).pulse_step) as u8,
                    )
                    &&& final(self).pulse_step == (old(self).pulse_step + 1) % (
                    RADAR_PULSE_STEPS as int)
                },
                None => {
                    &&& final(self).pulse_step == 0
                    &&& action == (if old(self).cleared {
                        RadarAction::Idle
                    } else {
                        RadarAction::Clear
                    })
                },
            },
    {
        match rssi {
            Some(r) => {
                let frame = radar_frame(
                    heat_color(rssi_heat_level(r)),
                    pulse_brightness(self.pulse_step),
                );
                self.pulse_step = (self.pulse_step + 1) % RADAR_PULSE_STEPS;
                RadarAction::Show(frame)
            },
            None => {
                self.pulse_step = 0;
                if self.cleared {
                    RadarAction::Idle
                } else {
                    RadarAction::Clear
                }
            },
        }
    }

    /// Record the outcome of the LED write an action asked for: a shown
    /// frame leaves the LEDs lit, a successful clear leaves them off, and a
    /// failed write changes nothing.
    pub fn write_done(&mut self, action: &RadarAction, ok: bool)
        ensures
            final(self).pulse_step == old(self).pulse_step,
            final(self).cleared == (if ok && *action is Show {
                false
            } else if ok && *action is Clear {
                true
            } else {
                old(self).cleared
            }),
    {
        if ok {
            match action {
                RadarAction::Show(_) => self.cleared = false,
                RadarAction::Clear => self.cleared = true,
                RadarAction::Idle => {},
            }
        }
    }
}

} // verus!
