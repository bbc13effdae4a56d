//! The battery display with LED animation: button C plays a colour
//! sequence on the LEDs; the screen shows the battery level, voltage and
//! charge state, refreshed every tenth wait, and marks each button event
//! next to its button for five waits.

use vstd::prelude::*;
use vstd::string::StringExecFns;
use crate::apps::text::{decimal, spec_decimal, spec_volts, volts};
use crate::buttons::{Button, ButtonEvent};
use crate::leds::{NamedColor, Rgb8, half, named_color, spec_half, spec_named_color};

verus! {

/// Waits an overlay stays on screen.
pub const OVERLAY_TICKS: u8 = 5;

/// Waits between battery readings.
pub const BATTERY_REFRESH_TICKS: u8 = 10;

/// Length of one wait for a button event, in milliseconds.
pub const EVENT_WAIT_MS: u64 = 200;

/// How long each animation colour stays on, in milliseconds.
pub const ANIMATION_STEP_MS: u64 = 500;

/// The letter of a button.
pub open spec fn button_letter(button: Button) -> char {
    match button {
        Button::A => 'A',
        Button::B => 'B',
        Button::C => 'C',
        Button::D => 'D',
        Button::E => 'E',
        Button::F => 'F',
    }
}

/// The overlay text of an event: the button's letter, a space, and `P`
/// for a press or `R` for a release.
pub open spec fn spec_overlay_text(event: ButtonEvent) -> Seq<char> {
    match event {
        ButtonEvent::Pressed(b) => seq![button_letter(b), ' ', 'P'],
        ButtonEvent::Released(b) => seq![button_letter(b), ' ', 'R'],
    }
}

/// Where a button's overlay is drawn: next to the button on the round
/// screen.
pub open spec fn spec_button_pos(button: Button) -> (i32, i32) {
    match button {
        Button::A => (100, 40),
        Button::B => (170, 80),
        Button::C => (170, 170),
        Button::D => (100, 210),
        Button::E => (30, 170),
        Button::F => (30, 80),
    }
}

/// Where a button's overlay is drawn.
pub fn get_button_pos(btn: Button) -> (pos: (i32, i32))
    ensures
        pos == spec_button_pos(btn),
{
    match btn {
        Button::A => (100, 40),
        Button::B => (170, 80),
        Button::C => (170, 170),
        Button::D => (100, 210),
        Button::E => (30, 170),
        Button::F => (30, 80),
    }
}

fn overlay_text(event: ButtonEvent) -> (text: &'static str)
    ensures
        text@ == spec_overlay_text(event),
{
    match event {
        ButtonEvent::Pressed(Button::A) => { proof { reveal_strlit("A P"); } "A P" },
        ButtonEvent::Pressed(Button::B) => { proof { reveal_strlit("B P"); } "B P" },
        ButtonEvent::Pressed(Button::C) => { proof { reveal_strlit("C P"); } "C P" },
        ButtonEvent::Pressed(Button::D) => { proof { reveal_strlit("D P"); } "D P" },
        ButtonEvent::Pressed(Button::E) => { proof { reveal_strlit("E P"); } "E P" },
        ButtonEvent::Pressed(Button::F) => { proof { reveal_strlit("F P"); } "F P" },
        ButtonEvent::Released(Button::A) => { proof { reveal_strlit("A R"); } "A R" },
        ButtonEvent::Released(Button::B) => { proof { reveal_strlit("B R"); } "B R" },
        ButtonEvent::Released(Button::C) => { proof { reveal_strlit("C R"); } "C R" },
        ButtonEvent::Released(Button::D) => { proof { reveal_strlit("D R"); } "D R" },
        ButtonEvent::Released(Button::E) => { proof { reveal_strlit("E R"); } "E R" },
        ButtonEvent::Released(Button::F) => { proof { reveal_strlit("F R"); } "F R" },
    }
}

/// The button of an event.
pub open spec fn event_button(event: ButtonEvent) -> Button {
    match event {
        ButtonEvent::Pressed(b) => b,
        ButtonEvent::Released(b) => b,
    }
}

/// The overlay for a button event: its text, where it is drawn, and for
/// how many waits it stays.
pub fn button_overlay(event: ButtonEvent) -> (overlay: (&'static str, (i32, i32), u8))
    ensures
        overlay.0@ == spec_overlay_text(event),
        overlay.1 == spec_button_pos(event_button(event)),
        overlay.2 == OVERLAY_TICKS,
{
    let button = match event {
        ButtonEvent::Pressed(b) => b,
        ButtonEvent::Released(b) => b,
    };
    (overlay_text(event), get_button_pos(button), OVERLAY_TICKS)
}

/// The overlay after one wait without an event, and whether the screen
/// must be redrawn.
pub open spec fn spec_overlay_after_timeout(
    overlay: Option<(&'static str, (i32, i32), u8)>,
) -> (Option<(&'static str, (i32, i32), u8)>, bool) {
    match overlay {
        None => (None, false),
        Some(o) => if o.2 > 1 {
            (Some((o.0, o.1, (o.2 - 1) as u8)), false)
        } else {
            (None, true)
        },
    }
}

/// The overlay after `waits` waits without an event.
pub open spec fn overlay_after_waits(
    overlay: Option<(&'static str, (i32, i32), u8)>,
    waits: nat,
) -> Option<(&'static str, (i32, i32), u8)>
    decreases waits,
{
    if waits == 0 {
        overlay
    } else {
        spec_overlay_after_timeout(overlay_after_waits(overlay, (waits - 1) as nat)).0
    }
}

/// A button's overlay stays through the first [`OVERLAY_TICKS`] - 1 waits
/// without events, counting down, and is gone after [`OVERLAY_TICKS`].
pub proof fn law_overlay_lasts_its_ticks(text: &'static str, pos: (i32, i32), waits: nat)
    ensures
        waits < OVERLAY_TICKS ==> overlay_after_waits(Some((text, pos, OVERLAY_TICKS)), waits)
            == Some((text, pos, (OVERLAY_TICKS - waits) as u8)),
        waits >= OVERLAY_TICKS ==> overlay_after_waits(Some((text, pos, OVERLAY_TICKS)), waits)
            is None,
    decreases waits,
{
    if waits > 0 {
        law_overlay_lasts_its_ticks(text, pos, (waits - 1) as nat);
    }
}

/// The state of the battery screen between waits.
pub struct BatteryScreen {
    /// Waits left before the next battery reading; a reading is due at 0.
    pub battery_refresh_ticks: u8,
    /// The overlay on screen, with its waits left.
    pub overlay: Option<(&'static str, (i32, i32), u8)>,
}

impl BatteryScreen {
    /// A screen with a battery reading due and no overlay.
    pub fn new() -> (s: Self)
        ensures
            s.battery_refresh_ticks == 0,
            s.overlay is None,
    {
        BatteryScreen { battery_refresh_ticks: 0, overlay: None }
    }

    /// Whether the battery is read in this round. A reading restarts the
    /// count of [`BATTERY_REFRESH_TICKS`] waits; otherwise the count goes
    /// down by one.
    pub fn battery_due(&mut self) -> (due: bool)
        ensures
            due == (old(self).battery_refresh_ticks == 0),
            due ==> final(self).battery_refresh_ticks == BATTERY_REFRESH_TICKS,
            !due ==> final(self).battery_refresh_ticks == old(self).battery_refresh_ticks - 1,
            final(self).overlay == old(self).overlay,
    {
        if self.battery_refresh_ticks == 0 {
            self.battery_refresh_ticks = BATTERY_REFRESH_TICKS;
            true
        } else {
            self.battery_refresh_ticks = self.battery_refresh_ticks - 1;
            false
        }
    }

    /// A button event arrived: its overlay replaces any other, and the
    /// screen is redrawn.
    pub fn on_button(&mut self, event: ButtonEvent) -> (redraw: bool)
        ensures
            redraw,
            final(self).overlay matches Some(o) && o.0@ == spec_overlay_text(event) && o.1
                == spec_button_pos(event_button(event)) && o.2 == OVERLAY_TICKS,
            final(self).battery_refresh_ticks == old(self).battery_refresh_ticks,
    {
        self.overlay = Some(button_overlay(event));
        true
    }

    /// A wait passed without an event: the overlay counts down and goes
    /// away after its last wait, which needs a redraw.
    pub fn on_timeout(&mut self) -> (redraw: bool)
        ensures
            final(self).battery_refresh_ticks == old(self).battery_refresh_ticks,
            (final(self).overlay, redraw) == spec_overlay_after_timeout(old(self).overlay),
    {
        match self.overlay {
            None => false,
            Some(o) => {
                if o.2 > 1 {
                    self.overlay = Some((o.0, o.1, o.2 - 1));
                    false
                } else {
                    self.overlay = None;
                    true
                }
            },
        }
    }
}

/// The battery level line: the percentage and `%`.
pub fn level_text(percent: u8) -> (s: String)
    ensures
        s@ == spec_decimal(percent as nat) + seq!['%'],
{
    let mut s = decimal(percent as u32);
    proof { reveal_strlit("%"); }
    s.append("%");
    s
}

/// The battery voltage line.
pub fn voltage_text(vbat_millivolts: u32) -> (s: String)
    ensures
        s@ == spec_volts(vbat_millivolts as nat),
{
    volts(vbat_millivolts)
}

/// Whether an event starts the LED animation: a press of C.
pub fn starts_animation(event: ButtonEvent) -> (starts: bool)
    ensures
        starts == (event == ButtonEvent::Pressed(Button::C)),
{
    match event {
        ButtonEvent::Pressed(Button::C) => true,
        _ => false,
    }
}

/// The colours of the animation, in order, before dimming.
pub open spec fn animation_color(step: int) -> NamedColor {
    if step == 0 {
        NamedColor::Red
    } else if step == 1 {
        NamedColor::Green
    } else if step == 2 {
        NamedColor::Blue
    } else if step == 3 {
        NamedColor::Yellow
    } else if step == 4 {
        NamedColor::Magenta
    } else if step == 5 {
        NamedColor::Cyan
    } else {
        NamedColor::White
    }
}

/// Number of colours in the animation.
pub const ANIMATION_STEPS: usize = 7;

/// The animation's colours at half intensity, each shown on all LEDs for
/// [`ANIMATION_STEP_MS`].
pub fn animation_colors() -> (colors: [Rgb8; 7])
    ensures
        forall|i: int| 0 <= i < 7 ==> #[trigger] colors@[i] == spec_half(spec_named_color(animation_color(i))),
{
    let colors = [
        half(named_color(NamedColor::Red)),
        half(named_color(NamedColor::Green)),
        half(named_color(NamedColor::Blue)),
        half(named_color(NamedColor::Yellow)),
        half(named_color(NamedColor::Magenta)),
        half(named_color(NamedColor::Cyan)),
        half(named_color(NamedColor::White)),
    ];
    colors
}

} // verus!
