//! The Bluetooth remote: button C lights LED 5 green for a second; holding
//! F for two seconds shows all LEDs in dim red for a second and powers the
//! badge off, releasing it sooner cancels.

use vstd::prelude::*;
use crate::buttons::{Button, ButtonEvent};
use crate::leds::{NamedColor, Rgb8, half, named_color, spec_half, spec_named_color};

verus! {

/// How long F must be held to power off, in milliseconds.
pub const POWER_HOLD_MS: u64 = 2_000;

/// How long a LED pattern stays on, in milliseconds.
pub const PATTERN_MS: u64 = 1_000;

/// The LED that lights when C is pressed.
pub const BUTTON_C_LED: usize = 5;

/// What the remote does with a button event.
#[derive(Debug, Clone, Copy, PartialEq, Eq, Structural)]
pub enum RemoteAction {
    /// F went down: wait up to [`POWER_HOLD_MS`] for its release, and power
    /// off if it does not come.
    AwaitPowerHold,
    /// Show [`button_c_frame`] for [`PATTERN_MS`], then clear the LEDs.
    FlashButtonC,
    /// Only report the event.
    Report,
}

/// The action for a button event.
pub open spec fn spec_remote_action(event: ButtonEvent) -> RemoteAction {
    match event {
        ButtonEvent::Pressed(Button::F) => RemoteAction::AwaitPowerHold,
        ButtonEvent::Pressed(Button::C) => RemoteAction::FlashButtonC,
        _ => RemoteAction::Report,
    }
}

/// The action for a button event.
pub fn remote_action(event: ButtonEvent) -> (action: RemoteAction)
    ensures
        action == spec_remote_action(event),
{
    match event {
        ButtonEvent::Pressed(Button::F) => RemoteAction::AwaitPowerHold,
        ButtonEvent::Pressed(Button::C) => RemoteAction::FlashButtonC,
        _ => RemoteAction::Report,
    }
}

/// Whether an event, met while F is held, ends the hold: the release of F.
pub fn ends_power_hold(event: ButtonEvent) -> (ends: bool)
    ensures
        ends == (event == ButtonEvent::Released(Button::F)),
{
    match event {
        ButtonEvent::Released(Button::F) => true,
        _ => false,
    }
}

/// The frame shown before powering off: every LED dim red.
pub fn power_off_frame() -> (frame: [Rgb8; 19])
    ensures
        forall|i: int| 0 <= i < 19 ==> #[trigger] frame@[i] == spec_half(spec_named_color(NamedColor::Red)),
{
    [half(named_color(NamedColor::Red)); 19]
}

/// The frame shown when C is pressed: LED [`BUTTON_C_LED`] green, the rest
/// off.
pub fn button_c_frame() -> (frame: [Rgb8; 19])
    ensures
        frame@[BUTTON_C_LED as int] == spec_named_color(NamedColor::Green),
        forall|i: int|
            0 <= i < 19 && i != BUTTON_C_LED ==> #[trigger] frame@[i] == spec_named_color(
                NamedColor::Black,
            ),
{
    let mut frame = [named_color(NamedColor::Black); 19];
    frame[BUTTON_C_LED] = named_color(NamedColor::Green);
    frame
}

} // verus!
