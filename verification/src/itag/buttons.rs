//! Mapping of the badge buttons to the finder's commands.
//!
//! A pressed A moves the selection up, D down, C selects and B toggles the
//! radar. F is Back when released within two seconds; held longer it powers
//! the badge off.

use vstd::prelude::*;
use crate::buttons::{Button, ButtonEvent as PhysicalButtonEvent};
use crate::itag::events::ButtonEvent;

verus! {

/// How long F must be held to power off, in microseconds.
pub const POWER_HOLD_TIME: u64 = 2_000_000;

/// Pause between announcing power-off and cutting the battery, in
/// microseconds.
pub const SHUTDOWN_GRACE_PERIOD: u64 = 500_000;

/// What a physical button event leads to.
#[derive(Debug, Clone, Copy, PartialEq, Eq, Structural)]
pub enum PressAction {
    /// Send this command to the finder.
    Send(ButtonEvent),
    /// F went down: wait up to [`POWER_HOLD_TIME`] for its release.
    AwaitRelease,
    /// Nothing to do.
    Ignore,
}

/// The action for a physical button event.
pub open spec fn spec_press_action(event: PhysicalButtonEvent) -> PressAction {
    match event {
        PhysicalButtonEvent::Pressed(Button::A) => PressAction::Send(ButtonEvent::Up),
        PhysicalButtonEvent::Pressed(Button::B) => PressAction::Send(ButtonEvent::ToggleRadar),
        PhysicalButtonEvent::Pressed(Button::D) => PressAction::Send(ButtonEvent::Down),
        PhysicalButtonEvent::Pressed(Button::C) => PressAction::Send(ButtonEvent::Select),
        PhysicalButtonEvent::Pressed(Button::F) => PressAction::AwaitRelease,
        _ => PressAction::Ignore,
    }
}

/// The action for a physical button event.
pub fn press_action(event: PhysicalButtonEvent) -> (action: PressAction)
    ensures
        action == spec_press_action(event),
{
    match event {
        PhysicalButtonEvent::Pressed(Button::A) => PressAction::Send(ButtonEvent::Up),
        PhysicalButtonEvent::Pressed(Button::B) => PressAction::Send(ButtonEvent::ToggleRadar),
        PhysicalButtonEvent::Pressed(Button::D) => PressAction::Send(ButtonEvent::Down),
        PhysicalButtonEvent::Pressed(Button::C) => PressAction::Send(ButtonEvent::Select),
        PhysicalButtonEvent::Pressed(Button::F) => PressAction::AwaitRelease,
        _ => PressAction::Ignore,
    }
}

/// Whether an event, met while waiting after F went down, ends the wait.
pub fn ends_hold(event: PhysicalButtonEvent) -> (ends: bool)
    ensures
        ends == (event == PhysicalButtonEvent::Released(Button::F)),
{
    match event {
        PhysicalButtonEvent::Released(Button::F) => true,
        _ => false,
    }
}

/// The outcome of holding F: `Some(Back)` when it was released in time,
/// `None` when it was held for the full time and the badge powers off.
pub fn hold_outcome(released_in_time: bool) -> (command: Option<ButtonEvent>)
    ensures
        released_in_time ==> command == Some(ButtonEvent::Back),
        !released_in_time ==> command is None,
{
    if released_in_time {
        Some(ButtonEvent::Back)
    } else {
        None
    }
}

} // verus!
