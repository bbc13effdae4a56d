//! Events passed between the iTag finder's tasks.

use vstd::prelude::*;
use crate::itag::BleAddress;

verus! {

/// A sighting of an iTag candidate by the BLE scanner.
#[derive(Debug, Clone)]
pub enum BleEvent {
    /// The device's address, its signal strength in dBm, and its advertised
    /// name when one is known.
    DeviceSeen(BleAddress, i8, Option<heapless::String<32>>),
}

/// A user command, mapped from the badge buttons.
#[derive(Debug, Clone, Copy, PartialEq, Eq, Structural)]
pub enum ButtonEvent {
    Up,
    Down,
    Select,
    Back,
    PowerOff,
    ToggleRadar,
}

/// A system-wide notification.
#[derive(Debug, Clone, Copy, PartialEq, Eq, Structural)]
pub enum SystemEvent {
    PowerOff,
}

} // verus!
