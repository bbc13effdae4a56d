//! The decisions of a connection to the target tag.
//!
//! A connection runs as: connect (a button may interrupt; Back cancels, any
//! other button abandons this attempt and the controller tries again), open
//! the GATT client and find the Immediate Alert level characteristic, write
//! the mild alert level (only a successful write starts the alarm), wait
//! for Back or Select and write the alert off, then disconnect. The caller
//! performs each [`ConnectAction`] and reports its outcome as a
//! [`ConnectEvent`].

use vstd::prelude::*;
use crate::itag::{AppState, BleAddress, Mode};
use crate::itag::events::ButtonEvent;

verus! {

/// The outcome of the last action, or a button press.
#[derive(Debug, Clone, Copy, PartialEq, Eq, Structural)]
pub enum ConnectEvent {
    /// A connection attempt is about to start.
    Begin,
    /// The link is up.
    Connected,
    /// The connection attempt failed.
    ConnectFailed,
    /// A button arrived before the link came up.
    ButtonWhileConnecting(ButtonEvent),
    /// The GATT client could not be created.
    GattFailed,
    /// The alert service or its level characteristic is missing.
    AlertMissing,
    /// The alert level characteristic was found.
    AlertFound,
    /// The mild alert level was written (`true`) or could not be (`false`).
    MildAlertWritten(bool),
    /// A button arrived while the tag is alarming.
    ButtonWhileAlarming(ButtonEvent),
    /// Two seconds passed in the alarm without a button.
    AlarmTick,
    /// The off level write ended, whatever its result.
    AlertOffWritten,
    /// The GATT session ended on its own, or a button ended it.
    SessionEnded,
    /// The link is down, or the wait for it timed out.
    Disconnected,
}

/// What the caller does next.
#[derive(Debug, Clone, Copy, PartialEq, Eq)]
pub enum ConnectAction {
    /// Connect to this address, racing the buttons.
    Connect(BleAddress),
    /// Create the GATT client, wait half a second, and look up the alert
    /// level characteristic.
    OpenGatt,
    /// Write the mild alert level.
    WriteMildAlert,
    /// Wait up to two seconds for a button.
    AwaitStop,
    /// Write the alert level off.
    WriteAlertOff,
    /// Disconnect and wait up to two seconds for the link to drop.
    Disconnect,
    /// Leave; the controller connects again.
    Retry,
    /// Leave; the state's mode says what comes next.
    Finished,
}

/// The state and action after `event`.
pub open spec fn spec_connect_step(s: AppState, event: ConnectEvent) -> (AppState, ConnectAction) {
    match event {
        ConnectEvent::Begin => match s.target_addr {
            Some(t) => (s, ConnectAction::Connect(t)),
            None => (AppState { mode: Mode::Scanning, ..s }, ConnectAction::Finished),
        },
        ConnectEvent::Connected => (s, ConnectAction::OpenGatt),
        ConnectEvent::ConnectFailed => (AppState { mode: Mode::Scanning, ..s }, ConnectAction::Finished),
        ConnectEvent::ButtonWhileConnecting(b) => if b == ButtonEvent::Back {
            (AppState { mode: Mode::Scanning, ..s }, ConnectAction::Finished)
        } else {
            (s, ConnectAction::Retry)
        },
        ConnectEvent::GattFailed => (s, ConnectAction::Disconnect),
        ConnectEvent::AlertMissing => (s, ConnectAction::Disconnect),
        ConnectEvent::AlertFound => (s, ConnectAction::WriteMildAlert),
        ConnectEvent::MildAlertWritten(ok) => if ok {
            (AppState { mode: Mode::Alarming, ..s }, ConnectAction::AwaitStop)
        } else {
            (s, ConnectAction::Disconnect)
        },
        ConnectEvent::ButtonWhileAlarming(b) => if b == ButtonEvent::Back || b == ButtonEvent::Select {
            (s, ConnectAction::WriteAlertOff)
        } else {
            (s, ConnectAction::AwaitStop)
        },
        ConnectEvent::AlarmTick => (s, ConnectAction::AwaitStop),
        ConnectEvent::AlertOffWritten => (s, ConnectAction::Disconnect),
        ConnectEvent::SessionEnded => (s, ConnectAction::Disconnect),
        ConnectEvent::Disconnected => (
            AppState { mode: Mode::Scanning, target_addr: None, ..s },
            ConnectAction::Finished,
        ),
    }
}

impl AppState {
    /// Takes one step of a connection: the state after `event` and what the
    /// caller does next.
    pub fn connect_step(&mut self, event: ConnectEvent) -> (action: ConnectAction)
        requires
            old(self).wf(),
        ensures
            final(self).wf(),
            (*final(self), action) == spec_connect_step(*old(self), event),
    {
        match event {
            ConnectEvent::Begin => match self.target_addr {
                Some(t) => ConnectAction::Connect(t),
                None => {
                    self.mode = Mode::Scanning;
                    ConnectAction::Finished
                },
            },
            ConnectEvent::Connected => ConnectAction::OpenGatt,
            ConnectEvent::ConnectFailed => {
                self.mode = Mode::Scanning;
                ConnectAction::Finished
            },
            ConnectEvent::ButtonWhileConnecting(b) => match b {
                ButtonEvent::Back => {
                    self.mode = Mode::Scanning;
                    ConnectAction::Finished
                },
                _ => ConnectAction::Retry,
            },
            ConnectEvent::GattFailed => ConnectAction::Disconnect,
            ConnectEvent::AlertMissing => ConnectAction::Disconnect,
            ConnectEvent::AlertFound => ConnectAction::WriteMildAlert,
            ConnectEvent::MildAlertWritten(ok) => {
                if ok {
                    self.mode = Mode::Alarming;
                    ConnectAction::AwaitStop
                } else {
                    ConnectAction::Disconnect
                }
            },
            ConnectEvent::ButtonWhileAlarming(b) => match b {
                ButtonEvent::Back | ButtonEvent::Select => ConnectAction::WriteAlertOff,
                _ => ConnectAction::AwaitStop,
            },
            ConnectEvent::AlarmTick => ConnectAction::AwaitStop,
            ConnectEvent::AlertOffWritten => ConnectAction::Disconnect,
            ConnectEvent::SessionEnded => ConnectAction::Disconnect,
            ConnectEvent::Disconnected => {
                self.mode = Mode::Scanning;
                self.target_addr = None;
                ConnectAction::Finished
            },
        }
    }
}

/// A connection never ends with the finder still connecting: after the
/// link is down, and after a failed or cancelled attempt, the finder scans.
pub proof fn law_connection_ends_in_scanning(s: AppState, event: ConnectEvent)
    requires
        s.wf(),
        spec_connect_step(s, event).1 == ConnectAction::Finished,
    ensures
        spec_connect_step(s, event).0.mode == Mode::Scanning,
        spec_connect_step(s, event).0.wf(),
{
}

/// Only a successful mild alert write starts the alarm.
pub proof fn law_only_a_written_alert_alarms(s: AppState, event: ConnectEvent)
    requires
        s.mode != Mode::Alarming,
        spec_connect_step(s, event).0.mode == Mode::Alarming,
    ensures
        event == ConnectEvent::MildAlertWritten(true),
{
}

/// While the tag alarms, Back and Select both stop it (the alert level is
/// written off); any other button leaves it alarming. A button changes no
/// state here.
pub proof fn law_back_and_select_stop_the_alarm(s: AppState, b: ButtonEvent)
    ensures
        spec_connect_step(s, ConnectEvent::ButtonWhileAlarming(b)).0 == s,
        spec_connect_step(s, ConnectEvent::ButtonWhileAlarming(ButtonEvent::Back)).1
            == ConnectAction::WriteAlertOff,
        spec_connect_step(s, ConnectEvent::ButtonWhileAlarming(ButtonEvent::Select)).1
            == ConnectAction::WriteAlertOff,
        b != ButtonEvent::Back && b != ButtonEvent::Select ==> spec_connect_step(
            s,
            ConnectEvent::ButtonWhileAlarming(b),
        ).1 == ConnectAction::AwaitStop,
{
}

/// While connecting, the finder always has a target.
pub proof fn law_connecting_has_target(s: AppState)
    requires
        s.wf(),
        s.mode == Mode::Connecting,
    ensures
        s.target_addr is Some,
{
}

} // verus!
