use tildagon::buttons::{Button, ButtonEvent as PhysicalButtonEvent};
use tildagon::itag::advertising::{advertised_name, has_manufacturer_data, has_service_uuid16};
use tildagon::itag::ble::{DiscoveryState, ScannerHandler};
use tildagon::itag::connect::{ConnectAction, ConnectEvent};
use tildagon::itag::buttons::{PressAction, ends_hold, hold_outcome, press_action};
use tildagon::itag::events::{BleEvent, ButtonEvent};
use tildagon::itag::radar::{
    RadarAction, RadarLeds, heat_color, pulse_brightness, radar_frame, radar_wait_us, scale_channel,
    scale_color,
};
use tildagon::itag::screen::{Font, radar_screen, rssi_color, shutdown_screen};
use tildagon::itag::{
    AppState, BleAddress, Mode, RssiHeatLevel, addresses_equal, entry_is_fresh, rssi_heat_level,
    scan_should_restart,
};
use tildagon::display::Color565;
use tildagon::leds::Rgb8;

fn name(s: &str) -> heapless::String<32> {
    let mut n: heapless::String<32> = heapless::String::new();
    n.push_str(s).unwrap();
    n
}

fn addr(last: u8) -> BleAddress {
    BleAddress { kind: 1, addr: [0x10, 0x20, 0x30, 0x40, 0x50, last] }
}

/// Flags, a complete 16-bit service list with 0xFFE0, and a complete name.
fn itag_adv(device_name: &[u8]) -> Vec<u8> {
    let mut data = vec![0x02, 0x01, 0x06, 0x03, 0x03, 0xE0, 0xFF];
    data.push((device_name.len() + 1) as u8);
    data.push(0x09);
    data.extend_from_slice(device_name);
    data
}

#[test]
fn heat_levels_follow_thresholds() {
    assert_eq!(rssi_heat_level(-40), RssiHeatLevel::Hot);
    assert_eq!(rssi_heat_level(-68), RssiHeatLevel::Hot);
    assert_eq!(rssi_heat_level(-69), RssiHeatLevel::Warm);
    assert_eq!(rssi_heat_level(-76), RssiHeatLevel::Warm);
    assert_eq!(rssi_heat_level(-77), RssiHeatLevel::Near);
    assert_eq!(rssi_heat_level(-84), RssiHeatLevel::Near);
    assert_eq!(rssi_heat_level(-85), RssiHeatLevel::Cool);
    assert_eq!(rssi_heat_level(-92), RssiHeatLevel::Cool);
    assert_eq!(rssi_heat_level(-93), RssiHeatLevel::Cold);
    assert_eq!(rssi_heat_level(-100), RssiHeatLevel::Cold);
    assert_eq!(rssi_heat_level(-101), RssiHeatLevel::Far);
    assert_eq!(rssi_heat_level(-128), RssiHeatLevel::Far);
}

#[test]
fn heat_level_grows_with_signal() {
    // A stronger signal is never in a colder bucket.
    let rank = |l: RssiHeatLevel| match l {
        RssiHeatLevel::Hot => 0,
        RssiHeatLevel::Warm => 1,
        RssiHeatLevel::Near => 2,
        RssiHeatLevel::Cool => 3,
        RssiHeatLevel::Cold => 4,
        RssiHeatLevel::Far => 5,
    };
    for weak in -128i16..=127 {
        for strong in weak..=127 {
            assert!(rank(rssi_heat_level(strong as i8)) <= rank(rssi_heat_level(weak as i8)));
        }
    }
}

#[test]
fn radar_colours_and_pulse() {
    assert_eq!(heat_color(RssiHeatLevel::Warm), Rgb8 { r: 255, g: 96, b: 0 });
    assert_eq!(heat_color(RssiHeatLevel::Cold), Rgb8 { r: 0, g: 200, b: 255 });
    assert_eq!(scale_channel(255, 96), 96);
    assert_eq!(scale_channel(200, 54), 42);
    assert_eq!(scale_channel(0, 255), 0);
    assert_eq!(scale_channel(255, 255), 255);
    assert_eq!(scale_color(Rgb8 { r: 255, g: 200, b: 0 }, 54), Rgb8 { r: 54, g: 42, b: 0 });
    assert_eq!(pulse_brightness(0), 12);
    assert_eq!(pulse_brightness(6), 54);
    assert_eq!(pulse_brightness(12), 96);
    assert_eq!(pulse_brightness(18), 54);
    assert_eq!(pulse_brightness(23), 19);
    for step in 1..12u8 {
        assert_eq!(pulse_brightness(step), pulse_brightness(24 - step));
    }
}

#[test]
fn radar_frame_lights_ring_one_to_twelve() {
    let frame = radar_frame(Rgb8 { r: 255, g: 0, b: 0 }, 96);
    assert_eq!(frame[0], Rgb8 { r: 0, g: 0, b: 0 });
    for led in 1..=12 {
        assert_eq!(frame[led], Rgb8 { r: 96, g: 0, b: 0 });
    }
    for led in 13..19 {
        assert_eq!(frame[led], Rgb8 { r: 0, g: 0, b: 0 });
    }
}

#[test]
fn radar_leds_pulse_then_clear() {
    let mut radar = RadarLeds::new();
    let action = radar.next_action(Some(-60));
    match action {
        RadarAction::Show(frame) => {
            assert_eq!(frame[1], Rgb8 { r: 12, g: 0, b: 0 });
            assert_eq!(frame[0], Rgb8 { r: 0, g: 0, b: 0 });
        }
        _ => panic!("expected a frame"),
    }
    assert_eq!(radar.pulse_step, 1);
    radar.write_done(&action, true);
    assert!(!radar.cleared);
    let clear = radar.next_action(None);
    assert_eq!(clear, RadarAction::Clear);
    assert_eq!(radar.pulse_step, 0);
    radar.write_done(&clear, true);
    assert!(radar.cleared);
    assert_eq!(radar.next_action(None), RadarAction::Idle);
    for _ in 0..24 {
        let _ = radar.next_action(Some(-90));
    }
    assert_eq!(radar.pulse_step, 0);
}

#[test]
fn addresses_compare_kind_and_bytes() {
    assert!(addresses_equal(&addr(1), &addr(1)));
    assert!(!addresses_equal(&addr(1), &addr(2)));
    let other_kind = BleAddress { kind: 0, addr: addr(1).addr };
    assert!(!addresses_equal(&addr(1), &other_kind));
}

#[test]
fn app_state_lists_and_refreshes_devices() {
    let mut state = AppState::new();
    assert_eq!(state.device_count(), 0);
    assert_eq!(state.mode, Mode::Scanning);
    state.on_device_seen(addr(1), -70, Some(name("iTAG")), 1_000);
    state.on_device_seen(addr(2), -80, None, 1_500);
    assert_eq!(state.device_count(), 2);
    state.on_device_seen(addr(1), -60, None, 2_000);
    assert_eq!(state.device_count(), 2);
    let first = state.device(0);
    assert_eq!(first.rssi, -60);
    assert_eq!(first.last_seen, 2_000);
    assert_eq!(first.name.as_ref().map(|n| n.as_str()), Some("iTAG"));
    state.on_device_seen(addr(2), -81, Some(name("tag2")), 2_100);
    assert_eq!(state.device(1).name.as_ref().map(|n| n.as_str()), Some("tag2"));
}

#[test]
fn app_state_list_is_capped_at_sixteen() {
    let mut state = AppState::new();
    for i in 0..20u8 {
        state.on_device_seen(addr(i), -70, None, 10);
    }
    assert_eq!(state.device_count(), 16);
    assert_eq!(state.device(15).addr, addr(15));
}

#[test]
fn app_state_selection_wraps() {
    let mut state = AppState::new();
    assert!(!state.on_button(ButtonEvent::Down));
    assert_eq!(state.selected_index, 0);
    assert!(!state.on_button(ButtonEvent::Select));
    assert_eq!(state.mode, Mode::Scanning);
    for i in 0..3u8 {
        state.on_device_seen(addr(i), -70, None, 10);
    }
    state.on_button(ButtonEvent::Up);
    assert_eq!(state.selected_index, 2);
    state.on_button(ButtonEvent::Down);
    assert_eq!(state.selected_index, 0);
    state.on_button(ButtonEvent::Down);
    state.on_button(ButtonEvent::Up);
    assert_eq!(state.selected_index, 0);
    state.on_button(ButtonEvent::Down);
    assert_eq!(state.selected_index, 1);
    state.on_button(ButtonEvent::ToggleRadar);
    assert!(state.radar_mode_enabled);
    assert_eq!(state.radar_rssi(), Some(-70));
    assert!(state.on_button(ButtonEvent::Select));
    assert_eq!(state.mode, Mode::Connecting);
    assert_eq!(state.connect_target(), Some(addr(1)));
    assert_eq!(state.radar_rssi(), None);
}

#[test]
fn app_state_connection_outcomes() {
    let mut state = AppState::new();
    state.on_device_seen(addr(7), -70, None, 10);
    assert!(state.on_button(ButtonEvent::Select));
    state.connection_aborted();
    assert_eq!(state.mode, Mode::Scanning);
    assert!(state.on_button(ButtonEvent::Select));
    state.alert_started();
    assert_eq!(state.mode, Mode::Alarming);
    state.connection_closed();
    assert_eq!(state.mode, Mode::Scanning);
    assert_eq!(state.target_addr, None);
    state.alert_started();
    state.handle_alarming();
    assert_eq!(state.mode, Mode::Scanning);
}

#[test]
fn app_state_prunes_stale_devices() {
    let mut state = AppState::new();
    state.on_device_seen(addr(1), -70, None, 1_000_000);
    state.on_device_seen(addr(2), -70, None, 15_000_000);
    state.on_device_seen(addr(3), -70, None, 1_000_000);
    state.on_button(ButtonEvent::Up);
    assert_eq!(state.selected_index, 2);
    assert!(entry_is_fresh(state.device(0), 20_999_999));
    assert!(!entry_is_fresh(state.device(0), 21_000_000));
    assert!(state.prune_stale(21_000_000));
    assert_eq!(state.device_count(), 1);
    assert_eq!(state.device(0).addr, addr(2));
    assert_eq!(state.selected_index, 0);
    assert!(!state.prune_stale(21_000_001));
}

#[test]
fn scan_restarts_when_quiet_or_old() {
    assert!(scan_should_restart(3_000_000, 0, Some(500_000)));
    assert!(!scan_should_restart(1_000_000, 0, Some(900_000)));
    assert!(scan_should_restart(10_000_000, 0, None));
    assert!(!scan_should_restart(9_999_999, 0, None));
}

#[test]
fn finder_buttons_map_to_commands() {
    assert_eq!(press_action(PhysicalButtonEvent::Pressed(Button::A)), PressAction::Send(ButtonEvent::Up));
    assert_eq!(press_action(PhysicalButtonEvent::Pressed(Button::D)), PressAction::Send(ButtonEvent::Down));
    assert_eq!(press_action(PhysicalButtonEvent::Pressed(Button::C)), PressAction::Send(ButtonEvent::Select));
    assert_eq!(press_action(PhysicalButtonEvent::Pressed(Button::B)), PressAction::Send(ButtonEvent::ToggleRadar));
    assert_eq!(press_action(PhysicalButtonEvent::Pressed(Button::F)), PressAction::AwaitRelease);
    assert_eq!(press_action(PhysicalButtonEvent::Pressed(Button::E)), PressAction::Ignore);
    assert_eq!(press_action(PhysicalButtonEvent::Released(Button::A)), PressAction::Ignore);
    assert!(ends_hold(PhysicalButtonEvent::Released(Button::F)));
    assert!(!ends_hold(PhysicalButtonEvent::Released(Button::A)));
    assert_eq!(hold_outcome(true), Some(ButtonEvent::Back));
    assert_eq!(hold_outcome(false), None);
}

#[test]
fn advertising_name_prefers_complete() {
    assert_eq!(advertised_name(&itag_adv(b"iTAG")), Some(String::from("iTAG")));
    let short_then_complete = [0x03, 0x08, b'i', b'T', 0x05, 0x09, b'i', b'T', b'A', b'G'];
    assert_eq!(advertised_name(&short_then_complete), Some(String::from("iTAG")));
    let short_only = [0x02, 0x01, 0x06, 0x03, 0x08, b'i', b'T'];
    assert_eq!(advertised_name(&short_only), Some(String::from("iT")));
    let bad_complete = [0x03, 0x08, b'i', b'T', 0x02, 0x09, 0xFF];
    assert_eq!(advertised_name(&bad_complete), None);
    assert_eq!(advertised_name(&[0x02, 0x01, 0x06]), None);
}

#[test]
fn advertising_markers() {
    assert!(has_service_uuid16(&itag_adv(b"x"), 0xFFE0));
    assert!(!has_service_uuid16(&itag_adv(b"x"), 0x1802));
    let incomplete = [0x05, 0x02, 0x02, 0x18, 0x03, 0x18];
    assert!(has_service_uuid16(&incomplete, 0x1803));
    let mfg = [0x05, 0xFF, 0x05, 0x01, 0xAA, 0xBB];
    assert!(has_manufacturer_data(&mfg, 0x0105));
    assert!(!has_manufacturer_data(&mfg, 0x0501));
}

#[test]
fn discovery_state_names_and_emission() {
    let mut s = DiscoveryState::default();
    assert!(!s.is_complete());
    assert_eq!(s.name_as_str(), None);
    s.set_name(Some("0123456789012345678901234567890123456789"));
    assert_eq!(s.name_len, 32);
    assert_eq!(s.name_as_str(), Some("01234567890123456789012345678901"));
    s.service_found = true;
    assert!(s.is_complete());
    assert!(s.should_emit(-70, 0));
    s.mark_emitted(-70, 1_000_000);
    assert!(!s.should_emit(-71, 1_100_000));
    assert!(s.should_emit(-72, 1_100_000));
    assert!(s.should_emit(-70, 2_500_000));
}

#[test]
fn scanner_reports_itags_and_throttles() {
    let mut handler = ScannerHandler::new();
    let data = itag_adv(b"iTAG");
    match handler.handle_report(addr(9), &data, -70, 1_000) {
        Some(BleEvent::DeviceSeen(a, rssi, n)) => {
            assert_eq!(a, addr(9));
            assert_eq!(rssi, -70);
            assert_eq!(n.as_ref().map(|s| s.as_str()), Some("iTAG"));
        }
        None => panic!("expected a report"),
    }
    assert!(handler.handle_report(addr(9), &data, -70, 2_000).is_none());
    assert!(handler.handle_report(addr(9), &data, -73, 3_000).is_some());
    assert!(handler.handle_report(addr(9), &data, -73, 1_600_000).is_some());
    let plain = [0x02, 0x01, 0x06];
    assert!(handler.handle_report(addr(10), &plain, -50, 5_000).is_none());
}

#[test]
fn scanner_update_device_learns_markers() {
    let mut handler = ScannerHandler::new();
    let a = [1, 2, 3, 4, 5, 6];
    assert!(handler.update_device(a, Some("tag"), false, false, -70, 10).is_none());
    let reported = handler.update_device(a, Some("tag"), false, true, -70, 20).unwrap();
    assert!(reported.mfg_found);
    assert_eq!(reported.name_as_str(), Some("tag"));
    let again = handler.update_device(a, None, true, false, -70, 30);
    assert!(again.is_none());
}

#[test]
fn screen_lists_devices_with_signal() {
    let mut state = AppState::new();
    state.on_device_seen(addr(1), -70, Some(name("iTAG")), 10);
    state.on_device_seen(addr(2), -101, None, 10);
    let items = radar_screen(&state, false);
    let texts: Vec<&str> = items.iter().map(|i| i.text.as_str()).collect();
    assert_eq!(texts, vec!["iTag Radar", "> iTAG ", "RSSI:-70", "  Unknown ", "RSSI:-101", "B radar: OFF"]);
    assert_eq!((items[1].x, items[1].y), (30, 65));
    assert_eq!(items[1].color, Color565 { r: 0, g: 63, b: 31 });
    assert_eq!((items[2].x, items[2].y), (30 + 9 * 7, 65));
    assert_eq!(items[2].color, Color565 { r: 31, g: 32, b: 0 });
    assert_eq!((items[4].x, items[4].y), (30 + 9 * 10, 85));
    assert_eq!(items[4].color, Color565 { r: 0, g: 0, b: 31 });
    assert_eq!(items[0].font, Font::Large);
    assert!(items[0].centered);
}

#[test]
fn screen_lists_at_most_eight() {
    let mut state = AppState::new();
    for i in 0..12u8 {
        state.on_device_seen(addr(i), -70, None, 10);
    }
    state.on_button(ButtonEvent::ToggleRadar);
    let items = radar_screen(&state, false);
    assert_eq!(items.len(), 1 + 16 + 1);
    assert_eq!(items[15].y, 65 + 7 * 20);
    assert_eq!(items[17].text, "B radar: ON");
    assert_eq!(items[17].color, Color565 { r: 0, g: 63, b: 0 });
}

#[test]
fn screen_connecting_alarming_and_shutdown() {
    let mut state = AppState::new();
    state.on_device_seen(addr(1), -70, Some(name("keys")), 10);
    state.on_button(ButtonEvent::Select);
    let items = radar_screen(&state, false);
    let texts: Vec<&str> = items.iter().map(|i| i.text.as_str()).collect();
    assert_eq!(texts, vec!["Connecting to", "keys", "(Press F to Cancel)"]);
    state.alert_started();
    let items = radar_screen(&state, false);
    assert_eq!(items[0].text, "!!! ALARMING !!!");
    assert_eq!(items[1].text, "(Press F to Stop)");
    let down = radar_screen(&state, true);
    assert_eq!(down.len(), 1);
    assert_eq!(down[0].text, "Shutting down...");
    assert_eq!(shutdown_screen()[0].color, Color565 { r: 31, g: 0, b: 0 });
}

#[test]
fn screen_connecting_without_name_says_itag() {
    let mut state = AppState::new();
    state.on_device_seen(addr(1), -70, None, 10);
    state.on_button(ButtonEvent::Select);
    let items = radar_screen(&state, false);
    assert_eq!(items[1].text, "iTag");
}

#[test]
fn rssi_colours_by_heat() {
    assert_eq!(rssi_color(-50), Color565 { r: 31, g: 0, b: 0 });
    assert_eq!(rssi_color(-80), Color565 { r: 31, g: 63, b: 0 });
    assert_eq!(rssi_color(-90), Color565 { r: 0, g: 63, b: 0 });
    assert_eq!(rssi_color(-95), Color565 { r: 0, g: 63, b: 31 });
}

#[test]
fn radar_waits_step_after_frame() {
    let frame = radar_frame(Rgb8 { r: 1, g: 1, b: 1 }, 12);
    assert_eq!(radar_wait_us(&RadarAction::Show(frame)), 90_000);
    assert_eq!(radar_wait_us(&RadarAction::Clear), 200_000);
    assert_eq!(radar_wait_us(&RadarAction::Idle), 200_000);
}

#[test]
fn connect_steps_through_an_alarm() {
    let mut state = AppState::new();
    state.on_device_seen(addr(4), -60, None, 10);
    assert!(state.on_button(ButtonEvent::Select));
    assert_eq!(state.connect_step(ConnectEvent::Begin), ConnectAction::Connect(addr(4)));
    assert_eq!(state.connect_step(ConnectEvent::Connected), ConnectAction::OpenGatt);
    assert_eq!(state.connect_step(ConnectEvent::AlertFound), ConnectAction::WriteMildAlert);
    assert_eq!(state.mode, Mode::Connecting);
    assert_eq!(state.connect_step(ConnectEvent::MildAlertWritten(true)), ConnectAction::AwaitStop);
    assert_eq!(state.mode, Mode::Alarming);
    assert_eq!(state.connect_step(ConnectEvent::AlarmTick), ConnectAction::AwaitStop);
    assert_eq!(state.connect_step(ConnectEvent::ButtonWhileAlarming(ButtonEvent::Up)), ConnectAction::AwaitStop);
    assert_eq!(state.connect_step(ConnectEvent::ButtonWhileAlarming(ButtonEvent::Select)), ConnectAction::WriteAlertOff);
    assert_eq!(state.connect_step(ConnectEvent::AlertOffWritten), ConnectAction::Disconnect);
    assert_eq!(state.connect_step(ConnectEvent::Disconnected), ConnectAction::Finished);
    assert_eq!(state.mode, Mode::Scanning);
    assert_eq!(state.target_addr, None);
}

#[test]
fn connect_cancel_retry_and_failures() {
    let mut state = AppState::new();
    state.on_device_seen(addr(4), -60, None, 10);
    state.on_button(ButtonEvent::Select);
    assert_eq!(state.connect_step(ConnectEvent::ButtonWhileConnecting(ButtonEvent::Down)), ConnectAction::Retry);
    assert_eq!(state.mode, Mode::Connecting);
    assert_eq!(state.connect_step(ConnectEvent::ButtonWhileConnecting(ButtonEvent::Back)), ConnectAction::Finished);
    assert_eq!(state.mode, Mode::Scanning);
    state.on_button(ButtonEvent::Select);
    assert_eq!(state.connect_step(ConnectEvent::ConnectFailed), ConnectAction::Finished);
    assert_eq!(state.mode, Mode::Scanning);
    state.on_button(ButtonEvent::Select);
    assert_eq!(state.connect_step(ConnectEvent::MildAlertWritten(false)), ConnectAction::Disconnect);
    assert_eq!(state.mode, Mode::Connecting);
    assert_eq!(state.connect_step(ConnectEvent::GattFailed), ConnectAction::Disconnect);
    assert_eq!(state.connect_step(ConnectEvent::AlertMissing), ConnectAction::Disconnect);
    assert_eq!(state.connect_step(ConnectEvent::SessionEnded), ConnectAction::Disconnect);
    let mut idle = AppState::new();
    assert_eq!(idle.connect_step(ConnectEvent::Begin), ConnectAction::Finished);
    assert_eq!(idle.mode, Mode::Scanning);
}

#[test]
fn scanner_ignores_unmarked_unknown_devices() {
    let mut handler = ScannerHandler::new();
    let a = [9, 9, 9, 9, 9, 9];
    assert!(handler.update_device(a, Some("x"), false, false, -40, 10).is_none());
    let s = handler.update_device(a, None, false, true, -55, 20).unwrap();
    assert!(s.mfg_found && !s.service_found);
    assert_eq!(s.last_emitted_rssi, -55);
    assert_eq!(s.name_len, 0);
}

#[test]
fn scanner_evicts_round_robin_when_full() {
    let mut handler = ScannerHandler::new();
    for i in 0..64u8 {
        assert!(handler.update_device([1, 0, 0, 0, 0, i], None, true, false, -50, 100).is_some());
    }
    // A 65th device overwrites slot 0, a 66th slot 1.
    assert!(handler.update_device([2, 0, 0, 0, 0, 0], None, true, false, -50, 200).is_some());
    assert!(handler.update_device([2, 0, 0, 0, 0, 1], None, true, false, -50, 300).is_some());
    // The device in slot 2 is still known: an unchanged sighting is throttled.
    assert!(handler.update_device([1, 0, 0, 0, 0, 2], None, true, false, -50, 400).is_none());
    // The device of slot 0 was evicted and comes back as new.
    assert!(handler.update_device([1, 0, 0, 0, 0, 0], None, true, false, -50, 500).is_some());
}
