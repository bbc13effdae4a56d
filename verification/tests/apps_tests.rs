use tildagon::apps::blinky::{
    BatteryScreen, animation_colors, button_overlay, get_button_pos, level_text,
    starts_animation, voltage_text,
};
use tildagon::apps::remote::{RemoteAction, button_c_frame, ends_power_hold, power_off_frame, remote_action};
use tildagon::apps::text::{decimal, labelled_count, signed_decimal, volts};
use tildagon::apps::wifi_ble::{LruBleDevices, StatusInputs, StatusLeds, StatusUpdate, record_sighting, status_led_frame};
use tildagon::apps::wifi_ble_screen::{
    FpsCounter, bar_width, battery_label, battery_label_is_stale, battery_refresh_interval_ms,
    ble_seen_label, frame_delay_ms, frame_state, networks_label, ping_pong, reading_is_kept,
    wifi_scans_label,
};
use tildagon::buttons::{Button, ButtonEvent};
use tildagon::display::Color565;
use tildagon::leds::Rgb8;

fn mac(i: u16) -> [u8; 6] {
    [0xAA, 0, 0, 0, (i >> 8) as u8, i as u8]
}

#[test]
fn lru_reports_new_addresses_once() {
    let mut devices = LruBleDevices::new();
    assert!(devices.insert(mac(1)));
    assert!(devices.insert(mac(2)));
    assert!(!devices.insert(mac(1)));
    assert!(!devices.insert(mac(1)));
    assert!(!devices.insert(mac(2)));
}

#[test]
fn lru_evicts_least_recently_seen() {
    let mut devices = LruBleDevices::new();
    for i in 0..256 {
        assert!(devices.insert(mac(i)));
    }
    // Refresh address 0 so that address 1 becomes the oldest.
    assert!(!devices.insert(mac(0)));
    assert!(devices.insert(mac(1000)));
    // Address 1 was evicted, address 0 survived.
    assert!(!devices.insert(mac(0)));
    assert!(devices.insert(mac(1)));
}

#[test]
fn lru_just_seen_survives_next_insert() {
    let mut devices = LruBleDevices::new();
    for i in 0..256 {
        devices.insert(mac(i));
    }
    devices.insert(mac(5));
    devices.insert(mac(2000));
    assert!(!devices.insert(mac(5)));
}

#[test]
fn sightings_count_new_devices() {
    let mut devices = LruBleDevices::new();
    assert_eq!(record_sighting(&mut devices, 0, mac(1)), Some(1));
    assert_eq!(record_sighting(&mut devices, 1, mac(1)), None);
    assert_eq!(record_sighting(&mut devices, 1, mac(2)), Some(2));
}

#[test]
fn status_leds_show_counts_in_binary() {
    let inputs = StatusInputs { wifi_count: 5, ble_count: 6, button_a: true, button_f: false };
    let frame = status_led_frame(inputs);
    let green = Rgb8 { r: 0, g: 64, b: 0 };
    let blue = Rgb8 { r: 0, g: 0, b: 127 };
    let off = Rgb8 { r: 0, g: 0, b: 0 };
    assert_eq!(frame[0], off);
    assert_eq!(frame[1], green);
    assert_eq!(frame[2], off);
    assert_eq!(frame[3], green);
    assert_eq!(frame[4], off);
    assert_eq!(frame[12], off);
    assert_eq!(frame[11], blue);
    assert_eq!(frame[10], blue);
    assert_eq!(frame[9], off);
    assert_eq!(frame[13], Rgb8 { r: 255, g: 0, b: 0 });
    assert_eq!(frame[18], off);
}

#[test]
fn status_leds_cap_at_sixty_three() {
    let inputs = StatusInputs { wifi_count: 1000, ble_count: 64, button_a: false, button_f: true };
    let frame = status_led_frame(inputs);
    for led in 1..=6 {
        assert_eq!(frame[led], Rgb8 { r: 0, g: 64, b: 0 });
    }
    for led in 7..=12 {
        assert_eq!(frame[led], Rgb8 { r: 0, g: 0, b: 127 });
    }
    assert_eq!(frame[18], Rgb8 { r: 255, g: 0, b: 255 });
}

#[test]
fn status_leds_write_only_on_change() {
    let mut leds = StatusLeds::new();
    let mut inputs = StatusInputs { wifi_count: 0, ble_count: 0, button_a: false, button_f: false };
    assert!(leds.refresh(inputs).is_some());
    assert!(leds.refresh(inputs).is_none());
    inputs.on_button(ButtonEvent::Pressed(Button::A));
    assert!(inputs.button_a);
    inputs.on_button(ButtonEvent::Pressed(Button::C));
    assert!(leds.refresh(inputs).is_some());
    inputs.on_status(StatusUpdate::BleCount(3));
    assert_eq!(inputs.ble_count, 3);
    inputs.on_status(StatusUpdate::WifiCount(4));
    assert_eq!(inputs.wifi_count, 4);
    assert!(leds.refresh(inputs).is_some());
    inputs.on_button(ButtonEvent::Released(Button::A));
    assert!(!inputs.button_a);
}

#[test]
fn ping_pong_bounces() {
    assert_eq!(ping_pong(0, 42, 198, 20), 42);
    assert_eq!(ping_pong(10, 42, 198, 20), 42 + 78);
    assert_eq!(ping_pong(20, 42, 198, 20), 198);
    assert_eq!(ping_pong(30, 42, 198, 20), 120);
    assert_eq!(ping_pong(40, 42, 198, 20), 42);
    assert_eq!(ping_pong(3, 0, 10, 7), 4);
    assert_eq!(ping_pong(3, 10, 0, 7), 6);
    assert_eq!(ping_pong(1, 5, 9, 0), 9);
    // A period of u32::MAX is -1 as an i32: the numerator is divided by -1.
    assert_eq!(ping_pong(5, 0, 1, u32::MAX), 7);
    assert_eq!(ping_pong(5, 0, 0, u32::MAX), 0);
    for frame in 0..200u32 {
        let v = ping_pong(frame, 154, 188, 24);
        assert!((154..=188).contains(&v));
    }
}

#[test]
fn frame_state_animates() {
    let s = frame_state(0, 3, 100);
    assert_eq!(s.circle_center_x, 42);
    assert_eq!(s.triangle_tip_y, ping_pong(10, 154, 188, 24));
    assert_eq!(s.wifi_bar_width, 21);
    assert_eq!(s.ble_bar_width, 124);
    assert_eq!(s.accent, Color565 { r: 31, g: 0, b: 0 });
    assert_eq!(frame_state(1, 0, 0).accent, Color565 { r: 0, g: 63, b: 0 });
    assert_eq!(frame_state(2, 0, 0).accent, Color565 { r: 0, g: 0, b: 31 });
    assert_eq!(frame_state(u32::MAX, 0, 0).triangle_tip_y, ping_pong(9, 154, 188, 24));
}

#[test]
fn bar_widths_clamp() {
    assert_eq!(bar_width(0), 10);
    assert_eq!(bar_width(1), 10);
    assert_eq!(bar_width(2), 14);
    assert_eq!(bar_width(17), 119);
    assert_eq!(bar_width(18), 124);
    assert_eq!(bar_width(u32::MAX), 124);
}

#[test]
fn text_renders_numbers() {
    assert_eq!(decimal(0), "0");
    assert_eq!(decimal(7), "7");
    assert_eq!(decimal(1234567890), "1234567890");
    assert_eq!(decimal(u32::MAX), "4294967295");
    assert_eq!(signed_decimal(-128), "-128");
    assert_eq!(signed_decimal(0), "0");
    assert_eq!(signed_decimal(127), "127");
    assert_eq!(labelled_count("n=", 42), "n=42");
    assert_eq!(volts(3704), "3.70V");
    assert_eq!(volts(4004), "4.00V");
    assert_eq!(volts(0), "0.00V");
}

#[test]
fn scanner_screen_lines() {
    assert_eq!(wifi_scans_label(3), "WiFi scans: 3");
    assert_eq!(networks_label(12), "Networks: 12");
    assert_eq!(ble_seen_label(0), "BLE seen: 0");
    assert_eq!(battery_label(Some(3704)), "battery: 3.70V");
    assert_eq!(battery_label(None), "battery: --.-V");
    assert!(battery_label_is_stale(None, Some(3704)));
    assert!(!battery_label_is_stale(Some(3704), Some(3714)));
    assert!(battery_label_is_stale(Some(3704), Some(3724)));
    assert!(!battery_label_is_stale(None, None));
}

#[test]
fn scanner_battery_and_frame_timing() {
    assert!(reading_is_kept(Some(3704)));
    assert!(!reading_is_kept(Some(0)));
    assert!(!reading_is_kept(None));
    assert_eq!(battery_refresh_interval_ms(Some(3704)), 30_000);
    assert_eq!(battery_refresh_interval_ms(Some(0)), 1_000);
    assert_eq!(battery_refresh_interval_ms(None), 1_000);
    assert_eq!(frame_delay_ms(0), 33);
    assert_eq!(frame_delay_ms(20), 13);
    assert_eq!(frame_delay_ms(33), 1);
    assert_eq!(frame_delay_ms(500), 1);
}

#[test]
fn fps_counter_counts_per_second() {
    let mut fps = FpsCounter::new(0);
    for t in 1..30u64 {
        assert_eq!(fps.tick(t * 33), None);
    }
    assert_eq!(fps.tick(1_000), Some(30));
    assert_eq!(fps.frames, 0);
    assert_eq!(fps.window_start_ms, 1_000);
}

#[test]
fn blinky_overlays() {
    let (text, pos, ticks) = button_overlay(ButtonEvent::Pressed(Button::B));
    assert_eq!(text, "B P");
    assert_eq!(pos, (170, 80));
    assert_eq!(ticks, 5);
    assert_eq!(button_overlay(ButtonEvent::Released(Button::E)).0, "E R");
    assert_eq!(get_button_pos(Button::A), (100, 40));
    assert_eq!(get_button_pos(Button::D), (100, 210));
    assert_eq!(get_button_pos(Button::F), (30, 80));
}

#[test]
fn blinky_overlay_lasts_five_waits() {
    let mut screen = BatteryScreen::new();
    assert!(screen.on_button(ButtonEvent::Pressed(Button::C)));
    for _ in 0..4 {
        assert!(!screen.on_timeout());
        assert!(screen.overlay.is_some());
    }
    assert!(screen.on_timeout());
    assert!(screen.overlay.is_none());
    assert!(!screen.on_timeout());
}

#[test]
fn blinky_battery_every_eleventh_round() {
    let mut screen = BatteryScreen::new();
    assert!(screen.battery_due());
    for _ in 0..10 {
        assert!(!screen.battery_due());
    }
    assert!(screen.battery_due());
}

#[test]
fn blinky_texts_and_animation() {
    assert_eq!(level_text(87), "87%");
    assert_eq!(level_text(100), "100%");
    assert_eq!(voltage_text(3704), "3.70V");
    assert!(starts_animation(ButtonEvent::Pressed(Button::C)));
    assert!(!starts_animation(ButtonEvent::Released(Button::C)));
    let colors = animation_colors();
    assert_eq!(colors[0], Rgb8 { r: 127, g: 0, b: 0 });
    assert_eq!(colors[1], Rgb8 { r: 0, g: 64, b: 0 });
    assert_eq!(colors[6], Rgb8 { r: 127, g: 127, b: 127 });
}

#[test]
fn remote_actions_and_frames() {
    assert_eq!(remote_action(ButtonEvent::Pressed(Button::F)), RemoteAction::AwaitPowerHold);
    assert_eq!(remote_action(ButtonEvent::Pressed(Button::C)), RemoteAction::FlashButtonC);
    assert_eq!(remote_action(ButtonEvent::Released(Button::C)), RemoteAction::Report);
    assert!(ends_power_hold(ButtonEvent::Released(Button::F)));
    assert!(!ends_power_hold(ButtonEvent::Pressed(Button::F)));
    assert!(power_off_frame().iter().all(|c| *c == Rgb8 { r: 127, g: 0, b: 0 }));
    let c = button_c_frame();
    assert_eq!(c[5], Rgb8 { r: 0, g: 128, b: 0 });
    assert_eq!(c.iter().filter(|x| **x != Rgb8 { r: 0, g: 0, b: 0 }).count(), 1);
}

#[test]
fn lru_keeps_recency_order_over_many_sightings() {
    let mut devices = LruBleDevices::new();
    for i in 0..256 {
        devices.insert(mac(i));
    }
    // Refresh the oldest 10 in order; the next 10 new ones evict 10..19.
    for i in 0..10 {
        assert!(!devices.insert(mac(i)));
    }
    for i in 0..10 {
        assert!(devices.insert(mac(3000 + i)));
    }
    for i in 0..10 {
        assert!(!devices.insert(mac(i)));
    }
    assert!(devices.insert(mac(10)));
}
