use embedded_graphics::pixelcolor::Rgb565;
use embedded_graphics::prelude::RgbColor;
use tildagon::battery::{Battery, BatteryState, ChargeStatus, batfet_disable_update, scaled_measurement};
use tildagon::buttons::{Button, ButtonEvent, TypedButtons};
use tildagon::display::{StripeBuffer, stripe_offset, stripe_rect};
use tildagon::hardware::{InitStep, init_sequence, outputs_off_step};
use tildagon::i2c::tca9548a::BusNumber;
use tildagon::i2c::{hexpansion_c_i2c_bus, system_i2c_bus, top_i2c_bus};
use tildagon::leds::{
    NUM_LEDS, NamedColor, PulseCode, Rgb8, TX_BUFFER_SIZE, encode_frame, frame_length, half,
    named_color, uniform_frame,
};
use tildagon::pins::Pins;
use tildagon::pins::aw9523b::{
    GpioDirection, Level, PinMode, Register, input_is_high, io_direction_register,
    io_direction_update, io_input_register,
    io_state_register, io_state_update, pin_mode_register, pin_mode_update, read_register_frame,
    write_register_frame,
};
use tildagon::pins::pin::{Pin, Port, pin_bit};

#[test]
fn pin_bit_is_one_hot() {
    let expected = [0x01u8, 0x02, 0x04, 0x08, 0x10, 0x20, 0x40, 0x80];
    for pin in 0..8u8 {
        assert_eq!(pin_bit(pin), expected[pin as usize]);
    }
}

#[test]
fn pin_reports_its_parameters() {
    let pin: Pin<0x5A, 1, 3> = Pin::new();
    assert_eq!(pin.address(), 0x5A);
    assert_eq!(pin.port(), Port::Port1);
    assert_eq!(pin.pin(), 3);
    assert_eq!(pin.bit(), 0x08);
    let erased = pin.erase();
    assert_eq!(erased.address(), 0x5A);
    assert_eq!(erased.port(), Port::Port1);
    assert_eq!(erased.pin(), 3);
    assert_eq!(erased.bit(), 0x08);
}

#[test]
fn pins_table_places_buttons_and_led_power() {
    let pins = Pins::new();
    let a = pins.button.btn_a.erase();
    assert_eq!((a.address(), a.port(), a.pin()), (0x5A, Port::Port0, 6));
    let f = pins.button.btn_f.erase();
    assert_eq!((f.address(), f.port(), f.pin()), (0x59, Port::Port0, 3));
    let led = pins.led.power_enable.erase();
    assert_eq!((led.address(), led.port(), led.pin()), (0x5A, Port::Port0, 2));
}

#[test]
fn register_frames_address_the_port() {
    let pin: Pin<0x58, 1, 5> = Pin::new();
    let erased = pin.erase();
    assert_eq!(pin_mode_register(&erased), Register::LEDMS_P1);
    assert_eq!(io_direction_register(&erased), Register::CONFIG_P1);
    assert_eq!(io_state_register(&erased), Register::OUTPUT_P1);
    assert_eq!(write_register_frame(Register::OUTPUT_P1, 0xAB), [0x03, 0xAB]);
    assert_eq!(read_register_frame(Register::INPUT_P0), [0x00]);
}

#[test]
fn register_updates_touch_only_the_pin_bit() {
    let pin: Pin<0x58, 0, 2> = Pin::new();
    let erased = pin.erase();
    assert_eq!(io_state_update(&erased, Level::High, 0b1000_0000), 0b1000_0100);
    assert_eq!(io_state_update(&erased, Level::Low, 0xFF), 0b1111_1011);
    assert_eq!(io_direction_update(&erased, GpioDirection::Input, 0x00), 0b0000_0100);
    assert_eq!(io_direction_update(&erased, GpioDirection::Output, 0xFF), 0b1111_1011);
    assert_eq!(pin_mode_update(&erased, PinMode::Gpio, 0x00), 0b0000_0100);
    assert_eq!(pin_mode_update(&erased, PinMode::Led, 0xFF), 0b1111_1011);
}

#[test]
fn mux_channels_select_one_bit() {
    for i in 0..8u8 {
        assert_eq!(BusNumber::from_index(i).select_mask(), 1u8 << i);
    }
    let system = system_i2c_bus(());
    assert_eq!(system.select_command(), (0x77, [0x80]));
    assert_eq!(system.bus_number(), BusNumber::Bus7);
    let top = top_i2c_bus(());
    assert_eq!(top.select_command(), (0x77, [0x01]));
    let hex_c = hexpansion_c_i2c_bus(());
    assert_eq!(hex_c.select_command(), (0x77, [0x08]));
}

#[test]
fn charge_status_decodes_bits_three_and_four() {
    assert_eq!(ChargeStatus::from_status_register(0x00), ChargeStatus::NotCharging);
    assert_eq!(ChargeStatus::from_status_register(0x08), ChargeStatus::PreCharging);
    assert_eq!(ChargeStatus::from_status_register(0x17), ChargeStatus::FastCharging);
    assert_eq!(ChargeStatus::from_status_register(0xFF), ChargeStatus::ChargeTerminated);
    assert!(ChargeStatus::PreCharging.is_charging());
    assert!(ChargeStatus::FastCharging.is_charging());
    assert!(!ChargeStatus::ChargeTerminated.is_charging());
    assert!(!ChargeStatus::NotCharging.is_charging());
    assert_eq!(ChargeStatus::FastCharging.as_str(), "Charging");
    assert_eq!(ChargeStatus::ChargeTerminated.as_str(), "Charged");
    assert_eq!(ChargeStatus::NotCharging.as_str(), "Not charging");
}

#[test]
fn measurements_scale_from_offset() {
    assert_eq!(scaled_measurement(0, 20, 2304), 0);
    assert_eq!(scaled_measurement(0x80, 20, 2304), 0);
    assert_eq!(scaled_measurement(70, 20, 2304), 3704);
    assert_eq!(scaled_measurement(0xC6, 100, 2600), 70 * 100 + 2600);
}

#[test]
fn battery_state_from_status_block() {
    let s = BatteryState::from_registers([0x10, 0x00, 0x00, 70, 75, 0x00, 25, 0x8A]);
    assert_eq!(s.raw_status, 0x10);
    assert_eq!(s.charge_status, ChargeStatus::FastCharging);
    assert_eq!(s.vbat_millivolts, 3704);
    assert_eq!(s.vsys_millivolts, 3804);
    assert_eq!(s.vbus_millivolts, 5100);
    assert_eq!(s.charge_current_milliamps, 10 * 50);
}

#[test]
fn battery_reads_its_status_block() {
    let battery = Battery::new(system_i2c_bus(()));
    assert_eq!(battery.status_request(), (0x6A, [0x0B], 8));
    assert_eq!(battery.bus().select_command(), (0x77, [0x80]));
}

#[test]
fn button_poll_reports_changes() {
    let mut buttons = TypedButtons::new(system_i2c_bus(()));
    assert_eq!(buttons.last_states(), (0xFF, 0xFF));
    // C pressed (bit 0 of 0x59) and A pressed (bit 6 of 0x5A).
    let events = buttons.poll(0xFE, 0xBF);
    assert_eq!(events.as_slice(), &[ButtonEvent::Pressed(Button::C), ButtonEvent::Pressed(Button::A)]);
    assert_eq!(buttons.last_states(), (0xFE, 0xBF));
    let quiet = buttons.poll(0xFE, 0xBF);
    assert!(quiet.is_empty());
    let released = buttons.poll(0xFF, 0xBF);
    assert_eq!(released.as_slice(), &[ButtonEvent::Released(Button::C)]);
}

#[test]
fn button_poll_reports_all_six() {
    let mut buttons = TypedButtons::new(system_i2c_bus(()));
    let events = buttons.poll(0x00, 0x00);
    assert_eq!(
        events.as_slice(),
        &[
            ButtonEvent::Pressed(Button::C),
            ButtonEvent::Pressed(Button::D),
            ButtonEvent::Pressed(Button::E),
            ButtonEvent::Pressed(Button::F),
            ButtonEvent::Pressed(Button::A),
            ButtonEvent::Pressed(Button::B),
        ]
    );
    assert_eq!(buttons.poll_reads(), [(0x59, 0x00), (0x5A, 0x00)]);
}

#[test]
fn palette_and_halving() {
    assert_eq!(named_color(NamedColor::Green), Rgb8 { r: 0, g: 128, b: 0 });
    assert_eq!(half(named_color(NamedColor::White)), Rgb8 { r: 127, g: 127, b: 127 });
    assert_eq!(half(named_color(NamedColor::Blue)), Rgb8 { r: 0, g: 0, b: 127 });
    let frame = uniform_frame(Rgb8 { r: 1, g: 2, b: 3 });
    assert!(frame.iter().all(|c| *c == Rgb8 { r: 1, g: 2, b: 3 }));
}

#[test]
fn encode_frame_writes_grb_bits_then_reset() {
    let mut buffer = vec![PulseCode::new(false, 0, false, 0); TX_BUFFER_SIZE];
    let colors = [Rgb8 { r: 0x00, g: 0x80, b: 0x01 }];
    encode_frame(&colors, &mut buffer);
    let one = PulseCode::new(true, 68, false, 32);
    let zero = PulseCode::new(true, 32, false, 68);
    // Green first, most significant bit first.
    assert_eq!(buffer[0], one);
    for k in 1..8 {
        assert_eq!(buffer[k], zero);
    }
    for k in 8..16 {
        assert_eq!(buffer[k], zero);
    }
    for k in 16..23 {
        assert_eq!(buffer[k], zero);
    }
    assert_eq!(buffer[23], one);
    for k in 24..28 {
        assert_eq!(buffer[k], PulseCode::new(false, 12000, false, 12000));
    }
    assert!(buffer[28].is_end_marker());
    assert_eq!(frame_length(&buffer), 29);
}

#[test]
fn encode_full_frame_fills_buffer() {
    let mut buffer = vec![PulseCode::new(true, 1, true, 1); TX_BUFFER_SIZE];
    let colors = [Rgb8 { r: 0xFF, g: 0xFF, b: 0xFF }; NUM_LEDS];
    encode_frame(&colors, &mut buffer);
    assert_eq!(frame_length(&buffer), TX_BUFFER_SIZE);
    assert!(buffer[TX_BUFFER_SIZE - 1].is_end_marker());
}

#[test]
fn init_sequence_order() {
    let plan = init_sequence();
    assert_eq!(plan[0], InitStep::Write(0x77, vec![0x80]));
    assert_eq!(plan[1], InitStep::Write(0x5A, vec![0x02, 0x00]));
    assert_eq!(plan[2], InitStep::Write(0x5A, vec![0x04, 0xCB, 0xFF]));
    assert_eq!(plan[3], InitStep::Write(0x6A, vec![0x14, 0x80]));
    assert_eq!(plan[4], InitStep::Write(0x6A, vec![0x02, 0x60, 0x10, 0x18, 0x00]));
    assert_eq!(plan[5], InitStep::Write(0x6A, vec![0x07, 0x8C]));
    assert_eq!(plan[6], InitStep::Write(0x58, vec![0x7F, 0x00]));
    assert_eq!(plan[7], InitStep::DelayMs(2));
    let mut cleared = vec![0x20u8];
    cleared.extend_from_slice(&[0u8; 16]);
    assert_eq!(plan[11], InitStep::Write(0x58, cleared.clone()));
    assert_eq!(plan[21], InitStep::Write(0x5A, cleared));
    assert_eq!(plan[22], InitStep::Write(0x5A, vec![0x02, 0x04]));
    // 0x5A is never reset.
    assert!(!plan.iter().any(|s| *s == InitStep::Write(0x5A, vec![0x7F, 0x00])));
    assert_eq!(plan.len(), 23);
}

#[test]
fn stripes_tile_the_display() {
    for i in 0..6usize {
        assert_eq!(stripe_offset(i), (i * 40) as i32);
        assert_eq!(stripe_rect(i), (0, (i * 40) as i32, 240, 40));
    }
}

#[test]
fn stripe_buffer_clips_to_stripe() {
    let mut buffer = StripeBuffer::new(Rgb565::BLACK);
    assert_eq!(buffer.size(), (240, 240));
    buffer.offset_y = 40;
    buffer.draw_pixel(3, 41, Rgb565::RED);
    buffer.draw_pixel(3, 10, Rgb565::GREEN);
    buffer.draw_pixel(-1, 41, Rgb565::GREEN);
    buffer.draw_iter(&[(5, 79, Rgb565::BLUE), (5, 80, Rgb565::GREEN)]);
    assert_eq!(buffer.pixels[240 + 3], Rgb565::RED);
    assert_eq!(buffer.pixels[39 * 240 + 5], Rgb565::BLUE);
    assert_eq!(buffer.pixels.iter().filter(|p| **p != Rgb565::BLACK).count(), 2);
}

#[test]
fn input_pins_read_their_bit() {
    let p1: Pin<0x59, 1, 2> = Pin::new();
    let p1 = p1.erase();
    assert_eq!(io_input_register(&p1), Register::INPUT_P1);
    assert!(input_is_high(&p1, 0b0000_0100));
    assert!(!input_is_high(&p1, 0b1111_1011));
    let p0: Pin<0x59, 0, 0> = Pin::new();
    assert_eq!(io_input_register(&p0.erase()), Register::INPUT_P0);
}

#[test]
fn outputs_off_clears_port_zero_of_usb_expander() {
    assert_eq!(outputs_off_step(), InitStep::Write(0x5A, vec![0x02, 0x00]));
}

#[test]
fn power_off_sets_only_the_batfet_bit() {
    assert_eq!(batfet_disable_update(0x00), 0x20);
    assert_eq!(batfet_disable_update(0x44), 0x64);
    assert_eq!(batfet_disable_update(0xFF), 0xFF);
}
