//! Support library for the EMF Camp Tildagon badge.
//!
//! The badge's peripherals sit behind a TCA9548A I2C multiplexer and three
//! AW9523B GPIO expanders. This crate holds the decisions that drive them:
//! which registers to touch and with what values, how button readings turn
//! into events, how LED colours become RMT pulses, the state of the iTag
//! finder application, and the logic of the demo firmwares. The bus traffic
//! itself is performed by the caller.

pub mod apps;
pub mod battery;
pub mod bounded;
pub mod buttons;
pub mod display;
pub mod hardware;
pub mod i2c;
pub mod itag;
pub mod leds;
pub mod pins;
