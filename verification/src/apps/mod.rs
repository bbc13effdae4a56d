//! Logic of the demo firmwares that run on the badge: the WiFi/BLE scanner
//! with its status LEDs and animated screen, the battery display with its
//! button overlay, and the Bluetooth remote.

pub mod text;
pub mod wifi_ble;
pub mod wifi_ble_screen;
pub mod blinky;
pub mod remote;
