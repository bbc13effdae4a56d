//! I2C expander pins: typed pin tokens, the badge's pin assignment and the
//! AW9523B register logic.

pub mod assignment;
pub mod aw9523b;
pub mod pin;

pub use assignment::{ButtonPins, HexpansionDetectPins, LedPins, OtherPins, Pins, TopBoardPins};
pub use pin::{Pin, Port, TypeErasedPin};
