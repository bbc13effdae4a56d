//! The badge's AW9523B expander pin assignments.
//!
//! Each field is a zero-sized [`Pin`] token whose address, port and bit
//! number are const generic parameters.

use vstd::prelude::*;
use crate::pins::pin::Pin;

verus! {

/// All I2C expander GPIO pins on the badge.
pub struct Pins {
    pub button: ButtonPins,
    pub led: LedPins,
    pub other: OtherPins,
    pub hexpansion_detect: HexpansionDetectPins,
    pub top_board: TopBoardPins,
}

/// The six user-facing buttons (A to F).
pub struct ButtonPins {
    /// Button A: 0x5A port 0 pin 6
    pub btn_a: Pin<0x5A, 0, 6>,
    /// Button B: 0x5A port 0 pin 7
    pub btn_b: Pin<0x5A, 0, 7>,
    /// Button C: 0x59 port 0 pin 0
    pub btn_c: Pin<0x59, 0, 0>,
    /// Button D: 0x59 port 0 pin 1
    pub btn_d: Pin<0x59, 0, 1>,
    /// Button E: 0x59 port 0 pin 2
    pub btn_e: Pin<0x59, 0, 2>,
    /// Button F: 0x59 port 0 pin 3
    pub btn_f: Pin<0x59, 0, 3>,
}

/// LED subsystem control pins.
pub struct LedPins {
    /// WS2812B power enable: 0x5A port 0 pin 2 (high is on)
    pub power_enable: Pin<0x5A, 0, 2>,
}

/// Miscellaneous control and status pins.
pub struct OtherPins {
    /// 0x5A port 0 pin 4, which selects where USB is routed (low: to the
    /// ESP32)
    pub vbus_sw: Pin<0x5A, 0, 4>,
    /// 0x5A port 0 pin 5, the secondary switch
    pub usb_select: Pin<0x5A, 0, 5>,
    /// Accelerometer interrupt: 0x58 port 0 pin 1
    pub accel_int: Pin<0x58, 0, 1>,
}

/// Hexpansion slot detection pins (high when a board is inserted).
pub struct HexpansionDetectPins {
    pub a: Pin<0x5A, 1, 4>,
    pub b: Pin<0x5A, 1, 5>,
    pub c: Pin<0x59, 1, 0>,
    pub d: Pin<0x59, 1, 1>,
    pub e: Pin<0x59, 1, 2>,
    pub f: Pin<0x59, 1, 3>,
}

/// Top-board level-shift control pins.
pub struct TopBoardPins {
    pub ls_1: Pin<0x5A, 1, 7>,
    pub ls_2: Pin<0x5A, 1, 6>,
}

impl Pins {
    /// The pin tokens of the badge. Their types fix each pin's expander
    /// address, port and bit; the function only hands them out.
    pub fn new() -> (pins: Self)
        ensures
            Pin::<0x5A, 0, 6>::wf() && Pin::<0x5A, 0, 7>::wf() && Pin::<0x59, 0, 0>::wf()
                && Pin::<0x59, 0, 3>::wf() && Pin::<0x5A, 0, 2>::wf() && Pin::<0x5A, 1, 7>::wf(),
    {
        Pins {
            button: ButtonPins {
                btn_a: Pin::new(),
                btn_b: Pin::new(),
                btn_c: Pin::new(),
                btn_d: Pin::new(),
                btn_e: Pin::new(),
                btn_f: Pin::new(),
            },
            led: LedPins { power_enable: Pin::new() },
            other: OtherPins { vbus_sw: Pin::new(), usb_select: Pin::new(), accel_int: Pin::new() },
            hexpansion_detect: HexpansionDetectPins {
                a: Pin::new(),
                b: Pin::new(),
                c: Pin::new(),
                d: Pin::new(),
                e: Pin::new(),
                f: Pin::new(),
            },
            top_board: TopBoardPins { ls_1: Pin::new(), ls_2: Pin::new() },
        }
    }
}

} // verus!
