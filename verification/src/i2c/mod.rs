//! Mux-aware I2C bus handles.
//!
//! ```text
//! shared bus (the raw I2C peripheral behind a lock)
//!        |
//!        +- SystemI2cBus      (TCA9548A channel 7: expanders, BQ25895, FUSB302B)
//!        +- TopBoardI2cBus    (TCA9548A channel 0: top-board peripherals)
//!        +- HexpansionAI2cBus .. HexpansionFI2cBus  (channels 1 to 6)
//! ```

pub mod tca9548a;

pub use tca9548a::{Bus, BusNumber};

use vstd::prelude::*;

verus! {

/// TCA9548A channel 7: system bus (AW9523B expanders, BQ25895, FUSB302B).
pub type SystemI2cBus<BUS> = tca9548a::Bus<BUS, 7>;

/// TCA9548A channel 0: top-board / USB-out bus.
pub type TopBoardI2cBus<BUS> = tca9548a::Bus<BUS, 0>;

/// TCA9548A channel 1: hexpansion slot A.
pub type HexpansionAI2cBus<BUS> = tca9548a::Bus<BUS, 1>;

/// TCA9548A channel 2: hexpansion slot B.
pub type HexpansionBI2cBus<BUS> = tca9548a::Bus<BUS, 2>;

/// TCA9548A channel 3: hexpansion slot C.
pub type HexpansionCI2cBus<BUS> = tca9548a::Bus<BUS, 3>;

/// TCA9548A channel 4: hexpansion slot D.
pub type HexpansionDI2cBus<BUS> = tca9548a::Bus<BUS, 4>;

/// TCA9548A channel 5: hexpansion slot E.
pub type HexpansionEI2cBus<BUS> = tca9548a::Bus<BUS, 5>;

/// TCA9548A channel 6: hexpansion slot F.
pub type HexpansionFI2cBus<BUS> = tca9548a::Bus<BUS, 6>;

/// A [`SystemI2cBus`] handle on the shared bus.
pub fn system_i2c_bus<BUS>(bus: BUS) -> (b: SystemI2cBus<BUS>)
    ensures
        b.spec_parent() == bus,
        b.spec_mux_address() == tca9548a::MUX_ADDRESS,
{
    SystemI2cBus::new(bus)
}

/// A [`TopBoardI2cBus`] handle on the shared bus.
pub fn top_i2c_bus<BUS>(bus: BUS) -> (b: TopBoardI2cBus<BUS>)
    ensures
        b.spec_parent() == bus,
        b.spec_mux_address() == tca9548a::MUX_ADDRESS,
{
    TopBoardI2cBus::new(bus)
}

/// A [`HexpansionAI2cBus`] handle on the shared bus.
pub fn hexpansion_a_i2c_bus<BUS>(bus: BUS) -> (b: HexpansionAI2cBus<BUS>)
    ensures
        b.spec_parent() == bus,
        b.spec_mux_address() == tca9548a::MUX_ADDRESS,
{
    HexpansionAI2cBus::new(bus)
}

/// A [`HexpansionBI2cBus`] handle on the shared bus.
pub fn hexpansion_b_i2c_bus<BUS>(bus: BUS) -> (b: HexpansionBI2cBus<BUS>)
    ensures
        b.spec_parent() == bus,
        b.spec_mux_address() == tca9548a::MUX_ADDRESS,
{
    HexpansionBI2cBus::new(bus)
}

/// A [`HexpansionCI2cBus`] handle on the shared bus.
pub fn hexpansion_c_i2c_bus<BUS>(bus: BUS) -> (b: HexpansionCI2cBus<BUS>)
    ensures
        b.spec_parent() == bus,
        b.spec_mux_address() == tca9548a::MUX_ADDRESS,
{
    HexpansionCI2cBus::new(bus)
}

/// A [`HexpansionDI2cBus`] handle on the shared bus.
pub fn hexpansion_d_i2c_bus<BUS>(bus: BUS) -> (b: HexpansionDI2cBus<BUS>)
    ensures
        b.spec_parent() == bus,
        b.spec_mux_address() == tca9548a::MUX_ADDRESS,
{
    HexpansionDI2cBus::new(bus)
}

/// A [`HexpansionEI2cBus`] handle on the shared bus.
pub fn hexpansion_e_i2c_bus<BUS>(bus: BUS) -> (b: HexpansionEI2cBus<BUS>)
    ensures
        b.spec_parent() == bus,
        b.spec_mux_address() == tca9548a::MUX_ADDRESS,
{
    HexpansionEI2cBus::new(bus)
}

/// A [`HexpansionFI2cBus`] handle on the shared bus.
pub fn hexpansion_f_i2c_bus<BUS>(bus: BUS) -> (b: HexpansionFI2cBus<BUS>)
    ensures
        b.spec_parent() == bus,
        b.spec_mux_address() == tca9548a::MUX_ADDRESS,
{
    HexpansionFI2cBus::new(bus)
}

} // verus!
