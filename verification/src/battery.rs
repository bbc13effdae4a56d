//! Battery and charger readings from the BQ25895 on the system I2C bus.
//!
//! The charger reports its status and ADC readings in an eight-byte register
//! block starting at 0x0B. The ADC values are decoded here into integer
//! millivolts and milliamps, which are exact: each code is a whole number of
//! LSB steps plus a whole-millivolt offset.

use vstd::prelude::*;
use crate::i2c::SystemI2cBus;

verus! {

/// The charger's I2C address.
pub const ADDRESS: u8 = 0x6A;

/// First register of the status block.
pub const STATUS_START_REGISTER: u8 = 0x0B;

/// Length of the status block in bytes.
pub const STATUS_BLOCK_LEN: usize = 8;

/// Bits of the status register that hold the charge state.
pub const CHARGE_STATUS_MASK: u8 = 0x18;

/// High-level charging state reported by the BQ25895.
#[derive(Debug, Clone, Copy, PartialEq, Eq, Structural)]
pub enum ChargeStatus {
    NotCharging,
    PreCharging,
    FastCharging,
    ChargeTerminated,
    Unknown(u8),
}

/// The charge state encoded in a status register value.
pub open spec fn spec_charge_status(status: u8) -> ChargeStatus {
    let bits = status & CHARGE_STATUS_MASK;
    if bits == 0x00 {
        ChargeStatus::NotCharging
    } else if bits == 0x08 {
        ChargeStatus::PreCharging
    } else if bits == 0x10 {
        ChargeStatus::FastCharging
    } else if bits == 0x18 {
        ChargeStatus::ChargeTerminated
    } else {
        ChargeStatus::Unknown(bits)
    }
}

/// The two charge-state bits always decode to one of the four named states.
pub proof fn law_charge_status_is_never_unknown(status: u8)
    ensures
        !(spec_charge_status(status) is Unknown),
{
    let bits = status & CHARGE_STATUS_MASK;
    assert(bits == 0 || bits == 8 || bits == 16 || bits == 24) by (bit_vector)
        requires
            bits == status & 0x18u8,
    ;
}

impl ChargeStatus {
    /// Decode the charge state from the charger status register (0x0B).
    pub fn from_status_register(status: u8) -> (s: Self)
        ensures
            s == spec_charge_status(status),
    {
        let bits = status & CHARGE_STATUS_MASK;
        match bits {
            0x00 => ChargeStatus::NotCharging,
            0x08 => ChargeStatus::PreCharging,
            0x10 => ChargeStatus::FastCharging,
            0x18 => ChargeStatus::ChargeTerminated,
            other => ChargeStatus::Unknown(other),
        }
    }

    /// Whether the charger is actively charging the cell.
    pub open spec fn spec_is_charging(self) -> bool {
        self is PreCharging || self is FastCharging
    }

    /// Returns `true` while the charger is actively charging the cell.
    pub fn is_charging(self) -> (b: bool)
        ensures
            b == self.spec_is_charging(),
    {
        match self {
            ChargeStatus::PreCharging | ChargeStatus::FastCharging => true,
            _ => false,
        }
    }

    /// User-facing label suitable for logging or UI.
    pub fn as_str(self) -> (s: &'static str)
        ensures
            self is NotCharging ==> s@ == "Not charging"@,
            self is PreCharging ==> s@ == "Pre-charging"@,
            self is FastCharging ==> s@ == "Charging"@,
            self is ChargeTerminated ==> s@ == "Charged"@,
            self is Unknown ==> s@ == "Unknown"@,
    {
        match self {
            ChargeStatus::NotCharging => "Not charging",
            ChargeStatus::PreCharging => "Pre-charging",
            ChargeStatus::FastCharging => "Charging",
            ChargeStatus::ChargeTerminated => "Charged",
            ChargeStatus::Unknown(_) => "Unknown",
        }
    }
}

/// An ADC reading: the low seven bits count LSB steps above an offset, and a
/// zero count means no reading.
pub open spec fn spec_scaled_measurement(raw: u8, lsb_scale: u32, offset: u32) -> int {
    let value = raw & 0x7F;
    if value == 0 {
        0
    } else {
        value * lsb_scale + offset
    }
}

/// Decode an ADC reading in milli-units, from the LSB step and the offset in
/// the same units.
pub fn scaled_measurement(raw: u8, lsb_scale: u32, offset: u32) -> (m: u32)
    requires
        lsb_scale <= 1_000_000,
        offset <= 1_000_000_000,
    ensures
        m == spec_scaled_measurement(raw, lsb_scale, offset),
{
    let value = raw & 0x7F;
    assert(value <= 127) by (bit_vector)
        requires
            value == raw & 0x7Fu8,
    ;
    if value == 0 {
        0
    } else {
        assert(value * lsb_scale <= 127 * 1_000_000) by (nonlinear_arith)
            requires
                value <= 127,
                lsb_scale <= 1_000_000,
        ;
        value as u32 * lsb_scale + offset
    }
}

/// Parsed charger and battery measurements.
#[derive(Debug, Clone, Copy, PartialEq, Eq, Structural)]
pub struct BatteryState {
    /// Raw charger status register (0x0B).
    pub raw_status: u8,
    /// Raw charger fault register (0x0C).
    pub raw_fault: u8,
    /// USB input voltage in millivolts.
    pub vbus_millivolts: u32,
    /// System rail voltage in millivolts.
    pub vsys_millivolts: u32,
    /// Battery voltage in millivolts.
    pub vbat_millivolts: u32,
    /// Charging current in milliamps.
    pub charge_current_milliamps: u32,
    /// Decoded charge state.
    pub charge_status: ChargeStatus,
}

impl BatteryState {
    /// Decode the eight-byte status block read from register 0x0B.
    ///
    /// VBAT (0x0E) and VSYS (0x0F) are 20 mV steps above 2.304 V, VBUS (0x11)
    /// 100 mV steps above 2.6 V, and the charge current (0x12) 50 mA steps.
    pub fn from_registers(registers: [u8; 8]) -> (s: Self)
        ensures
            s.raw_status == registers[0],
            s.raw_fault == registers[1],
            s.charge_status == spec_charge_status(registers[0]),
            s.vbat_millivolts == spec_scaled_measurement(registers[3], 20, 2304),
            s.vsys_millivolts == spec_scaled_measurement(registers[4], 20, 2304),
            s.vbus_millivolts == spec_scaled_measurement(registers[6], 100, 2600),
            s.charge_current_milliamps == (registers[7] & 0x7F) * 50,
    {
        let current_byte: u8 = registers[7];
        let current_raw: u8 = current_byte & 0x7F;
        assert(current_raw <= 127) by (bit_vector)
            requires
                current_raw == current_byte & 0x7Fu8,
        ;
        BatteryState {
            raw_status: registers[0],
            raw_fault: registers[1],
            charge_status: ChargeStatus::from_status_register(registers[0]),
            vbat_millivolts: scaled_measurement(registers[3], 20, 2304),
            vsys_millivolts: scaled_measurement(registers[4], 20, 2304),
            vbus_millivolts: scaled_measurement(registers[6], 100, 2600),
            charge_current_milliamps: current_raw as u32 * 50,
        }
    }
}

/// Battery/charger reader bound to the system I2C bus.
pub struct Battery<BUS> {
    i2c: SystemI2cBus<BUS>,
}

impl<BUS> Battery<BUS> {
    pub closed spec fn spec_bus(&self) -> SystemI2cBus<BUS> {
        self.i2c
    }

    /// Create a new battery reader from a mux-aware system I2C handle.
    pub fn new(i2c: SystemI2cBus<BUS>) -> (b: Self)
        ensures
            b.spec_bus() == i2c,
    {
        Battery { i2c }
    }

    /// The bus the reader talks on.
    pub fn bus(&self) -> (b: &SystemI2cBus<BUS>)
        ensures
            *b == self.spec_bus(),
    {
        &self.i2c
    }

    /// The bus the reader talks on, for a transaction.
    pub fn bus_mut(&mut self) -> (b: &mut SystemI2cBus<BUS>)
        ensures
            *b == old(self).spec_bus(),
            final(self).spec_bus() == *final(b),
    {
        &mut self.i2c
    }

    /// The read that fetches the status block: the charger's address, the
    /// register to start at, and the number of bytes to read.
    pub fn status_request(&self) -> (req: (u8, [u8; 1], usize))
        ensures
            req.0 == ADDRESS,
            req.1@ == seq![STATUS_START_REGISTER],
            req.2 == STATUS_BLOCK_LEN,
    {
        (ADDRESS, [STATUS_START_REGISTER], STATUS_BLOCK_LEN)
    }
}

/// BQ25895 register 0x09: miscellaneous operation control.
pub const REG_MISC_OPERATION: u8 = 0x09;

/// Bit 5 of register 0x09: disconnects the battery FET (ship mode).
pub const BATFET_DISABLE: u8 = 0x20;

/// The value written back to register 0x09 to power the badge off, given
/// its `current` value: the battery FET bit set, every other bit kept.
pub fn batfet_disable_update(current: u8) -> (updated: u8)
    ensures
        updated == current | BATFET_DISABLE,
        updated & BATFET_DISABLE == BATFET_DISABLE,
        updated & !BATFET_DISABLE == current & !BATFET_DISABLE,
{
    let updated = current | BATFET_DISABLE;
    assert((current | 0x20u8) & 0x20u8 == 0x20u8 && (current | 0x20u8) & !0x20u8 == current & !0x20u8)
        by (bit_vector);
    updated
}

} // verus!
