//! AW9523B GPIO expander registers and the register updates that configure
//! one pin.
//!
//! Each pin operation reads a port register, changes the pin's bit and writes
//! the register back. The reads and writes happen on the bus; this module
//! decides which register is touched and what value is written.

use vstd::prelude::*;
use crate::pins::pin::{Port, TypeErasedPin, with_bit, bit_is_set, lemma_with_bit};

verus! {

/// Function of a pin: plain GPIO, or constant-current LED driver.
#[derive(Debug, Copy, Clone, PartialEq, Eq, Structural)]
pub enum PinMode {
    Gpio,
    Led,
}

/// Direction of a GPIO pin.
#[derive(Debug, Copy, Clone, PartialEq, Eq, Structural)]
pub enum GpioDirection {
    Input,
    Output,
}

/// Level driven on an output pin.
#[derive(Debug, Copy, Clone, PartialEq, Eq, Structural)]
pub enum Level {
    Low,
    High,
}

/// The AW9523B register map.
#[allow(non_camel_case_types)]
#[derive(Debug, Copy, Clone, PartialEq, Eq, Structural)]
pub enum Register {
    INPUT_P0,
    INPUT_P1,
    OUTPUT_P0,
    OUTPUT_P1,
    CONFIG_P0,
    CONFIG_P1,
    INT_P0,
    INT_P1,
    ID,
    CTL,
    LEDMS_P0,
    LEDMS_P1,
    SW_RSTN,
}

impl Register {
    /// The register's address on the chip.
    pub open spec fn spec_address(self) -> u8 {
        match self {
            Register::INPUT_P0 => 0x00,
            Register::INPUT_P1 => 0x01,
            Register::OUTPUT_P0 => 0x02,
            Register::OUTPUT_P1 => 0x03,
            Register::CONFIG_P0 => 0x04,
            Register::CONFIG_P1 => 0x05,
            Register::INT_P0 => 0x06,
            Register::INT_P1 => 0x07,
            Register::ID => 0x10,
            Register::CTL => 0x11,
            Register::LEDMS_P0 => 0x12,
            Register::LEDMS_P1 => 0x13,
            Register::SW_RSTN => 0x7F,
        }
    }

    /// The register's address on the chip.
    pub fn address(self) -> (a: u8)
        ensures
            a == self.spec_address(),
    {
        match self {
            Register::INPUT_P0 => 0x00,
            Register::INPUT_P1 => 0x01,
            Register::OUTPUT_P0 => 0x02,
            Register::OUTPUT_P1 => 0x03,
            Register::CONFIG_P0 => 0x04,
            Register::CONFIG_P1 => 0x05,
            Register::INT_P0 => 0x06,
            Register::INT_P1 => 0x07,
            Register::ID => 0x10,
            Register::CTL => 0x11,
            Register::LEDMS_P0 => 0x12,
            Register::LEDMS_P1 => 0x13,
            Register::SW_RSTN => 0x7F,
        }
    }
}

/// The AW9523B register map: the port registers come in pairs, port 1 at
/// the address after port 0, starting with the inputs at 0x00 and the
/// direction registers at 0x04; the bring-up's register constants name the
/// same registers; and no two registers share an address.
pub proof fn law_register_map(r: Register, q: Register)
    ensures
        Register::INPUT_P0.spec_address() == 0x00u8,
        Register::CONFIG_P0.spec_address() == 0x04u8,
        Register::ID.spec_address() == 0x10u8,
        Register::SW_RSTN.spec_address() == 0x7Fu8,
        Register::INPUT_P1.spec_address() == Register::INPUT_P0.spec_address() + 1,
        Register::OUTPUT_P0.spec_address() == Register::INPUT_P1.spec_address() + 1,
        Register::OUTPUT_P1.spec_address() == Register::OUTPUT_P0.spec_address() + 1,
        Register::CONFIG_P0.spec_address() == Register::OUTPUT_P1.spec_address() + 1,
        Register::CONFIG_P1.spec_address() == Register::CONFIG_P0.spec_address() + 1,
        Register::INT_P0.spec_address() == Register::CONFIG_P1.spec_address() + 1,
        Register::INT_P1.spec_address() == Register::INT_P0.spec_address() + 1,
        Register::CTL.spec_address() == Register::ID.spec_address() + 1,
        Register::LEDMS_P0.spec_address() == Register::CTL.spec_address() + 1,
        Register::LEDMS_P1.spec_address() == Register::LEDMS_P0.spec_address() + 1,
        Register::OUTPUT_P0.spec_address() == crate::hardware::REG_OUTPUT_P0,
        Register::CONFIG_P0.spec_address() == crate::hardware::REG_CONFIG_P0,
        Register::INT_P0.spec_address() == crate::hardware::REG_INT_P0,
        Register::CTL.spec_address() == crate::hardware::REG_CTL,
        Register::SW_RSTN.spec_address() == crate::hardware::REG_SW_RSTN,
        spec_direction_register(Port::Port0).spec_address() == 0x04u8,
        spec_direction_register(Port::Port1).spec_address() == 0x05u8,
        r.spec_address() == q.spec_address() ==> r == q,
{
}

/// The bytes of a register write: the register's address, then the value.
pub fn write_register_frame(register: Register, value: u8) -> (frame: [u8; 2])
    ensures
        frame@ == seq![register.spec_address(), value],
{
    [register.address(), value]
}

/// The byte sent before reading a register back: the register's address.
pub fn read_register_frame(register: Register) -> (frame: [u8; 1])
    ensures
        frame@ == seq![register.spec_address()],
{
    [register.address()]
}

/// The LED-mode select register of a port (a one bit selects GPIO).
pub open spec fn spec_mode_register(port: Port) -> Register {
    match port {
        Port::Port0 => Register::LEDMS_P0,
        Port::Port1 => Register::LEDMS_P1,
    }
}

/// The direction register of a port (a one bit is an input).
pub open spec fn spec_direction_register(port: Port) -> Register {
    match port {
        Port::Port0 => Register::CONFIG_P0,
        Port::Port1 => Register::CONFIG_P1,
    }
}

/// The output register of a port.
pub open spec fn spec_output_register(port: Port) -> Register {
    match port {
        Port::Port0 => Register::OUTPUT_P0,
        Port::Port1 => Register::OUTPUT_P1,
    }
}

/// The input register an input pin is read from.
pub fn io_input_register(pin: &TypeErasedPin) -> (r: Register)
    ensures
        pin.port == Port::Port0 ==> r == Register::INPUT_P0,
        pin.port == Port::Port1 ==> r == Register::INPUT_P1,
{
    match pin.port() {
        Port::Port0 => Register::INPUT_P0,
        Port::Port1 => Register::INPUT_P1,
    }
}

/// Whether an input pin reads high, given its port's input register value.
pub fn input_is_high(pin: &TypeErasedPin, value: u8) -> (high: bool)
    requires
        pin.wf(),
    ensures
        high == bit_is_set(value, pin.pin),
{
    let mask = pin.bit();
    let index = pin.pin;
    assert(((value & (1u8 << index)) != 0) == bit_is_set(value, index)) by (bit_vector)
        requires
            index < 8,
    ;
    value & mask != 0
}

/// The register that `set_pin_mode` reads and writes for `pin`.
pub fn pin_mode_register(pin: &TypeErasedPin) -> (r: Register)
    ensures
        r == spec_mode_register(pin.port),
{
    match pin.port() {
        Port::Port0 => Register::LEDMS_P0,
        Port::Port1 => Register::LEDMS_P1,
    }
}

/// The register that `set_io_direction` reads and writes for `pin`.
pub fn io_direction_register(pin: &TypeErasedPin) -> (r: Register)
    ensures
        r == spec_direction_register(pin.port),
{
    match pin.port() {
        Port::Port0 => Register::CONFIG_P0,
        Port::Port1 => Register::CONFIG_P1,
    }
}

/// The register that `set_io_state` reads and writes for `pin`.
pub fn io_state_register(pin: &TypeErasedPin) -> (r: Register)
    ensures
        r == spec_output_register(pin.port),
{
    match pin.port() {
        Port::Port0 => Register::OUTPUT_P0,
        Port::Port1 => Register::OUTPUT_P1,
    }
}

/// The value `set_pin_mode` writes back, given the register's `current` value:
/// the pin's bit is set for GPIO and cleared for LED mode.
pub fn pin_mode_update(pin: &TypeErasedPin, mode: PinMode, current: u8) -> (updated: u8)
    requires
        pin.wf(),
    ensures
        updated == with_bit(current, pin.pin, mode == PinMode::Gpio),
{
    match mode {
        PinMode::Gpio => current | pin.bit(),
        PinMode::Led => current & !pin.bit(),
    }
}

/// The value `set_io_direction` writes back: the pin's bit is set for an
/// input and cleared for an output.
pub fn io_direction_update(pin: &TypeErasedPin, direction: GpioDirection, current: u8) -> (updated:
    u8)
    requires
        pin.wf(),
    ensures
        updated == with_bit(current, pin.pin, direction == GpioDirection::Input),
{
    match direction {
        GpioDirection::Input => current | pin.bit(),
        GpioDirection::Output => current & !pin.bit(),
    }
}

/// The value `set_io_state` writes back: the pin's bit is set for a high
/// level and cleared for a low one.
pub fn io_state_update(pin: &TypeErasedPin, state: Level, current: u8) -> (updated: u8)
    requires
        pin.wf(),
    ensures
        updated == with_bit(current, pin.pin, state == Level::High),
{
    match state {
        Level::Low => current & !pin.bit(),
        Level::High => current | pin.bit(),
    }
}

/// Driving a pin to a level changes only that pin's bit of the output
/// register, and driving it to the same level again changes nothing more.
pub proof fn law_io_state_touches_only_its_pin(pin: TypeErasedPin, state: Level, current: u8, other: u8)
    requires
        pin.wf(),
        other < 8,
    ensures
        bit_is_set(with_bit(current, pin.pin, state == Level::High), pin.pin) == (state
            == Level::High),
        other != pin.pin ==> bit_is_set(with_bit(current, pin.pin, state == Level::High), other)
            == bit_is_set(current, other),
        with_bit(with_bit(current, pin.pin, state == Level::High), pin.pin, state == Level::High)
            == with_bit(current, pin.pin, state == Level::High),
{
    lemma_with_bit(current, pin.pin, state == Level::High, other);
    crate::pins::pin::lemma_with_bit_idempotent(current, pin.pin, state == Level::High);
}

/// Configuring a pin's mode or direction changes only that pin's bit.
pub proof fn law_configuration_touches_only_its_pin(pin: TypeErasedPin, set: bool, current: u8, other: u8)
    requires
        pin.wf(),
        other < 8,
    ensures
        bit_is_set(with_bit(current, pin.pin, set), pin.pin) == set,
        other != pin.pin ==> bit_is_set(with_bit(current, pin.pin, set), other) == bit_is_set(
            current,
            other,
        ),
{
    lemma_with_bit(current, pin.pin, set, other);
}

} // verus!
