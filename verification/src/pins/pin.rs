//! Typed pin representation for the AW9523B GPIO expander pins.
//!
//! A [`Pin`] carries the I2C address of its expander, the expander port and
//! the bit number as const generic parameters, so a wrong mapping is a type
//! error. [`TypeErasedPin`] holds the same three values at run time.

use vstd::prelude::*;

verus! {

/// Which port of the AW9523B the pin belongs to.
#[derive(Debug, Copy, Clone, PartialEq, Eq, Structural)]
pub enum Port {
    Port0,
    Port1,
}

impl Port {
    /// The port's number, 0 or 1.
    pub open spec fn spec_index(self) -> u8 {
        match self {
            Port::Port0 => 0,
            Port::Port1 => 1,
        }
    }

    /// The port's number, 0 or 1.
    pub fn index(self) -> (i: u8)
        ensures
            i == self.spec_index(),
    {
        match self {
            Port::Port0 => 0,
            Port::Port1 => 1,
        }
    }

    /// The port with the given number.
    pub open spec fn spec_from_index(index: u8) -> Port {
        if index == 0 {
            Port::Port0
        } else {
            Port::Port1
        }
    }
}

/// True when bit `index` of `value` is one.
pub open spec fn bit_is_set(value: u8, index: u8) -> bool {
    (value >> index) & 1u8 == 1u8
}

/// `value` with bit `index` set to one when `set`, cleared otherwise.
pub open spec fn with_bit(value: u8, index: u8, set: bool) -> u8 {
    if set {
        value | (1u8 << index)
    } else {
        value & !(1u8 << index)
    }
}

/// Writing a bit changes that bit to the written value and no other bit.
pub proof fn lemma_with_bit(value: u8, index: u8, set: bool, other: u8)
    requires
        index < 8,
        other < 8,
    ensures
        bit_is_set(with_bit(value, index, set), index) == set,
        other != index ==> bit_is_set(with_bit(value, index, set), other) == bit_is_set(
            value,
            other,
        ),
{
    if set {
        assert(((value | (1u8 << index)) >> index) & 1u8 == 1u8) by (bit_vector)
            requires
                index < 8,
        ;
        assert(other != index ==> ((value | (1u8 << index)) >> other) & 1u8 == (value >> other)
            & 1u8) by (bit_vector)
            requires
                index < 8,
                other < 8,
        ;
    } else {
        assert(((value & !(1u8 << index)) >> index) & 1u8 == 0u8) by (bit_vector)
            requires
                index < 8,
        ;
        assert(other != index ==> ((value & !(1u8 << index)) >> other) & 1u8 == (value >> other)
            & 1u8) by (bit_vector)
            requires
                index < 8,
                other < 8,
        ;
    }
}

/// Writing the same bit value twice is the same as writing it once.
pub proof fn lemma_with_bit_idempotent(value: u8, index: u8, set: bool)
    requires
        index < 8,
    ensures
        with_bit(with_bit(value, index, set), index, set) == with_bit(value, index, set),
{
    if set {
        assert((value | (1u8 << index)) | (1u8 << index) == value | (1u8 << index))
            by (bit_vector);
    } else {
        assert((value & !(1u8 << index)) & !(1u8 << index) == value & !(1u8 << index))
            by (bit_vector);
    }
}

/// The single-bit mask of expander pin `pin` (0 to 7).
pub fn pin_bit(pin: u8) -> (bit: u8)
    requires
        pin < 8,
    ensures
        bit == 1u8 << pin,
{
    1u8 << pin
}

/// An expander pin whose address, port and bit number are known at run time.
#[derive(Debug, Copy, Clone, PartialEq, Eq, Structural)]
pub struct TypeErasedPin {
    pub address: u8,
    pub port: Port,
    pub pin: u8,
}

impl TypeErasedPin {
    /// A pin number names one of the eight bits of a port.
    pub open spec fn wf(self) -> bool {
        self.pin < 8
    }

    pub fn address(&self) -> (a: u8)
        ensures
            a == self.address,
    {
        self.address
    }

    pub fn port(&self) -> (p: Port)
        ensures
            p == self.port,
    {
        self.port
    }

    pub fn pin(&self) -> (p: u8)
        ensures
            p == self.pin,
    {
        self.pin
    }

    /// The pin's mask within its port register.
    pub fn bit(&self) -> (b: u8)
        requires
            self.wf(),
        ensures
            b == 1u8 << self.pin,
    {
        pin_bit(self.pin)
    }
}

/// A compile-time typed I2C expander pin.
///
/// `ADDRESS` is the expander's I2C address, `PORT` the port number (0 or 1)
/// and `PIN` the bit number (0 to 7).
pub struct Pin<const ADDRESS: u8, const PORT: u8, const PIN: u8> {}

impl<const ADDRESS: u8, const PORT: u8, const PIN: u8> Pin<ADDRESS, PORT, PIN> {
    /// The parameters name a port and a bit that exist.
    pub open spec fn wf() -> bool {
        PORT < 2 && PIN < 8
    }

    /// The handle of the pin. The [`crate::pins::Pins`] table holds one
    /// for each of the badge's expander pins.
    pub fn new() -> (p: Self)
        ensures
            p == (Pin::<ADDRESS, PORT, PIN> {  }),
    {
        Pin {  }
    }

    pub fn address(&self) -> (a: u8)
        ensures
            a == ADDRESS,
    {
        ADDRESS
    }

    pub fn port(&self) -> (p: Port)
        ensures
            p == Port::spec_from_index(PORT),
    {
        if PORT == 0 {
            Port::Port0
        } else {
            Port::Port1
        }
    }

    pub fn pin(&self) -> (p: u8)
        ensures
            p == PIN,
    {
        PIN
    }

    /// The pin's mask within its port register.
    pub fn bit(&self) -> (b: u8)
        requires
            Self::wf(),
        ensures
            b == 1u8 << PIN,
    {
        pin_bit(PIN)
    }

    /// The same pin with its address, port and bit held at run time.
    pub fn erase(self) -> (p: TypeErasedPin)
        ensures
            p.address == ADDRESS,
            p.port == Port::spec_from_index(PORT),
            p.pin == PIN,
    {
        TypeErasedPin { address: ADDRESS, port: self.port(), pin: PIN }
    }
}

} // verus!
