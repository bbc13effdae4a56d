//! TCA9548A I2C multiplexer.
//!
//! A [`Bus`] names one branch of the multiplexer. Before every transaction on
//! that branch the caller writes the branch's select byte to the mux, then
//! performs the transaction, all while holding the shared bus.

use vstd::prelude::*;

verus! {

/// The mux's I2C address.
pub const MUX_ADDRESS: u8 = 0x77;

/// One of the eight branches of the TCA9548A I2C multiplexer.
#[derive(Debug, Copy, Clone, PartialEq, Eq, Structural)]
pub enum BusNumber {
    Bus0,
    Bus1,
    Bus2,
    Bus3,
    Bus4,
    Bus5,
    Bus6,
    Bus7,
}

impl BusNumber {
    /// The branch's number, 0 to 7.
    pub open spec fn spec_index(self) -> u8 {
        match self {
            BusNumber::Bus0 => 0,
            BusNumber::Bus1 => 1,
            BusNumber::Bus2 => 2,
            BusNumber::Bus3 => 3,
            BusNumber::Bus4 => 4,
            BusNumber::Bus5 => 5,
            BusNumber::Bus6 => 6,
            BusNumber::Bus7 => 7,
        }
    }

    /// The branch with the given number.
    pub open spec fn spec_from_index(index: u8) -> BusNumber {
        if index == 0 {
            BusNumber::Bus0
        } else if index == 1 {
            BusNumber::Bus1
        } else if index == 2 {
            BusNumber::Bus2
        } else if index == 3 {
            BusNumber::Bus3
        } else if index == 4 {
            BusNumber::Bus4
        } else if index == 5 {
            BusNumber::Bus5
        } else if index == 6 {
            BusNumber::Bus6
        } else {
            BusNumber::Bus7
        }
    }

    /// The branch with the given number.
    pub fn from_index(index: u8) -> (b: BusNumber)
        requires
            index < 8,
        ensures
            b == Self::spec_from_index(index),
            b.spec_index() == index,
    {
        if index == 0 {
            BusNumber::Bus0
        } else if index == 1 {
            BusNumber::Bus1
        } else if index == 2 {
            BusNumber::Bus2
        } else if index == 3 {
            BusNumber::Bus3
        } else if index == 4 {
            BusNumber::Bus4
        } else if index == 5 {
            BusNumber::Bus5
        } else if index == 6 {
            BusNumber::Bus6
        } else {
            BusNumber::Bus7
        }
    }

    /// The value written to the mux's channel-select register to enable
    /// exactly this branch.
    pub fn select_mask(self) -> (mask: u8)
        ensures
            mask == 1u8 << self.spec_index(),
    {
        let mask: u8 = match self {
            BusNumber::Bus0 => 0b00000001,
            BusNumber::Bus1 => 0b00000010,
            BusNumber::Bus2 => 0b00000100,
            BusNumber::Bus3 => 0b00001000,
            BusNumber::Bus4 => 0b00010000,
            BusNumber::Bus5 => 0b00100000,
            BusNumber::Bus6 => 0b01000000,
            BusNumber::Bus7 => 0b10000000,
        };
        assert(1u8 << 0u8 == 1u8 && 1u8 << 1u8 == 2u8 && 1u8 << 2u8 == 4u8 && 1u8 << 3u8 == 8u8
            && 1u8 << 4u8 == 16u8 && 1u8 << 5u8 == 32u8 && 1u8 << 6u8 == 64u8 && 1u8 << 7u8
            == 128u8) by (bit_vector);
        mask
    }
}

/// Distinct branches have distinct select masks.
pub proof fn law_select_masks_are_one_hot(a: BusNumber, b: BusNumber)
    ensures
        a != b ==> (1u8 << a.spec_index()) != (1u8 << b.spec_index()),
{
    let i = a.spec_index();
    let j = b.spec_index();
    assert(i < 8 && j < 8);
    assert(i < 8 && j < 8 && i != j ==> (1u8 << i) != (1u8 << j)) by (bit_vector);
}

/// A handle on branch `CHANNEL` (0 to 7) of the multiplexer, over a shared
/// parent bus handle of type `BUS`.
pub struct Bus<BUS, const CHANNEL: u8> {
    parent_bus: BUS,
    mux_address: u8,
}

impl<BUS, const CHANNEL: u8> Bus<BUS, CHANNEL> {
    pub closed spec fn spec_parent(&self) -> BUS {
        self.parent_bus
    }

    pub closed spec fn spec_mux_address(&self) -> u8 {
        self.mux_address
    }

    /// A handle on branch `CHANNEL` of the mux at its default address 0x77.
    pub fn new(bus: BUS) -> (b: Self)
        ensures
            b.spec_parent() == bus,
            b.spec_mux_address() == MUX_ADDRESS,
    {
        Bus { parent_bus: bus, mux_address: MUX_ADDRESS }
    }

    /// The shared parent bus.
    pub fn parent(&self) -> (p: &BUS)
        ensures
            *p == self.spec_parent(),
    {
        &self.parent_bus
    }

    /// The mux's I2C address.
    pub fn mux_address(&self) -> (a: u8)
        ensures
            a == self.spec_mux_address(),
    {
        self.mux_address
    }

    /// The branch this handle selects.
    pub fn bus_number(&self) -> (n: BusNumber)
        requires
            CHANNEL < 8,
        ensures
            n.spec_index() == CHANNEL,
    {
        BusNumber::from_index(CHANNEL)
    }

    /// The write that selects this branch: the mux's address and the one
    /// byte of its channel-select register. Every transaction on this handle
    /// is preceded by this write.
    pub fn select_command(&self) -> (cmd: (u8, [u8; 1]))
        requires
            CHANNEL < 8,
        ensures
            cmd.0 == self.spec_mux_address(),
            cmd.1@ == seq![1u8 << CHANNEL],
    {
        let n = self.bus_number();
        (self.mux_address, [n.select_mask()])
    }
}

} // verus!
