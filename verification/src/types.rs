//! The errors, the addresses and the device types.

use crate::arbiter::Arbiter;
use crate::DEVICE_BASE_ADDRESS;
use vstd::prelude::*;

verus! {

/// All possible errors in this crate
#[derive(Debug)]
pub enum Error<E> {
    /// I²C bus error
    I2C(E),
    /// Could not acquire device. Maybe it is already acquired.
    CouldNotAcquireDevice,
}

/// Possible slave addresses
#[derive(Debug, Clone, Copy, PartialEq, Eq, Structural)]
pub enum SlaveAddr {
    /// Default slave address
    Default,
    /// Alternative slave address providing bit values for A2, A1 and A0
    /// Note: Some devices does not have all Ax pins, these should be set to false.
    Alternative(bool, bool, bool),
}

/// The value that an address pin at `level` contributes at bit `position`.
pub open spec fn pin(level: bool, position: u8) -> u8 {
    if level {
        1u8 << position
    } else {
        0u8
    }
}

impl SlaveAddr {
    /// The bus address that this selection stands for, where `default` is
    /// the address of the device with all address pins low: A2, A1 and A0
    /// are or-ed into bits 2, 1 and 0.
    pub open spec fn spec_addr(self, default: u8) -> u8 {
        match self {
            SlaveAddr::Default => default,
            SlaveAddr::Alternative(a2, a1, a0) => default | pin(a2, 2) | pin(a1, 1) | pin(a0, 0),
        }
    }

    /// The bus address that this selection stands for, where `default` is
    /// the address of the device with all address pins low.
    #[verifier::when_used_as_spec(spec_addr)]
    pub fn addr(self, default: u8) -> (address: u8)
        ensures
            address == self.spec_addr(default),
    {
        match self {
            SlaveAddr::Default => default,
            SlaveAddr::Alternative(a2, a1, a0) => {
                let b2: u8 = if a2 { 0b100 } else { 0 };
                let b1: u8 = if a1 { 0b010 } else { 0 };
                let b0: u8 = if a0 { 0b001 } else { 0 };
                assert(1u8 << 2u8 == 0b100u8 && 1u8 << 1u8 == 0b010u8 && 1u8 << 0u8 == 0b001u8)
                    by (bit_vector);
                default | b2 | b1 | b0
            },
        }
    }
}

impl Default for SlaveAddr {
    fn default() -> (address: SlaveAddr)
        ensures
            address == SlaveAddr::Default,
    {
        SlaveAddr::Default
    }
}

/// The default selection stands for the default address itself, and so
/// does the alternative selection with all pins low.
pub proof fn lemma_default_address_is_unmodified(default: u8)
    ensures
        SlaveAddr::Default.addr(default) == default,
        SlaveAddr::Alternative(false, false, false).addr(default) == default,
{
    assert(default | 0u8 | 0u8 | 0u8 == default) by (bit_vector);
}

/// On a default address whose three low bits are clear, as the family's
/// is, two pin settings stand for the same address only if they are the
/// same setting: the pins are read back from bits 2, 1 and 0 of the
/// address, and its other bits are those of the default address.
pub proof fn lemma_alternative_addresses_are_distinct(
    default: u8,
    first: (bool, bool, bool),
    second: (bool, bool, bool),
)
    requires
        default & 0b111 == 0,
    ensures
        ({
            let one: u8 = SlaveAddr::Alternative(first.0, first.1, first.2).addr(default);
            let other: u8 = SlaveAddr::Alternative(second.0, second.1, second.2).addr(default);
            &&& one == other ==> first == second
            &&& one & 0b100 != 0 <==> first.0
            &&& one & 0b010 != 0 <==> first.1
            &&& one & 0b001 != 0 <==> first.2
            &&& one & !0b111u8 == default
        }),
{
    lemma_pins_occupy_low_bits(default, first.0, first.1, first.2);
    lemma_pins_occupy_low_bits(default, second.0, second.1, second.2);
}

/// The devices of the family have eight addresses, one for each setting of
/// the pins: the base address with the pins in its three low bits.
pub proof fn lemma_family_addresses_are_distinct(
    first: (bool, bool, bool),
    second: (bool, bool, bool),
)
    ensures
        ({
            let one: u8 = SlaveAddr::Alternative(first.0, first.1, first.2).addr(
                DEVICE_BASE_ADDRESS,
            );
            let other: u8 = SlaveAddr::Alternative(second.0, second.1, second.2).addr(
                DEVICE_BASE_ADDRESS,
            );
            &&& one == other ==> first == second
            &&& DEVICE_BASE_ADDRESS <= one <= DEVICE_BASE_ADDRESS + 7
            &&& SlaveAddr::Default.addr(DEVICE_BASE_ADDRESS) == DEVICE_BASE_ADDRESS
        }),
{
    assert(DEVICE_BASE_ADDRESS & 0b111 == 0) by (bit_vector)
        requires
            DEVICE_BASE_ADDRESS == 0b111_0000,
    ;
    lemma_alternative_addresses_are_distinct(DEVICE_BASE_ADDRESS, first, second);
    let one: u8 = SlaveAddr::Alternative(first.0, first.1, first.2).addr(DEVICE_BASE_ADDRESS);
    assert(one & !0b111u8 == 0b111_0000u8 ==> 0b111_0000u8 <= one <= 0b111_0111u8)
        by (bit_vector);
}

/// The three pins land in bits 2, 1 and 0 and touch no other bit.
proof fn lemma_pins_occupy_low_bits(default: u8, a2: bool, a1: bool, a0: bool)
    requires
        default & 0b111 == 0,
    ensures
        SlaveAddr::Alternative(a2, a1, a0).addr(default) & 0b100 != 0 <==> a2,
        SlaveAddr::Alternative(a2, a1, a0).addr(default) & 0b010 != 0 <==> a1,
        SlaveAddr::Alternative(a2, a1, a0).addr(default) & 0b001 != 0 <==> a0,
        SlaveAddr::Alternative(a2, a1, a0).addr(default) & !0b111u8 == default,
{
    let b2: u8 = pin(a2, 2);
    let b1: u8 = pin(a1, 1);
    let b0: u8 = pin(a0, 0);
    assert(1u8 << 2u8 == 0b100u8 && 1u8 << 1u8 == 0b010u8 && 1u8 << 0u8 == 0b001u8)
        by (bit_vector);
    assert((b2 == 0 || b2 == 0b100) && (b1 == 0 || b1 == 0b010) && (b0 == 0 || b0 == 0b001));
    assert(default & 0b111 == 0 && (b2 == 0 || b2 == 0b100) && (b1 == 0 || b1 == 0b010) && (b0
        == 0 || b0 == 0b001) ==> {
        &&& ((default | b2 | b1 | b0) & 0b100 != 0 <==> b2 == 0b100)
        &&& ((default | b2 | b1 | b0) & 0b010 != 0 <==> b1 == 0b010)
        &&& ((default | b2 | b1 | b0) & 0b001 != 0 <==> b0 == 0b001)
        &&& (default | b2 | b1 | b0) & !0b111u8 == default
    }) by (bit_vector);
}

/// Device driver for T/PCA9548A
#[derive(Debug)]
pub struct Xca9548a<I2C> {
    pub(crate) data: Arbiter<I2C>,
}

/// Device driver for T/PCA9543A
#[derive(Debug)]
pub struct Xca9543a<I2C> {
    pub(crate) data: Arbiter<I2C>,
}

/// Device driver for T/PCA9545A
#[derive(Debug)]
pub struct Xca9545a<I2C> {
    pub(crate) data: Arbiter<I2C>,
}

} // verus!
