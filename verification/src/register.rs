//! The control register of the switches: one byte, whose low bits enable the
//! channels and, on the devices with interrupt lines, whose high nibble
//! reports the interrupt inputs.

use vstd::prelude::*;

verus! {

/// Position of the first interrupt flag in the control byte.
pub const INTERRUPT_SHIFT: u8 = 4;

/// The members of the device family.
#[derive(Debug, Clone, Copy, PartialEq, Eq, Structural)]
pub enum Variant {
    /// T/PCA9548A: eight channels, no interrupt lines.
    Xca9548a,
    /// T/PCA9545A: four channels, each with an interrupt line.
    Xca9545a,
    /// T/PCA9543A: two channels, each with an interrupt line.
    Xca9543a,
}

impl Variant {
    /// Number of downstream channels.
    pub open spec fn spec_channels(self) -> u8 {
        match self {
            Variant::Xca9548a => 8,
            Variant::Xca9545a => 4,
            Variant::Xca9543a => 2,
        }
    }

    /// The bits of the control byte that enable a channel.
    pub open spec fn spec_valid_mask(self) -> u8 {
        match self {
            Variant::Xca9548a => 0xff,
            Variant::Xca9545a => 0x0f,
            Variant::Xca9543a => 0x03,
        }
    }

    /// Whether the control byte reports interrupt inputs.
    pub open spec fn spec_has_interrupts(self) -> bool {
        self != Variant::Xca9548a
    }

    /// The control byte written for a requested channel mask: bits that
    /// stand for no channel are dropped.
    pub open spec fn spec_select(self, requested: u8) -> u8 {
        requested & self.valid_mask()
    }

    /// The enabled channels that a control byte read from the device reports.
    pub open spec fn spec_channel_status(self, raw: u8) -> u8 {
        raw & self.valid_mask()
    }

    /// The interrupt inputs that a control byte read from the device
    /// reports, as read: bit `i` is the level of the line of channel `i`.
    pub open spec fn spec_interrupt_status(self, raw: u8) -> u8 {
        (raw >> INTERRUPT_SHIFT) & self.valid_mask()
    }

    /// Number of downstream channels.
    #[verifier::when_used_as_spec(spec_channels)]
    pub fn channels(self) -> (count: u8)
        ensures
            count == self.spec_channels(),
    {
        match self {
            Variant::Xca9548a => 8,
            Variant::Xca9545a => 4,
            Variant::Xca9543a => 2,
        }
    }

    /// The bits of the control byte that enable a channel.
    #[verifier::when_used_as_spec(spec_valid_mask)]
    pub fn valid_mask(self) -> (mask: u8)
        ensures
            mask == self.spec_valid_mask(),
    {
        match self {
            Variant::Xca9548a => 0xff,
            Variant::Xca9545a => 0x0f,
            Variant::Xca9543a => 0x03,
        }
    }

    /// Whether the control byte reports interrupt inputs.
    #[verifier::when_used_as_spec(spec_has_interrupts)]
    pub fn has_interrupts(self) -> (capable: bool)
        ensures
            capable == self.spec_has_interrupts(),
    {
        match self {
            Variant::Xca9548a => false,
            _ => true,
        }
    }

    /// The control byte to write in order to enable the channels in
    /// `requested`. Bits beyond the last channel are ignored.
    #[verifier::when_used_as_spec(spec_select)]
    pub fn select(self, requested: u8) -> (effective: u8)
        ensures
            effective == self.spec_select(requested),
    {
        requested & self.valid_mask()
    }

    /// Decodes the enabled channels from the control byte `raw`.
    #[verifier::when_used_as_spec(spec_channel_status)]
    pub fn channel_status(self, raw: u8) -> (status: u8)
        ensures
            status == self.spec_channel_status(raw),
    {
        raw & self.valid_mask()
    }

    /// Decodes the interrupt inputs from the control byte `raw` of a device
    /// that has interrupt lines.
    #[verifier::when_used_as_spec(spec_interrupt_status)]
    pub fn interrupt_status(self, raw: u8) -> (status: u8)
        requires
            self.has_interrupts(),
        ensures
            status == self.spec_interrupt_status(raw),
    {
        (raw >> INTERRUPT_SHIFT) & self.valid_mask()
    }
}

/// The valid mask holds exactly the bits of the channels that exist: bit `i`
/// is set if and only if `i` is below the channel count.
pub proof fn lemma_valid_mask_is_the_channels(variant: Variant, i: u8)
    requires
        i < 8,
    ensures
        (variant.valid_mask() & (1u8 << i) != 0) <==> i < variant.channels(),
{
    assert(i < 8 ==> ((0xffu8 & (1u8 << i) != 0) <==> i < 8)) by (bit_vector);
    assert(i < 8 ==> ((0x0fu8 & (1u8 << i) != 0) <==> i < 4)) by (bit_vector);
    assert(i < 8 ==> ((0x03u8 & (1u8 << i) != 0) <==> i < 2)) by (bit_vector);
}

/// Selecting never fails and never writes a bit outside the valid mask; a
/// mask within the valid mask is written as it is, and the eight-channel
/// device writes every mask as it is.
pub proof fn lemma_select_truncates(variant: Variant, requested: u8)
    ensures
        variant.select(requested) & !variant.valid_mask() == 0,
        variant.select(requested) <= variant.valid_mask(),
        requested & !variant.valid_mask() == 0 ==> variant.select(requested) == requested,
        variant.select(variant.select(requested)) == variant.select(requested),
        Variant::Xca9548a.select(requested) == requested,
{
    let valid: u8 = variant.valid_mask();
    assert((requested & valid) & !valid == 0) by (bit_vector);
    assert(requested & valid <= valid) by (bit_vector);
    assert(requested & !valid == 0 ==> requested & valid == requested) by (bit_vector);
    assert((requested & valid) & valid == requested & valid) by (bit_vector);
    assert(requested & 0xffu8 == requested) by (bit_vector);
}

/// A device whose control register holds the byte that a select wrote
/// reports exactly the effective mask as its channel status; on the
/// eight-channel device that is the requested mask itself.
pub proof fn lemma_status_round_trip(variant: Variant, requested: u8)
    ensures
        variant.channel_status(variant.select(requested)) == requested & variant.valid_mask(),
        Variant::Xca9548a.channel_status(Variant::Xca9548a.select(requested)) == requested,
{
    lemma_select_truncates(variant, requested);
    assert((requested & 0xffu8) & 0xffu8 == requested) by (bit_vector);
}

} // verus!
