//! The handles that a device is split into, one for each of its channels.

use crate::bus::{refused, routed, select_failed};
use crate::device_impl::DoOnAcquired;
use crate::register::Variant;
use crate::switch::Command;
use crate::types::{Error, Xca9543a, Xca9545a, Xca9548a};
use core::marker::PhantomData;
use vstd::prelude::*;

verus! {

/// Slave I2C device
///
/// A handle on one channel of a device of type `DEV`. It owns nothing of
/// the device: every transfer through it is begun on the device itself,
/// which selects the channel of the handle first where it has to.
#[derive(Debug)]
pub struct I2cSlave<DEV, I2C>(PhantomData<DEV>, u8, PhantomData<I2C>);

/// The channel masks of the handles of a device with `count` channels, in
/// the order of the channels: handle `i` addresses channel `i` alone.
pub open spec fn channel_masks(count: nat) -> Seq<u8> {
    Seq::new(count, |i: int| 1u8 << (i as u8))
}

impl<DEV, I2C> View for I2cSlave<DEV, I2C> {
    type V = u8;

    /// The channel mask that the handle addresses.
    closed spec fn view(&self) -> u8 {
        self.1
    }
}

impl<DEV, I2C> I2cSlave<DEV, I2C> {
    pub(crate) fn new(mask: u8) -> (slave: Self)
        ensures
            slave@ == mask,
    {
        I2cSlave(PhantomData, mask, PhantomData)
    }

    /// The channel mask that the handle addresses.
    pub fn channel_mask(&self) -> (mask: u8)
        ensures
            mask == self@,
    {
        self.1
    }
}

impl<DEV: DoOnAcquired<I2C>, I2C> I2cSlave<DEV, I2C> {
    /// Carries out `transfer` with a slave behind the channel of this
    /// handle on the device `dev`, whatever the transfer is: a read, a
    /// write, a write followed by a read, or a sequence of them. The
    /// channel is selected first with `write`, once for the whole transfer,
    /// unless the device has exactly this channel selected already.
    ///
    /// If the select write fails the transfer does not take place, the bus
    /// error is passed on and the channels are taken to be as before. Else
    /// the transfer is lent the bus once and what it returns is the
    /// answer, a bus error passed on. A device that an operation holds
    /// refuses with [`Error::CouldNotAcquireDevice`] and leaves the bus
    /// alone.
    pub fn transaction<E, W, T>(&self, dev: &mut DEV, write: W, transfer: T) -> (reply: Result<
        (),
        Error<E>,
    >) where W: FnOnce(&mut I2C, u8, u8) -> Result<(), E>, T: FnOnce(&mut I2C) -> Result<(), E>
        requires
            old(dev)@.idle() && self@ == old(dev)@.selected ==> forall|bus: &mut I2C|
                *bus == old(dev).owned_bus() ==> call_requires(transfer, (bus,)),
            old(dev)@.idle() && self@ != old(dev)@.selected ==> forall|bus: &mut I2C|
                *bus == old(dev).owned_bus() ==> call_requires(
                    write,
                    (bus, old(dev)@.address, self@),
                ),
            old(dev)@.idle() && self@ != old(dev)@.selected ==> forall|
                first: &mut I2C,
                written: Result<(), E>,
                second: &mut I2C,
            |
                *first == old(dev).owned_bus()
                    && #[trigger] call_ensures(write, (first, old(dev)@.address, self@), written)
                    && written is Ok
                    && *second == *final(first)
                    ==> #[trigger] call_requires(transfer, (second,)),
        ensures
            !old(dev)@.idle() ==> final(dev).owned_bus() == old(dev).owned_bus()
                && refused(old(dev)@, final(dev)@, reply),
            old(dev)@.idle() && self@ == old(dev)@.selected ==> exists|
                bus: &mut I2C,
                outcome: Result<(), E>,
            |
                *bus == old(dev).owned_bus()
                    && #[trigger] call_ensures(transfer, (bus,), outcome)
                    && *final(bus) == final(dev).owned_bus()
                    && routed(old(dev)@, self@, outcome, final(dev)@, reply),
            old(dev)@.idle() && self@ != old(dev)@.selected ==> exists|
                first: &mut I2C,
                written: Result<(), E>,
            |
                *first == old(dev).owned_bus()
                    && #[trigger] call_ensures(write, (first, old(dev)@.address, self@), written)
                    && (written is Err ==> *final(first) == final(dev).owned_bus()
                        && select_failed(old(dev)@, self@, written, final(dev)@, reply))
                    && (written is Ok ==> exists|second: &mut I2C, outcome: Result<(), E>|
                        *second == *final(first)
                            && #[trigger] call_ensures(transfer, (second,), outcome)
                            && *final(second) == final(dev).owned_bus()
                            && routed(old(dev)@, self@, outcome, final(dev)@, reply)),
    {
        let first = match dev.do_on_acquired::<E>(Some(self.channel_mask())) {
            Ok(first) => first,
            Err(e) => return Err(e),
        };
        if let Command::Write { address, byte } = first {
            let written = write(dev.i2c(), address, byte);
            if let Err(e) = dev.completed(written) {
                return Err(e);
            }
        }
        let outcome = transfer(dev.i2c());
        match dev.completed(outcome) {
            Ok(_) => Ok(()),
            Err(e) => Err(e),
        }
    }

    /// Begins a transfer behind the channel of this handle on the device
    /// `dev` and answers with its first command: the select write unless
    /// the device has exactly this channel selected already, else the
    /// transfer.
    pub fn begin_transaction<E>(&self, dev: &mut DEV) -> (reply: Result<Command, Error<E>>)
        ensures
            final(dev).owned_bus() == old(dev).owned_bus(),
            final(dev)@ == old(dev)@.acquire(old(dev)@.routing(Some(self@))),
            reply == old(dev)@.granted::<E>(final(dev)@),
    {
        dev.do_on_acquired(Some(self.channel_mask()))
    }
}

/// Slave I2C devices
#[derive(Debug)]
pub struct Parts<DEV, I2C> {
    /// Slave I2C device
    pub i2c0: I2cSlave<DEV, I2C>,
    /// Slave I2C device
    pub i2c1: I2cSlave<DEV, I2C>,
    /// Slave I2C device
    pub i2c2: I2cSlave<DEV, I2C>,
    /// Slave I2C device
    pub i2c3: I2cSlave<DEV, I2C>,
    /// Slave I2C device
    pub i2c4: I2cSlave<DEV, I2C>,
    /// Slave I2C device
    pub i2c5: I2cSlave<DEV, I2C>,
    /// Slave I2C device
    pub i2c6: I2cSlave<DEV, I2C>,
    /// Slave I2C device
    pub i2c7: I2cSlave<DEV, I2C>,
}

impl<DEV, I2C> Parts<DEV, I2C> {
    /// The channel masks of the handles, in the order of the fields.
    pub open spec fn masks(&self) -> Seq<u8> {
        seq![
            self.i2c0@,
            self.i2c1@,
            self.i2c2@,
            self.i2c3@,
            self.i2c4@,
            self.i2c5@,
            self.i2c6@,
            self.i2c7@,
        ]
    }
}

impl<I2C> Parts<Xca9548a<I2C>, I2C> {
    /// The handles of the eight channels.
    pub fn new() -> (parts: Self)
        ensures
            parts.masks() == channel_masks(Variant::Xca9548a.channels() as nat),
    {
        let parts = Parts {
            i2c0: I2cSlave::new(0x01),
            i2c1: I2cSlave::new(0x02),
            i2c2: I2cSlave::new(0x04),
            i2c3: I2cSlave::new(0x08),
            i2c4: I2cSlave::new(0x10),
            i2c5: I2cSlave::new(0x20),
            i2c6: I2cSlave::new(0x40),
            i2c7: I2cSlave::new(0x80),
        };
        proof {
            lemma_channel_masks();
            assert(parts.masks() =~= channel_masks(8));
        }
        parts
    }
}

/// Slave I2C devices
#[derive(Debug)]
pub struct Parts2<DEV, I2C> {
    /// Slave I2C device
    pub i2c0: I2cSlave<DEV, I2C>,
    /// Slave I2C device
    pub i2c1: I2cSlave<DEV, I2C>,
}

impl<DEV, I2C> Parts2<DEV, I2C> {
    /// The channel masks of the handles, in the order of the fields.
    pub open spec fn masks(&self) -> Seq<u8> {
        seq![self.i2c0@, self.i2c1@]
    }
}

impl<I2C> Parts2<Xca9543a<I2C>, I2C> {
    /// The handles of the two channels.
    pub fn new() -> (parts: Self)
        ensures
            parts.masks() == channel_masks(Variant::Xca9543a.channels() as nat),
    {
        let parts = Parts2 { i2c0: I2cSlave::new(0x01), i2c1: I2cSlave::new(0x02) };
        proof {
            lemma_channel_masks();
            assert(parts.masks() =~= channel_masks(2));
        }
        parts
    }
}

/// Slave I2C devices
#[derive(Debug)]
pub struct Parts4<DEV, I2C> {
    /// Slave I2C device
    pub i2c0: I2cSlave<DEV, I2C>,
    /// Slave I2C device
    pub i2c1: I2cSlave<DEV, I2C>,
    /// Slave I2C device
    pub i2c2: I2cSlave<DEV, I2C>,
    /// Slave I2C device
    pub i2c3: I2cSlave<DEV, I2C>,
}

impl<DEV, I2C> Parts4<DEV, I2C> {
    /// The channel masks of the handles, in the order of the fields.
    pub open spec fn masks(&self) -> Seq<u8> {
        seq![self.i2c0@, self.i2c1@, self.i2c2@, self.i2c3@]
    }
}

impl<I2C> Parts4<Xca9545a<I2C>, I2C> {
    /// The handles of the four channels.
    pub fn new() -> (parts: Self)
        ensures
            parts.masks() == channel_masks(Variant::Xca9545a.channels() as nat),
    {
        let parts = Parts4 {
            i2c0: I2cSlave::new(0x01),
            i2c1: I2cSlave::new(0x02),
            i2c2: I2cSlave::new(0x04),
            i2c3: I2cSlave::new(0x08),
        };
        proof {
            lemma_channel_masks();
            assert(parts.masks() =~= channel_masks(4));
        }
        parts
    }
}

/// The handles of a device address the channels that the device has: the
/// mask of each is written as it is by a select, and no two handles have
/// the same mask.
pub proof fn lemma_handles_address_existing_channels(variant: Variant, i: int, j: int)
    requires
        0 <= i < variant.channels(),
        0 <= j < variant.channels(),
    ensures
        variant.select(channel_masks(variant.channels() as nat)[i]) == channel_masks(
            variant.channels() as nat,
        )[i],
        channel_masks(variant.channels() as nat)[i] != 0,
        channel_masks(variant.channels() as nat)[i] == channel_masks(variant.channels() as nat)[j]
            ==> i == j,
{
    let a: u8 = i as u8;
    let b: u8 = j as u8;
    assert(a < 8 ==> (1u8 << a) & 0xffu8 == 1u8 << a) by (bit_vector);
    assert(a < 4 ==> (1u8 << a) & 0x0fu8 == 1u8 << a) by (bit_vector);
    assert(a < 2 ==> (1u8 << a) & 0x03u8 == 1u8 << a) by (bit_vector);
    assert(a < 8 ==> 1u8 << a != 0) by (bit_vector);
    assert(a < 8 && b < 8 && 1u8 << a == 1u8 << b ==> a == b) by (bit_vector);
}

/// The masks of the eight channels, one bit each.
pub proof fn lemma_channel_masks()
    ensures
        channel_masks(8) == seq![0x01u8, 0x02u8, 0x04u8, 0x08u8, 0x10u8, 0x20u8, 0x40u8, 0x80u8],
        forall|count: nat, i: int|
            0 <= i < count <= 8 ==> #[trigger] channel_masks(count)[i] == channel_masks(8)[i],
{
    assert(1u8 << 0u8 == 0x01u8 && 1u8 << 1u8 == 0x02u8 && 1u8 << 2u8 == 0x04u8 && 1u8 << 3u8
        == 0x08u8 && 1u8 << 4u8 == 0x10u8 && 1u8 << 5u8 == 0x20u8 && 1u8 << 6u8 == 0x40u8 && 1u8
        << 7u8 == 0x80u8) by (bit_vector);
    assert(channel_masks(8) =~= seq![
        0x01u8,
        0x02u8,
        0x04u8,
        0x08u8,
        0x10u8,
        0x20u8,
        0x40u8,
        0x80u8,
    ]);
}

} // verus!
