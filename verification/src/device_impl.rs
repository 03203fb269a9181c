//! The devices: what is kept of each, and the operations on them.

use crate::arbiter::Arbiter;
use crate::bus::{forwarded, passed_on, refused, selected, status_read};
use crate::parts::{channel_masks, Parts, Parts2, Parts4};
use crate::private::Sealed;
use crate::register::Variant;
use crate::switch::{Command, SwitchState};
use crate::types::{Error, SlaveAddr, Xca9543a, Xca9545a, Xca9548a};
use crate::DEVICE_BASE_ADDRESS;
use vstd::prelude::*;

verus! {

/// The record of one device: the bus it is reached through, its address,
/// and the channel mask that the device is known to hold.
#[derive(Debug)]
pub struct Xca954xaData<I2C> {
    /// The concrete I²C device implementation.
    pub(crate) i2c: I2C,
    /// The I²C device address.
    pub(crate) address: u8,
    pub(crate) selected_channel_mask: u8,
}

impl<I2C> Xca954xaData<I2C> {
    /// The bus that the record owns.
    pub closed spec fn bus(&self) -> I2C {
        self.i2c
    }

    /// Bus address of the device.
    pub closed spec fn spec_address(&self) -> u8 {
        self.address
    }

    /// The channel mask recorded for the device.
    pub closed spec fn spec_selected_channel_mask(&self) -> u8 {
        self.selected_channel_mask
    }

    /// The record of a device at `address` on the bus `i2c` that has all
    /// its channels disabled, as after power-on.
    pub fn new(i2c: I2C, address: u8) -> (data: Self)
        ensures
            data.bus() == i2c,
            data.address() == address,
            data.selected_channel_mask() == 0,
    {
        Xca954xaData { i2c, address, selected_channel_mask: 0 }
    }

    /// Gives up the record and hands back the bus.
    pub fn into_bus(self) -> (i2c: I2C)
        ensures
            i2c == self.bus(),
    {
        self.i2c
    }

    /// Bus address of the device.
    #[verifier::when_used_as_spec(spec_address)]
    pub fn address(&self) -> (address: u8)
        ensures
            address == self.spec_address(),
    {
        self.address
    }

    /// The channel mask recorded for the device.
    #[verifier::when_used_as_spec(spec_selected_channel_mask)]
    pub fn selected_channel_mask(&self) -> (mask: u8)
        ensures
            mask == self.spec_selected_channel_mask(),
    {
        self.selected_channel_mask
    }

    /// The bus, to carry out a command on.
    pub fn i2c(&mut self) -> (bus: &mut I2C)
        ensures
            *bus == old(self).bus(),
            final(self).bus() == *final(bus),
            final(self).address() == old(self).address(),
            final(self).selected_channel_mask() == old(self).selected_channel_mask(),
    {
        &mut self.i2c
    }
}

/// Records which channels a device has enabled.
pub trait SelectChannels: Sealed {
    /// The channel mask recorded for the device.
    spec fn selected_mask(&self) -> u8;

    /// Takes the outcome `written` of writing the control byte `mask` to
    /// the device. A success is recorded. A failure is passed on and
    /// changes nothing: the write is not taken to have had an effect.
    fn select_channels<E>(&mut self, mask: u8, written: Result<(), E>) -> (reply: Result<
        (),
        Error<E>,
    >)
        ensures
            reply == passed_on(written),
            final(self).selected_mask() == (if written is Ok {
                mask
            } else {
                old(self).selected_mask()
            }),
    ;
}

impl<I2C> SelectChannels for Xca954xaData<I2C> {
    open spec fn selected_mask(&self) -> u8 {
        self.selected_channel_mask()
    }

    fn select_channels<E>(&mut self, mask: u8, written: Result<(), E>) -> (reply: Result<
        (),
        Error<E>,
    >)
        ensures
            final(self).bus() == old(self).bus(),
            final(self).address() == old(self).address(),
    {
        match written {
            Ok(_) => {
                self.selected_channel_mask = mask;
                Ok(())
            },
            Err(e) => Err(Error::I2C(e)),
        }
    }
}

/// The devices that handles work on.
///
/// An operation that is begun holds the device until its last command has
/// completed; what is begun while the device is held is refused with
/// [`Error::CouldNotAcquireDevice`] and changes nothing.
pub trait DoOnAcquired<I2C>: Sealed + View<V = SwitchState> {
    /// The member of the family that the devices of this type are.
    spec fn variant() -> Variant;

    /// The bus that the device owns.
    spec fn owned_bus(&self) -> I2C;

    /// What the driver knows of the device.
    fn state(&self) -> (state: SwitchState)
        ensures
            state == self@,
    ;

    /// Acquires the device for a transfer that needs the channels `route`
    /// selected, or for one that goes to whatever is selected if there is
    /// no `route`, and answers with its first command: the select write if
    /// there is a `route` and another mask is recorded, else the transfer.
    fn do_on_acquired<E>(&mut self, route: Option<u8>) -> (reply: Result<Command, Error<E>>)
        ensures
            final(self).owned_bus() == old(self).owned_bus(),
            final(self)@ == old(self)@.acquire(old(self)@.routing(route)),
            reply == old(self)@.granted::<E>(final(self)@),
    ;

    /// Takes the report that the write or transfer on the bus completed
    /// with `outcome`, and answers with the next command of the operation,
    /// if it has one. A bus error ends the operation and is passed on. A
    /// successful select write is recorded, a failed one is not. Where no
    /// write or transfer is on the bus nothing changes, and a success is
    /// refused with [`Error::CouldNotAcquireDevice`].
    fn completed<E>(&mut self, outcome: Result<(), E>) -> (reply: Result<
        Option<Command>,
        Error<E>,
    >)
        ensures
            final(self).owned_bus() == old(self).owned_bus(),
            final(self)@ == old(self)@.completed(outcome is Ok),
            reply == old(self)@.completed_reply(outcome),
    ;

    /// Takes the report that the read of the control byte completed with
    /// `outcome`, and answers with the status that the operation asked
    /// for. A bus error is passed on. Either way the operation has ended.
    /// Where no read is on the bus nothing changes, and a byte is refused
    /// with [`Error::CouldNotAcquireDevice`].
    fn received<E>(&mut self, outcome: Result<u8, E>) -> (reply: Result<u8, Error<E>>)
        ensures
            final(self).owned_bus() == old(self).owned_bus(),
            final(self)@ == old(self)@.received(),
            reply == old(self)@.received_reply(Self::variant(), outcome),
    ;

    /// Gives up the operation in flight, if any, and releases the device.
    /// The recorded mask stays as it is.
    fn abandon(&mut self)
        ensures
            final(self).owned_bus() == old(self).owned_bus(),
            final(self)@ == old(self)@.abandoned(),
    ;

    /// The bus, to carry out a command on.
    fn i2c(&mut self) -> (bus: &mut I2C)
        ensures
            *bus == old(self).owned_bus(),
            final(self).owned_bus() == *final(bus),
            final(self)@ == old(self)@,
    ;
}

impl<I2C> View for Xca9548a<I2C> {
    type V = SwitchState;

    closed spec fn view(&self) -> SwitchState {
        self.data@
    }
}

impl<I2C> Xca9548a<I2C> {
    /// Create new instance of the device
    pub fn new(i2c: I2C, address: SlaveAddr) -> (device: Self)
        ensures
            device.owned_bus() == i2c,
            device@ == SwitchState::initial(address.addr(DEVICE_BASE_ADDRESS)),
    {
        let data = Xca954xaData::new(i2c, address.addr(DEVICE_BASE_ADDRESS));
        Xca9548a { data: Arbiter::new(data) }
    }

    /// Destroy driver instance, return I²C bus instance.
    pub fn destroy(self) -> (i2c: I2C)
        ensures
            i2c == self.owned_bus(),
    {
        self.data.into_inner().into_bus()
    }

    /// Split device into individual I2C devices
    ///
    /// It is not possible to know the compatibilities between channels
    /// so when talking to a split I2C device, only its channel
    /// will be selected.
    pub fn split(&self) -> (parts: Parts<Xca9548a<I2C>, I2C>)
        ensures
            parts.masks() == channel_masks(Variant::Xca9548a.channels() as nat),
    {
        Parts::new()
    }

    /// Get status of channels, with `read` to read the control byte.
    ///
    /// Each bit corresponds to a channel.
    /// Bit 0 corresponds to channel 0 and so on up to bit 7 which
    /// corresponds to channel 7.
    /// A `0` means the channel is disabled and a `1` that the channel is enabled.
    ///
    /// The control byte is read once, at the address of the device, and a
    /// bus error is passed on. A device that an operation holds refuses
    /// with [`Error::CouldNotAcquireDevice`] and leaves the bus alone.
    pub fn get_channel_status<E, R>(&mut self, read: R) -> (reply: Result<u8, Error<E>>) where
        R: FnOnce(&mut I2C, u8) -> Result<u8, E>,

        requires
            old(self)@.idle() ==> forall|bus: &mut I2C|
                *bus == old(self).owned_bus() ==> call_requires(read, (bus, old(self)@.address)),
        ensures
            !old(self)@.idle() ==> final(self).owned_bus() == old(self).owned_bus()
                && refused(old(self)@, final(self)@, reply),
            old(self)@.idle() ==> exists|bus: &mut I2C, outcome: Result<u8, E>|
                *bus == old(self).owned_bus()
                    && #[trigger] call_ensures(read, (bus, old(self)@.address), outcome)
                    && *final(bus) == final(self).owned_bus()
                    && status_read(
                        Variant::Xca9548a,
                        false,
                        old(self)@,
                        outcome,
                        final(self)@,
                        reply,
                    ),
    {
        self.data.status(Variant::Xca9548a, false, read)
    }

    /// Select which channels are enabled, with `write` to write the
    /// control byte.
    ///
    /// Each bit corresponds to a channel.
    /// Bit 0 corresponds to channel 0 and so on up to bit 7 which
    /// corresponds to channel 7.
    /// A `0` disables the channel and a `1` enables it.
    /// Several channels can be enabled at the same time
    ///
    /// The control byte is written once, at the address of the device,
    /// whatever channels are enabled already. They are taken to be enabled
    /// if the write succeeds; if it fails the bus error is passed on and
    /// the channels are taken to be as before. A device that an operation
    /// holds refuses with [`Error::CouldNotAcquireDevice`] and leaves the
    /// bus alone.
    pub fn select_channels<E, W>(&mut self, channels: u8, write: W) -> (reply: Result<
        (),
        Error<E>,
    >) where W: FnOnce(&mut I2C, u8, u8) -> Result<(), E>
        requires
            old(self)@.idle() ==> forall|bus: &mut I2C|
                *bus == old(self).owned_bus() ==> call_requires(
                    write,
                    (bus, old(self)@.address, Variant::Xca9548a.select(channels)),
                ),
        ensures
            !old(self)@.idle() ==> final(self).owned_bus() == old(self).owned_bus()
                && refused(old(self)@, final(self)@, reply),
            old(self)@.idle() ==> exists|bus: &mut I2C, written: Result<(), E>|
                *bus == old(self).owned_bus()
                    && #[trigger] call_ensures(
                        write,
                        (bus, old(self)@.address, Variant::Xca9548a.select(channels)),
                        written,
                    )
                    && *final(bus) == final(self).owned_bus()
                    && selected(
                        Variant::Xca9548a,
                        old(self)@,
                        channels,
                        written,
                        final(self)@,
                        reply,
                    ),
    {
        self.data.select_channels(Variant::Xca9548a, channels, write)
    }

    /// Carries out `transfer` with a slave behind the channels that are
    /// enabled, whatever the transfer is: a read, a write, a write followed
    /// by a read, or a sequence of them. No channel is selected for it.
    ///
    /// The transfer is lent the bus once and what it returns is the
    /// answer, a bus error passed on. A device that an operation holds
    /// refuses with [`Error::CouldNotAcquireDevice`] and leaves the bus
    /// alone.
    pub fn transaction<E, T>(&mut self, transfer: T) -> (reply: Result<(), Error<E>>) where
        T: FnOnce(&mut I2C) -> Result<(), E>,

        requires
            old(self)@.idle() ==> forall|bus: &mut I2C|
                *bus == old(self).owned_bus() ==> call_requires(transfer, (bus,)),
        ensures
            !old(self)@.idle() ==> final(self).owned_bus() == old(self).owned_bus()
                && refused(old(self)@, final(self)@, reply),
            old(self)@.idle() ==> exists|bus: &mut I2C, outcome: Result<(), E>|
                *bus == old(self).owned_bus()
                    && #[trigger] call_ensures(transfer, (bus,), outcome)
                    && *final(bus) == final(self).owned_bus()
                    && forwarded(old(self)@, outcome, final(self)@, reply),
    {
        self.data.forward(transfer)
    }

    /// Begins a read of the status of the channels and answers with its
    /// command, the read of the control byte.
    pub fn begin_channel_status<E>(&mut self) -> (reply: Result<Command, Error<E>>)
        ensures
            final(self).owned_bus() == old(self).owned_bus(),
            final(self)@ == old(self)@.acquire(SwitchState::asking(false)),
            reply == old(self)@.granted::<E>(final(self)@),
    {
        self.data.begin_status(false)
    }

    /// Begins a select of `channels` and answers with its command, the
    /// write of the control byte.
    pub fn begin_select<E>(&mut self, channels: u8) -> (reply: Result<Command, Error<E>>)
        ensures
            final(self).owned_bus() == old(self).owned_bus(),
            final(self)@ == old(self)@.acquire(
                SwitchState::selecting(Variant::Xca9548a, channels),
            ),
            reply == old(self)@.granted::<E>(final(self)@),
    {
        self.data.begin_select(Variant::Xca9548a, channels)
    }
}

impl<I2C> DoOnAcquired<I2C> for Xca9548a<I2C> {
    open spec fn variant() -> Variant {
        Variant::Xca9548a
    }

    closed spec fn owned_bus(&self) -> I2C {
        self.data.bus()
    }

    fn state(&self) -> (state: SwitchState) {
        self.data.state()
    }

    fn do_on_acquired<E>(&mut self, route: Option<u8>) -> (reply: Result<Command, Error<E>>) {
        self.data.route(route)
    }

    fn completed<E>(&mut self, outcome: Result<(), E>) -> (reply: Result<
        Option<Command>,
        Error<E>,
    >) {
        self.data.completed(outcome)
    }

    fn received<E>(&mut self, outcome: Result<u8, E>) -> (reply: Result<u8, Error<E>>) {
        self.data.received(Variant::Xca9548a, outcome)
    }

    fn abandon(&mut self) {
        self.data.abandon()
    }

    fn i2c(&mut self) -> (bus: &mut I2C) {
        self.data.i2c()
    }
}

impl<I2C> View for Xca9543a<I2C> {
    type V = SwitchState;

    closed spec fn view(&self) -> SwitchState {
        self.data@
    }
}

impl<I2C> Xca9543a<I2C> {
    /// Create new instance of the device
    pub fn new(i2c: I2C, address: SlaveAddr) -> (device: Self)
        ensures
            device.owned_bus() == i2c,
            device@ == SwitchState::initial(address.addr(DEVICE_BASE_ADDRESS)),
    {
        let data = Xca954xaData::new(i2c, address.addr(DEVICE_BASE_ADDRESS));
        Xca9543a { data: Arbiter::new(data) }
    }

    /// Destroy driver instance, return I²C bus instance.
    pub fn destroy(self) -> (i2c: I2C)
        ensures
            i2c == self.owned_bus(),
    {
        self.data.into_inner().into_bus()
    }

    /// Split device into individual I2C devices
    ///
    /// It is not possible to know the compatibilities between channels
    /// so when talking to a split I2C device, only its channel
    /// will be selected.
    pub fn split(&self) -> (parts: Parts2<Xca9543a<I2C>, I2C>)
        ensures
            parts.masks() == channel_masks(Variant::Xca9543a.channels() as nat),
    {
        Parts2::new()
    }

    /// Get status of channels, with `read` to read the control byte.
    ///
    /// Each bit corresponds to a channel.
    /// Bit 0 corresponds to channel 0, bit 1 to channel 1 and so on.
    /// A `0` means the channel is disabled and a `1` that the channel is enabled.
    ///
    /// The control byte is read once, at the address of the device, and a
    /// bus error is passed on. A device that an operation holds refuses
    /// with [`Error::CouldNotAcquireDevice`] and leaves the bus alone.
    pub fn get_channel_status<E, R>(&mut self, read: R) -> (reply: Result<u8, Error<E>>) where
        R: FnOnce(&mut I2C, u8) -> Result<u8, E>,

        requires
            old(self)@.idle() ==> forall|bus: &mut I2C|
                *bus == old(self).owned_bus() ==> call_requires(read, (bus, old(self)@.address)),
        ensures
            !old(self)@.idle() ==> final(self).owned_bus() == old(self).owned_bus()
                && refused(old(self)@, final(self)@, reply),
            old(self)@.idle() ==> exists|bus: &mut I2C, outcome: Result<u8, E>|
                *bus == old(self).owned_bus()
                    && #[trigger] call_ensures(read, (bus, old(self)@.address), outcome)
                    && *final(bus) == final(self).owned_bus()
                    && status_read(
                        Variant::Xca9543a,
                        false,
                        old(self)@,
                        outcome,
                        final(self)@,
                        reply,
                    ),
    {
        self.data.status(Variant::Xca9543a, false, read)
    }

    /// Get status of channel interrupts, with `read` to read the control
    /// byte.
    ///
    /// Each bit corresponds to a channel.
    /// Bit 0 corresponds to channel 0, bit 1 to channel 1 and so on.
    /// A `1` means the channel's interrupt is high and a `0` that the channel's interrupt is low.
    /// Note: I2C interrupts are usually active LOW!
    ///
    /// The control byte is read once, at the address of the device, and a
    /// bus error is passed on. A device that an operation holds refuses
    /// with [`Error::CouldNotAcquireDevice`] and leaves the bus alone.
    pub fn get_interrupt_status<E, R>(&mut self, read: R) -> (reply: Result<u8, Error<E>>) where
        R: FnOnce(&mut I2C, u8) -> Result<u8, E>,

        requires
            old(self)@.idle() ==> forall|bus: &mut I2C|
                *bus == old(self).owned_bus() ==> call_requires(read, (bus, old(self)@.address)),
        ensures
            !old(self)@.idle() ==> final(self).owned_bus() == old(self).owned_bus()
                && refused(old(self)@, final(self)@, reply),
            old(self)@.idle() ==> exists|bus: &mut I2C, outcome: Result<u8, E>|
                *bus == old(self).owned_bus()
                    && #[trigger] call_ensures(read, (bus, old(self)@.address), outcome)
                    && *final(bus) == final(self).owned_bus()
                    && status_read(
                        Variant::Xca9543a,
                        true,
                        old(self)@,
                        outcome,
                        final(self)@,
                        reply,
                    ),
    {
        self.data.status(Variant::Xca9543a, true, read)
    }

    /// Select which channels are enabled, with `write` to write the
    /// control byte.
    ///
    /// Each bit corresponds to a channel.
    /// Bit 0 corresponds to channel 0, bit 1 to channel 1 and so on.
    /// A `0` disables the channel and a `1` enables it.
    /// Several channels can be enabled at the same time.
    ///
    /// Channels/bits that does not exist for the specific device are ignored.
    ///
    /// The control byte is written once, at the address of the device,
    /// whatever channels are enabled already. They are taken to be enabled
    /// if the write succeeds; if it fails the bus error is passed on and
    /// the channels are taken to be as before. A device that an operation
    /// holds refuses with [`Error::CouldNotAcquireDevice`] and leaves the
    /// bus alone.
    pub fn select_channels<E, W>(&mut self, channels: u8, write: W) -> (reply: Result<
        (),
        Error<E>,
    >) where W: FnOnce(&mut I2C, u8, u8) -> Result<(), E>
        requires
            old(self)@.idle() ==> forall|bus: &mut I2C|
                *bus == old(self).owned_bus() ==> call_requires(
                    write,
                    (bus, old(self)@.address, Variant::Xca9543a.select(channels)),
                ),
        ensures
            !old(self)@.idle() ==> final(self).owned_bus() == old(self).owned_bus()
                && refused(old(self)@, final(self)@, reply),
            old(self)@.idle() ==> exists|bus: &mut I2C, written: Result<(), E>|
                *bus == old(self).owned_bus()
                    && #[trigger] call_ensures(
                        write,
                        (bus, old(self)@.address, Variant::Xca9543a.select(channels)),
                        written,
                    )
                    && *final(bus) == final(self).owned_bus()
                    && selected(
                        Variant::Xca9543a,
                        old(self)@,
                        channels,
                        written,
                        final(self)@,
                        reply,
                    ),
    {
        self.data.select_channels(Variant::Xca9543a, channels, write)
    }

    /// Carries out `transfer` with a slave behind the channels that are
    /// enabled, whatever the transfer is: a read, a write, a write followed
    /// by a read, or a sequence of them. No channel is selected for it.
    ///
    /// The transfer is lent the bus once and what it returns is the
    /// answer, a bus error passed on. A device that an operation holds
    /// refuses with [`Error::CouldNotAcquireDevice`] and leaves the bus
    /// alone.
    pub fn transaction<E, T>(&mut self, transfer: T) -> (reply: Result<(), Error<E>>) where
        T: FnOnce(&mut I2C) -> Result<(), E>,

        requires
            old(self)@.idle() ==> forall|bus: &mut I2C|
                *bus == old(self).owned_bus() ==> call_requires(transfer, (bus,)),
        ensures
            !old(self)@.idle() ==> final(self).owned_bus() == old(self).owned_bus()
                && refused(old(self)@, final(self)@, reply),
            old(self)@.idle() ==> exists|bus: &mut I2C, outcome: Result<(), E>|
                *bus == old(self).owned_bus()
                    && #[trigger] call_ensures(transfer, (bus,), outcome)
                    && *final(bus) == final(self).owned_bus()
                    && forwarded(old(self)@, outcome, final(self)@, reply),
    {
        self.data.forward(transfer)
    }

    /// Begins a read of the status of the channels and answers with its
    /// command, the read of the control byte.
    pub fn begin_channel_status<E>(&mut self) -> (reply: Result<Command, Error<E>>)
        ensures
            final(self).owned_bus() == old(self).owned_bus(),
            final(self)@ == old(self)@.acquire(SwitchState::asking(false)),
            reply == old(self)@.granted::<E>(final(self)@),
    {
        self.data.begin_status(false)
    }

    /// Begins a read of the status of the interrupts and answers with its
    /// command, the read of the control byte.
    pub fn begin_interrupt_status<E>(&mut self) -> (reply: Result<Command, Error<E>>)
        ensures
            final(self).owned_bus() == old(self).owned_bus(),
            final(self)@ == old(self)@.acquire(SwitchState::asking(true)),
            reply == old(self)@.granted::<E>(final(self)@),
    {
        self.data.begin_status(true)
    }

    /// Begins a select of `channels` and answers with its command, the
    /// write of the control byte.
    pub fn begin_select<E>(&mut self, channels: u8) -> (reply: Result<Command, Error<E>>)
        ensures
            final(self).owned_bus() == old(self).owned_bus(),
            final(self)@ == old(self)@.acquire(
                SwitchState::selecting(Variant::Xca9543a, channels),
            ),
            reply == old(self)@.granted::<E>(final(self)@),
    {
        self.data.begin_select(Variant::Xca9543a, channels)
    }
}

impl<I2C> DoOnAcquired<I2C> for Xca9543a<I2C> {
    open spec fn variant() -> Variant {
        Variant::Xca9543a
    }

    closed spec fn owned_bus(&self) -> I2C {
        self.data.bus()
    }

    fn state(&self) -> (state: SwitchState) {
        self.data.state()
    }

    fn do_on_acquired<E>(&mut self, route: Option<u8>) -> (reply: Result<Command, Error<E>>) {
        self.data.route(route)
    }

    fn completed<E>(&mut self, outcome: Result<(), E>) -> (reply: Result<
        Option<Command>,
        Error<E>,
    >) {
        self.data.completed(outcome)
    }

    fn received<E>(&mut self, outcome: Result<u8, E>) -> (reply: Result<u8, Error<E>>) {
        self.data.received(Variant::Xca9543a, outcome)
    }

    fn abandon(&mut self) {
        self.data.abandon()
    }

    fn i2c(&mut self) -> (bus: &mut I2C) {
        self.data.i2c()
    }
}

impl<I2C> View for Xca9545a<I2C> {
    type V = SwitchState;

    closed spec fn view(&self) -> SwitchState {
        self.data@
    }
}

impl<I2C> Xca9545a<I2C> {
    /// Create new instance of the device
    pub fn new(i2c: I2C, address: SlaveAddr) -> (device: Self)
        ensures
            device.owned_bus() == i2c,
            device@ == SwitchState::initial(address.addr(DEVICE_BASE_ADDRESS)),
    {
        let data = Xca954xaData::new(i2c, address.addr(DEVICE_BASE_ADDRESS));
        Xca9545a { data: Arbiter::new(data) }
    }

    /// Destroy driver instance, return I²C bus instance.
    pub fn destroy(self) -> (i2c: I2C)
        ensures
            i2c == self.owned_bus(),
    {
        self.data.into_inner().into_bus()
    }

    /// Split device into individual I2C devices
    ///
    /// It is not possible to know the compatibilities between channels
    /// so when talking to a split I2C device, only its channel
    /// will be selected.
    pub fn split(&self) -> (parts: Parts4<Xca9545a<I2C>, I2C>)
        ensures
            parts.masks() == channel_masks(Variant::Xca9545a.channels() as nat),
    {
        Parts4::new()
    }

    /// Get status of channels, with `read` to read the control byte.
    ///
    /// Each bit corresponds to a channel.
    /// Bit 0 corresponds to channel 0, bit 1 to channel 1 and so on.
    /// A `0` means the channel is disabled and a `1` that the channel is enabled.
    ///
    /// The control byte is read once, at the address of the device, and a
    /// bus error is passed on. A device that an operation holds refuses
    /// with [`Error::CouldNotAcquireDevice`] and leaves the bus alone.
    pub fn get_channel_status<E, R>(&mut self, read: R) -> (reply: Result<u8, Error<E>>) where
        R: FnOnce(&mut I2C, u8) -> Result<u8, E>,

        requires
            old(self)@.idle() ==> forall|bus: &mut I2C|
                *bus == old(self).owned_bus() ==> call_requires(read, (bus, old(self)@.address)),
        ensures
            !old(self)@.idle() ==> final(self).owned_bus() == old(self).owned_bus()
                && refused(old(self)@, final(self)@, reply),
            old(self)@.idle() ==> exists|bus: &mut I2C, outcome: Result<u8, E>|
                *bus == old(self).owned_bus()
                    && #[trigger] call_ensures(read, (bus, old(self)@.address), outcome)
                    && *final(bus) == final(self).owned_bus()
                    && status_read(
                        Variant::Xca9545a,
                        false,
                        old(self)@,
                        outcome,
                        final(self)@,
                        reply,
                    ),
    {
        self.data.status(Variant::Xca9545a, false, read)
    }

    /// Get status of channel interrupts, with `read` to read the control
    /// byte.
    ///
    /// Each bit corresponds to a channel.
    /// Bit 0 corresponds to channel 0, bit 1 to channel 1 and so on.
    /// A `1` means the channel's interrupt is high and a `0` that the channel's interrupt is low.
    /// Note: I2C interrupts are usually active LOW!
    ///
    /// The control byte is read once, at the address of the device, and a
    /// bus error is passed on. A device that an operation holds refuses
    /// with [`Error::CouldNotAcquireDevice`] and leaves the bus alone.
    pub fn get_interrupt_status<E, R>(&mut self, read: R) -> (reply: Result<u8, Error<E>>) where
        R: FnOnce(&mut I2C, u8) -> Result<u8, E>,

        requires
            old(self)@.idle() ==> forall|bus: &mut I2C|
                *bus == old(self).owned_bus() ==> call_requires(read, (bus, old(self)@.address)),
        ensures
            !old(self)@.idle() ==> final(self).owned_bus() == old(self).owned_bus()
                && refused(old(self)@, final(self)@, reply),
            old(self)@.idle() ==> exists|bus: &mut I2C, outcome: Result<u8, E>|
                *bus == old(self).owned_bus()
                    && #[trigger] call_ensures(read, (bus, old(self)@.address), outcome)
                    && *final(bus) == final(self).owned_bus()
                    && status_read(
                        Variant::Xca9545a,
                        true,
                        old(self)@,
                        outcome,
                        final(self)@,
                        reply,
                    ),
    {
        self.data.status(Variant::Xca9545a, true, read)
    }

    /// Select which channels are enabled, with `write` to write the
    /// control byte.
    ///
    /// Each bit corresponds to a channel.
    /// Bit 0 corresponds to channel 0, bit 1 to channel 1 and so on.
    /// A `0` disables the channel and a `1` enables it.
    /// Several channels can be enabled at the same time.
    ///
    /// Channels/bits that does not exist for the specific device are ignored.
    ///
    /// The control byte is written once, at the address of the device,
    /// whatever channels are enabled already. They are taken to be enabled
    /// if the write succeeds; if it fails the bus error is passed on and
    /// the channels are taken to be as before. A device that an operation
    /// holds refuses with [`Error::CouldNotAcquireDevice`] and leaves the
    /// bus alone.
    pub fn select_channels<E, W>(&mut self, channels: u8, write: W) -> (reply: Result<
        (),
        Error<E>,
    >) where W: FnOnce(&mut I2C, u8, u8) -> Result<(), E>
        requires
            old(self)@.idle() ==> forall|bus: &mut I2C|
                *bus == old(self).owned_bus() ==> call_requires(
                    write,
                    (bus, old(self)@.address, Variant::Xca9545a.select(channels)),
                ),
        ensures
            !old(self)@.idle() ==> final(self).owned_bus() == old(self).owned_bus()
                && refused(old(self)@, final(self)@, reply),
            old(self)@.idle() ==> exists|bus: &mut I2C, written: Result<(), E>|
                *bus == old(self).owned_bus()
                    && #[trigger] call_ensures(
                        write,
                        (bus, old(self)@.address, Variant::Xca9545a.select(channels)),
                        written,
                    )
                    && *final(bus) == final(self).owned_bus()
                    && selected(
                        Variant::Xca9545a,
                        old(self)@,
                        channels,
                        written,
                        final(self)@,
                        reply,
                    ),
    {
        self.data.select_channels(Variant::Xca9545a, channels, write)
    }

    /// Carries out `transfer` with a slave behind the channels that are
    /// enabled, whatever the transfer is: a read, a write, a write followed
    /// by a read, or a sequence of them. No channel is selected for it.
    ///
    /// The transfer is lent the bus once and what it returns is the
    /// answer, a bus error passed on. A device that an operation holds
    /// refuses with [`Error::CouldNotAcquireDevice`] and leaves the bus
    /// alone.
    pub fn transaction<E, T>(&mut self, transfer: T) -> (reply: Result<(), Error<E>>) where
        T: FnOnce(&mut I2C) -> Result<(), E>,

        requires
            old(self)@.idle() ==> forall|bus: &mut I2C|
                *bus == old(self).owned_bus() ==> call_requires(transfer, (bus,)),
        ensures
            !old(self)@.idle() ==> final(self).owned_bus() == old(self).owned_bus()
                && refused(old(self)@, final(self)@, reply),
            old(self)@.idle() ==> exists|bus: &mut I2C, outcome: Result<(), E>|
                *bus == old(self).owned_bus()
                    && #[trigger] call_ensures(transfer, (bus,), outcome)
                    && *final(bus) == final(self).owned_bus()
                    && forwarded(old(self)@, outcome, final(self)@, reply),
    {
        self.data.forward(transfer)
    }

    /// Begins a read of the status of the channels and answers with its
    /// command, the read of the control byte.
    pub fn begin_channel_status<E>(&mut self) -> (reply: Result<Command, Error<E>>)
        ensures
            final(self).owned_bus() == old(self).owned_bus(),
            final(self)@ == old(self)@.acquire(SwitchState::asking(false)),
            reply == old(self)@.granted::<E>(final(self)@),
    {
        self.data.begin_status(false)
    }

    /// Begins a read of the status of the interrupts and answers with its
    /// command, the read of the control byte.
    pub fn begin_interrupt_status<E>(&mut self) -> (reply: Result<Command, Error<E>>)
        ensures
            final(self).owned_bus() == old(self).owned_bus(),
            final(self)@ == old(self)@.acquire(SwitchState::asking(true)),
            reply == old(self)@.granted::<E>(final(self)@),
    {
        self.data.begin_status(true)
    }

    /// Begins a select of `channels` and answers with its command, the
    /// write of the control byte.
    pub fn begin_select<E>(&mut self, channels: u8) -> (reply: Result<Command, Error<E>>)
        ensures
            final(self).owned_bus() == old(self).owned_bus(),
            final(self)@ == old(self)@.acquire(
                SwitchState::selecting(Variant::Xca9545a, channels),
            ),
            reply == old(self)@.granted::<E>(final(self)@),
    {
        self.data.begin_select(Variant::Xca9545a, channels)
    }
}

impl<I2C> DoOnAcquired<I2C> for Xca9545a<I2C> {
    open spec fn variant() -> Variant {
        Variant::Xca9545a
    }

    closed spec fn owned_bus(&self) -> I2C {
        self.data.bus()
    }

    fn state(&self) -> (state: SwitchState) {
        self.data.state()
    }

    fn do_on_acquired<E>(&mut self, route: Option<u8>) -> (reply: Result<Command, Error<E>>) {
        self.data.route(route)
    }

    fn completed<E>(&mut self, outcome: Result<(), E>) -> (reply: Result<
        Option<Command>,
        Error<E>,
    >) {
        self.data.completed(outcome)
    }

    fn received<E>(&mut self, outcome: Result<u8, E>) -> (reply: Result<u8, Error<E>>) {
        self.data.received(Variant::Xca9545a, outcome)
    }

    fn abandon(&mut self) {
        self.data.abandon()
    }

    fn i2c(&mut self) -> (bus: &mut I2C) {
        self.data.i2c()
    }
}

} // verus!
