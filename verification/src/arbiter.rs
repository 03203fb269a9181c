//! The record of a device together with what holds it: the steps of the
//! operations and the whole operations are carried out here, for a device of
//! any kind.

use crate::bus::{forwarded, refused, selected, status_read};
use crate::device_impl::{SelectChannels, Xca954xaData};
use crate::register::{Variant, INTERRUPT_SHIFT};
use crate::switch::{Command, Pending, SwitchState};
use crate::types::Error;
use vstd::prelude::*;

verus! {

/// The record of a device, held by one operation at a time.
#[derive(Debug)]
pub(crate) struct Arbiter<I2C> {
    pub(crate) data: Xca954xaData<I2C>,
    pub(crate) pending: Pending,
}

impl<I2C> View for Arbiter<I2C> {
    type V = SwitchState;

    closed spec fn view(&self) -> SwitchState {
        SwitchState {
            address: self.data.address(),
            selected: self.data.selected_channel_mask(),
            pending: self.pending,
        }
    }
}

impl<I2C> Arbiter<I2C> {
    /// The bus that the record owns.
    pub closed spec fn bus(&self) -> I2C {
        self.data.bus()
    }

    /// Takes charge of `data`, which no operation holds.
    pub fn new(data: Xca954xaData<I2C>) -> (arbiter: Self)
        ensures
            arbiter.bus() == data.bus(),
            arbiter@ == (SwitchState {
                address: data.address(),
                selected: data.selected_channel_mask(),
                pending: Pending::Idle,
            }),
    {
        Arbiter { data, pending: Pending::Idle }
    }

    /// Gives the record back.
    pub fn into_inner(self) -> (data: Xca954xaData<I2C>)
        ensures
            data.bus() == self.bus(),
            data.address() == self@.address,
            data.selected_channel_mask() == self@.selected,
    {
        self.data
    }

    /// What the driver knows of the device.
    pub fn state(&self) -> (state: SwitchState)
        ensures
            state == self@,
    {
        SwitchState {
            address: self.data.address(),
            selected: self.data.selected_channel_mask(),
            pending: self.pending,
        }
    }

    /// The bus, to carry out a command on.
    pub fn i2c(&mut self) -> (bus: &mut I2C)
        ensures
            *bus == old(self).bus(),
            final(self).bus() == *final(bus),
            final(self)@ == old(self)@,
    {
        self.data.i2c()
    }

    /// Acquires the device for an operation whose first wait is `first`.
    fn acquire<E>(&mut self, first: Pending) -> (reply: Result<Command, Error<E>>)
        requires
            first != Pending::Idle,
        ensures
            final(self).bus() == old(self).bus(),
            final(self)@ == old(self)@.acquire(first),
            reply == old(self)@.granted::<E>(final(self)@),
    {
        match self.pending {
            Pending::Idle => {
                self.pending = first;
                match first {
                    Pending::Select { mask, forward } => Ok(
                        Command::Write { address: self.data.address(), byte: mask },
                    ),
                    Pending::Forward => Ok(Command::Forward),
                    _ => Ok(Command::Read { address: self.data.address() }),
                }
            },
            _ => Err(Error::CouldNotAcquireDevice),
        }
    }

    /// Begins an explicit select of `channels` on a device of kind
    /// `variant`.
    pub fn begin_select<E>(&mut self, variant: Variant, channels: u8) -> (reply: Result<
        Command,
        Error<E>,
    >)
        ensures
            final(self).bus() == old(self).bus(),
            final(self)@ == old(self)@.acquire(SwitchState::selecting(variant, channels)),
            reply == old(self)@.granted::<E>(final(self)@),
    {
        let mask: u8 = variant.select(channels);
        self.acquire(Pending::Select { mask, forward: false })
    }

    /// Begins a transfer that needs the channels `route` selected, if any.
    pub fn route<E>(&mut self, route: Option<u8>) -> (reply: Result<Command, Error<E>>)
        ensures
            final(self).bus() == old(self).bus(),
            final(self)@ == old(self)@.acquire(old(self)@.routing(route)),
            reply == old(self)@.granted::<E>(final(self)@),
    {
        let first = match route {
            Some(mask) => if mask != self.data.selected_channel_mask() {
                Pending::Select { mask, forward: true }
            } else {
                Pending::Forward
            },
            None => Pending::Forward,
        };
        self.acquire(first)
    }

    /// Begins a read of the status of the channels, or with `interrupts` of
    /// the interrupts.
    pub fn begin_status<E>(&mut self, interrupts: bool) -> (reply: Result<Command, Error<E>>)
        ensures
            final(self).bus() == old(self).bus(),
            final(self)@ == old(self)@.acquire(SwitchState::asking(interrupts)),
            reply == old(self)@.granted::<E>(final(self)@),
    {
        if interrupts {
            self.acquire(Pending::InterruptStatus)
        } else {
            self.acquire(Pending::ChannelStatus)
        }
    }

    /// Takes the report that the write or transfer on the bus completed
    /// with `outcome`.
    pub fn completed<E>(&mut self, outcome: Result<(), E>) -> (reply: Result<
        Option<Command>,
        Error<E>,
    >)
        ensures
            final(self).bus() == old(self).bus(),
            final(self)@ == old(self)@.completed(outcome is Ok),
            reply == old(self)@.completed_reply(outcome),
    {
        match self.pending {
            Pending::Select { mask, forward } => {
                match self.data.select_channels(mask, outcome) {
                    Ok(_) => {
                        if forward {
                            self.pending = Pending::Forward;
                            Ok(Some(Command::Forward))
                        } else {
                            self.pending = Pending::Idle;
                            Ok(None)
                        }
                    },
                    Err(e) => {
                        self.pending = Pending::Idle;
                        Err(e)
                    },
                }
            },
            Pending::Forward => {
                self.pending = Pending::Idle;
                match outcome {
                    Ok(_) => Ok(None),
                    Err(e) => Err(Error::I2C(e)),
                }
            },
            _ => match outcome {
                Ok(_) => Err(Error::CouldNotAcquireDevice),
                Err(e) => Err(Error::I2C(e)),
            },
        }
    }

    /// Takes the report that the read on the bus completed with `outcome`,
    /// on a device of kind `variant`.
    pub fn received<E>(&mut self, variant: Variant, outcome: Result<u8, E>) -> (reply: Result<
        u8,
        Error<E>,
    >)
        ensures
            final(self).bus() == old(self).bus(),
            final(self)@ == old(self)@.received(),
            reply == old(self)@.received_reply(variant, outcome),
    {
        match self.pending {
            Pending::ChannelStatus => {
                self.pending = Pending::Idle;
                match outcome {
                    Ok(raw) => Ok(variant.channel_status(raw)),
                    Err(e) => Err(Error::I2C(e)),
                }
            },
            Pending::InterruptStatus => {
                self.pending = Pending::Idle;
                match outcome {
                    Ok(raw) => Ok((raw >> INTERRUPT_SHIFT) & variant.valid_mask()),
                    Err(e) => Err(Error::I2C(e)),
                }
            },
            _ => match outcome {
                Ok(_) => Err(Error::CouldNotAcquireDevice),
                Err(e) => Err(Error::I2C(e)),
            },
        }
    }

    /// Selects `channels` on a device of kind `variant`, with `write` to
    /// write the control byte.
    pub fn select_channels<E, W>(&mut self, variant: Variant, channels: u8, write: W) -> (reply:
        Result<(), Error<E>>) where W: FnOnce(&mut I2C, u8, u8) -> Result<(), E>
        requires
            old(self)@.idle() ==> forall|bus: &mut I2C|
                *bus == old(self).bus() ==> call_requires(
                    write,
                    (bus, old(self)@.address, variant.select(channels)),
                ),
        ensures
            !old(self)@.idle() ==> final(self).bus() == old(self).bus()
                && refused(old(self)@, final(self)@, reply),
            old(self)@.idle() ==> exists|bus: &mut I2C, written: Result<(), E>|
                *bus == old(self).bus()
                    && #[trigger] call_ensures(
                        write,
                        (bus, old(self)@.address, variant.select(channels)),
                        written,
                    )
                    && *final(bus) == final(self).bus()
                    && selected(variant, old(self)@, channels, written, final(self)@, reply),
    {
        match self.begin_select::<E>(variant, channels) {
            Err(e) => Err(e),
            Ok(_) => {
                let address: u8 = self.data.address();
                let byte: u8 = variant.select(channels);
                let written = write(self.data.i2c(), address, byte);
                match self.completed(written) {
                    Ok(_) => Ok(()),
                    Err(e) => Err(e),
                }
            },
        }
    }

    /// Reads the status of the channels, or with `interrupts` of the
    /// interrupts, of a device of kind `variant`, with `read` to read the
    /// control byte.
    pub fn status<E, R>(&mut self, variant: Variant, interrupts: bool, read: R) -> (reply: Result<
        u8,
        Error<E>,
    >) where R: FnOnce(&mut I2C, u8) -> Result<u8, E>
        requires
            old(self)@.idle() ==> forall|bus: &mut I2C|
                *bus == old(self).bus() ==> call_requires(read, (bus, old(self)@.address)),
        ensures
            !old(self)@.idle() ==> final(self).bus() == old(self).bus()
                && refused(old(self)@, final(self)@, reply),
            old(self)@.idle() ==> exists|bus: &mut I2C, outcome: Result<u8, E>|
                *bus == old(self).bus()
                    && #[trigger] call_ensures(read, (bus, old(self)@.address), outcome)
                    && *final(bus) == final(self).bus()
                    && status_read(variant, interrupts, old(self)@, outcome, final(self)@, reply),
    {
        match self.begin_status::<E>(interrupts) {
            Err(e) => Err(e),
            Ok(_) => {
                let address: u8 = self.data.address();
                let outcome = read(self.data.i2c(), address);
                self.received(variant, outcome)
            },
        }
    }

    /// Carries out `transfer` behind whatever channels are enabled.
    pub fn forward<E, T>(&mut self, transfer: T) -> (reply: Result<(), Error<E>>) where
        T: FnOnce(&mut I2C) -> Result<(), E>,

        requires
            old(self)@.idle() ==> forall|bus: &mut I2C|
                *bus == old(self).bus() ==> call_requires(transfer, (bus,)),
        ensures
            !old(self)@.idle() ==> final(self).bus() == old(self).bus()
                && refused(old(self)@, final(self)@, reply),
            old(self)@.idle() ==> exists|bus: &mut I2C, outcome: Result<(), E>|
                *bus == old(self).bus()
                    && #[trigger] call_ensures(transfer, (bus,), outcome)
                    && *final(bus) == final(self).bus()
                    && forwarded(old(self)@, outcome, final(self)@, reply),
    {
        match self.route::<E>(None) {
            Err(e) => Err(e),
            Ok(_) => {
                let outcome = transfer(self.data.i2c());
                match self.completed(outcome) {
                    Ok(_) => Ok(()),
                    Err(e) => Err(e),
                }
            },
        }
    }

    /// Gives up the operation in flight, if any, and releases the device.
    pub fn abandon(&mut self)
        ensures
            final(self).bus() == old(self).bus(),
            final(self)@ == old(self)@.abandoned(),
    {
        self.pending = Pending::Idle;
    }
}

} // verus!
