//! What a driver knows of its device, and how that changes.
//!
//! An operation acquires the device when it begins and holds it until its
//! last bus command has completed. While it is held no other operation can
//! begin, so at most one operation is in flight and the recorded channel mask
//! is only ever changed by the select write of that operation.

use crate::register::{lemma_status_round_trip, Variant};
use crate::types::Error;
use vstd::prelude::*;

verus! {

/// What the operation in flight is waiting for.
#[derive(Debug, Clone, Copy, PartialEq, Eq, Structural)]
pub enum Pending {
    /// No operation is in flight: the device can be acquired.
    Idle,
    /// The control byte `mask` is being written. With `forward` the
    /// caller's own transfer follows the write, without it the operation
    /// ends with the write.
    Select { mask: u8, forward: bool },
    /// The caller's own transfer is on the bus.
    Forward,
    /// The control byte is being read for the status of the channels.
    ChannelStatus,
    /// The control byte is being read for the status of the interrupts.
    InterruptStatus,
}

/// What the caller is to put on the bus for the operation in flight.
#[derive(Debug, Clone, Copy, PartialEq, Eq, Structural)]
pub enum Command {
    /// Write the single byte `byte` to the device at `address`, and report
    /// the outcome with `completed`.
    Write { address: u8, byte: u8 },
    /// Read a single byte from the device at `address`, and report the
    /// outcome with `received`.
    Read { address: u8 },
    /// Carry out the transfer that the operation was begun for, and report
    /// the outcome with `completed`.
    Forward,
}

/// What a driver knows of its device, apart from the bus that it owns.
#[derive(Debug, Clone, Copy, PartialEq, Eq, Structural)]
pub struct SwitchState {
    /// Bus address of the device.
    pub address: u8,
    /// The channel mask that was last written to the device successfully;
    /// zero, the state after power-on, as long as none was.
    pub selected: u8,
    /// What the operation in flight is waiting for.
    pub pending: Pending,
}

impl SwitchState {
    /// The state of a device at `address` right after power-on.
    pub open spec fn initial(address: u8) -> SwitchState {
        SwitchState { address, selected: 0, pending: Pending::Idle }
    }

    /// No operation is in flight.
    pub open spec fn spec_idle(self) -> bool {
        self.pending == Pending::Idle
    }

    /// No operation is in flight.
    #[verifier::when_used_as_spec(spec_idle)]
    pub fn idle(self) -> (idle: bool)
        ensures
            idle == self.spec_idle(),
    {
        match self.pending {
            Pending::Idle => true,
            _ => false,
        }
    }

    /// A write or the caller's transfer is on the bus.
    pub open spec fn transferring(self) -> bool {
        self.pending is Select || self.pending is Forward
    }

    /// A read of the control byte is on the bus.
    pub open spec fn reading(self) -> bool {
        self.pending == Pending::ChannelStatus || self.pending == Pending::InterruptStatus
    }

    /// The command that is on the bus in this state, if any.
    pub open spec fn spec_on_bus(self) -> Option<Command> {
        match self.pending {
            Pending::Idle => None,
            Pending::Select { mask, forward } => Some(
                Command::Write { address: self.address, byte: mask },
            ),
            Pending::Forward => Some(Command::Forward),
            Pending::ChannelStatus => Some(Command::Read { address: self.address }),
            Pending::InterruptStatus => Some(Command::Read { address: self.address }),
        }
    }

    /// The command that is on the bus in this state, if any.
    #[verifier::when_used_as_spec(spec_on_bus)]
    pub fn on_bus(self) -> (command: Option<Command>)
        ensures
            command == self.spec_on_bus(),
    {
        match self.pending {
            Pending::Idle => None,
            Pending::Select { mask, forward } => Some(
                Command::Write { address: self.address, byte: mask },
            ),
            Pending::Forward => Some(Command::Forward),
            Pending::ChannelStatus => Some(Command::Read { address: self.address }),
            Pending::InterruptStatus => Some(Command::Read { address: self.address }),
        }
    }

    /// The first wait of a transfer that needs the channels `route`
    /// selected: the select write if another mask is recorded, else the
    /// transfer itself. A transfer without a route never selects.
    pub open spec fn routing(self, route: Option<u8>) -> Pending {
        match route {
            Some(mask) => if mask != self.selected {
                Pending::Select { mask, forward: true }
            } else {
                Pending::Forward
            },
            None => Pending::Forward,
        }
    }

    /// The first wait of an explicit select of `channels` on a device of
    /// kind `variant`: the write of the effective mask, whatever mask is
    /// recorded.
    pub open spec fn selecting(variant: Variant, channels: u8) -> Pending {
        Pending::Select { mask: variant.select(channels), forward: false }
    }

    /// The wait of a status read: with `interrupts` for the status of the
    /// interrupts, else for that of the channels.
    pub open spec fn asking(interrupts: bool) -> Pending {
        if interrupts {
            Pending::InterruptStatus
        } else {
            Pending::ChannelStatus
        }
    }

    /// The state after an operation whose first wait is `first` tried to
    /// acquire the device: it holds the device if the device was idle, and
    /// changes nothing if it was not.
    pub open spec fn acquire(self, first: Pending) -> SwitchState {
        if self.idle() {
            SwitchState { pending: first, ..self }
        } else {
            self
        }
    }

    /// The answer to an operation that tried to acquire the device in this
    /// state and left it in the state `begun`: the first command, or the
    /// refusal if an operation was in flight already.
    pub open spec fn granted<E>(self, begun: SwitchState) -> Result<Command, Error<E>> {
        if self.idle() && begun.on_bus() is Some {
            Ok(begun.on_bus().unwrap())
        } else {
            Err(Error::CouldNotAcquireDevice)
        }
    }

    /// The state after the write or transfer on the bus completed, with
    /// success if `ok`. A successful select write is recorded and, for a
    /// routed transfer, followed by the transfer; anything else ends the
    /// operation and leaves the recorded mask alone. Without a write or
    /// transfer on the bus nothing changes.
    pub open spec fn completed(self, ok: bool) -> SwitchState {
        match self.pending {
            Pending::Select { mask, forward } => if ok {
                SwitchState {
                    selected: mask,
                    pending: if forward {
                        Pending::Forward
                    } else {
                        Pending::Idle
                    },
                    ..self
                }
            } else {
                SwitchState { pending: Pending::Idle, ..self }
            },
            Pending::Forward => SwitchState { pending: Pending::Idle, ..self },
            _ => self,
        }
    }

    /// The answer to the report that the write or transfer on the bus
    /// completed with `outcome`: a bus error is passed on; after a success
    /// the next command, if the operation has one. A success that no write
    /// or transfer was waiting for is refused.
    pub open spec fn completed_reply<E>(self, outcome: Result<(), E>) -> Result<
        Option<Command>,
        Error<E>,
    > {
        match outcome {
            Err(e) => Err(Error::I2C(e)),
            Ok(_) => if self.transferring() {
                Ok(self.completed(true).on_bus())
            } else {
                Err(Error::CouldNotAcquireDevice)
            },
        }
    }

    /// The state after the read on the bus completed: the operation has
    /// ended. Without a read on the bus nothing changes.
    pub open spec fn received(self) -> SwitchState {
        if self.reading() {
            SwitchState { pending: Pending::Idle, ..self }
        } else {
            self
        }
    }

    /// The answer to the report that the read on the bus completed with
    /// `outcome`, on a device of kind `variant`: a bus error is passed on;
    /// the byte read is decoded as the status that was asked for. A byte
    /// that no read was waiting for is refused.
    pub open spec fn received_reply<E>(self, variant: Variant, outcome: Result<u8, E>) -> Result<
        u8,
        Error<E>,
    > {
        match outcome {
            Err(e) => Err(Error::I2C(e)),
            Ok(raw) => match self.pending {
                Pending::ChannelStatus => Ok(variant.channel_status(raw)),
                Pending::InterruptStatus => Ok(variant.interrupt_status(raw)),
                _ => Err(Error::CouldNotAcquireDevice),
            },
        }
    }

    /// The state after the operation in flight, if any, was given up.
    pub open spec fn abandoned(self) -> SwitchState {
        SwitchState { pending: Pending::Idle, ..self }
    }

    /// The commands that a transfer behind the channels `mask` puts on the
    /// bus, in their order, where it is begun in this state and every
    /// command succeeds.
    pub open spec fn commands_of_transfer(self, mask: u8) -> Seq<Command> {
        let begun = self.acquire(self.routing(Some(mask)));
        if begun.pending is Select {
            seq![begun.on_bus().unwrap(), begun.completed(true).on_bus().unwrap()]
        } else {
            seq![begun.on_bus().unwrap()]
        }
    }

    /// The state in which such a transfer ends.
    pub open spec fn after_transfer(self, mask: u8) -> SwitchState {
        let begun = self.acquire(self.routing(Some(mask)));
        if begun.pending is Select {
            begun.completed(true).completed(true)
        } else {
            begun.completed(true)
        }
    }

    /// The commands that transfers behind the channels `masks`, one after
    /// the other, put on the bus, in their order, where the first is begun
    /// in this state and every command succeeds.
    pub open spec fn commands_of_transfers(self, masks: Seq<u8>) -> Seq<Command>
        decreases masks.len(),
    {
        if masks.len() == 0 {
            Seq::empty()
        } else {
            self.commands_of_transfer(masks[0]) + self.after_transfer(
                masks[0],
            ).commands_of_transfers(masks.drop_first())
        }
    }
}

/// What transfers behind the channels `masks`, one after the other, are to
/// put on the bus of a device at `address` that has `selected` recorded:
/// each transfer itself, and before it the write of its mask where that is
/// not the mask of the transfer before it.
pub open spec fn lazy_selects(address: u8, selected: u8, masks: Seq<u8>) -> Seq<Command>
    decreases masks.len(),
{
    if masks.len() == 0 {
        Seq::empty()
    } else if masks[0] != selected {
        seq![Command::Write { address, byte: masks[0] }, Command::Forward] + lazy_selects(
            address,
            masks[0],
            masks.drop_first(),
        )
    } else {
        seq![Command::Forward] + lazy_selects(address, masks[0], masks.drop_first())
    }
}

/// Whatever is begun while an operation holds the device is refused with
/// [`Error::CouldNotAcquireDevice`] and changes nothing, and an operation
/// that has acquired the device holds it. So of two operations begun one
/// after the other, with no completion between them, the second is refused.
pub proof fn lemma_held_device_refuses<E>(state: SwitchState, first: Pending, second: Pending)
    ensures
        !state.idle() ==> state.acquire(second) == state,
        !state.idle() ==> state.granted::<E>(state.acquire(second)) == Err::<Command, Error<E>>(
            Error::CouldNotAcquireDevice,
        ),
        state.idle() && first != Pending::Idle ==> ({
            let held = state.acquire(first);
            &&& !held.idle()
            &&& state.granted::<E>(held) == Ok::<Command, Error<E>>(held.on_bus().unwrap())
            &&& held.acquire(second) == held
            &&& held.granted::<E>(held.acquire(second)) == Err::<Command, Error<E>>(
                Error::CouldNotAcquireDevice,
            )
        }),
{
}

/// Every operation releases the device on each of its ways out: an
/// explicit select after its write, a transfer after the transfer itself
/// or after a select write that failed, a status read after its read; and
/// a transfer that has selected holds the device until the transfer itself
/// has completed.
pub proof fn lemma_operations_release(
    state: SwitchState,
    variant: Variant,
    channels: u8,
    route: Option<u8>,
    ok: bool,
)
    requires
        state.idle(),
    ensures
        state.acquire(SwitchState::selecting(variant, channels)).completed(ok).idle(),
        state.acquire(Pending::ChannelStatus).received().idle(),
        state.acquire(Pending::InterruptStatus).received().idle(),
        ({
            let begun = state.acquire(state.routing(route));
            if begun.pending is Select {
                &&& begun.completed(false).idle()
                &&& begun.completed(true).pending == Pending::Forward
                &&& begun.completed(true).completed(ok).idle()
            } else {
                begun.completed(ok).idle()
            }
        }),
        state.acquire(state.routing(route)).abandoned().idle(),
{
}

/// The recorded mask mirrors the device: it changes only when a select
/// write has completed with success, and then to the byte that was
/// written; the address never changes.
pub proof fn lemma_recorded_mask_follows_writes(state: SwitchState, first: Pending, ok: bool)
    ensures
        state.acquire(first).selected == state.selected,
        state.received().selected == state.selected,
        state.abandoned().selected == state.selected,
        state.completed(ok).selected == (if ok && state.pending is Select {
            state.on_bus().unwrap()->byte
        } else {
            state.selected
        }),
        state.acquire(first).address == state.address,
        state.received().address == state.address,
        state.abandoned().address == state.address,
        state.completed(ok).address == state.address,
{
}

/// An explicit select is never skipped: it writes the effective mask,
/// once, whatever mask is recorded, and a second select of the same
/// channels right after it writes the same byte again.
pub proof fn lemma_explicit_select_always_writes(
    state: SwitchState,
    variant: Variant,
    channels: u8,
)
    requires
        state.idle(),
    ensures
        ({
            let write = Command::Write {
                address: state.address,
                byte: channels & variant.valid_mask(),
            };
            let begun = state.acquire(SwitchState::selecting(variant, channels));
            let done = begun.completed(true);
            let again = done.acquire(SwitchState::selecting(variant, channels));
            &&& begun.on_bus() == Some(write)
            &&& done.on_bus() is None
            &&& done.selected == channels & variant.valid_mask()
            &&& again.on_bus() == Some(write)
            &&& again.completed(true).on_bus() is None
            &&& again.completed(true) == done
        }),
{
}

/// A transfer through a handle selects the channel of the handle only if
/// another mask is recorded, and then with one write of exactly that
/// channel mask before the transfer. Once such a transfer has got as far
/// as the transfer itself, the next one through the same handle begins
/// with the transfer, without a select.
pub proof fn lemma_handle_selects_once(state: SwitchState, mask: u8, ok: bool)
    requires
        state.idle(),
    ensures
        ({
            let begun = state.acquire(state.routing(Some(mask)));
            let routed = if state.selected != mask {
                begun.completed(true)
            } else {
                begun
            };
            let done = routed.completed(ok);
            &&& state.selected != mask ==> begun.on_bus() == Some(
                Command::Write { address: state.address, byte: mask },
            )
            &&& routed.on_bus() == Some(Command::Forward)
            &&& done.idle()
            &&& done.selected == mask
            &&& done.acquire(done.routing(Some(mask))).on_bus() == Some(Command::Forward)
        }),
{
}

/// A transfer through another handle than the last one selects the
/// channel of the new handle with exactly one write before the transfer.
pub proof fn lemma_other_handle_selects_again(state: SwitchState, last: u8, next: u8)
    requires
        state.idle(),
        state.selected == last,
        next != last,
    ensures
        ({
            let begun = state.acquire(state.routing(Some(next)));
            &&& begun.on_bus() == Some(Command::Write { address: state.address, byte: next })
            &&& begun.completed(true).on_bus() == Some(Command::Forward)
            &&& begun.completed(true).selected == next
            &&& begun.completed(true).completed(true).on_bus() is None
        }),
{
}

/// However many transfers follow one another through whatever handles, a
/// channel is selected exactly where the handle is another than the one
/// before: transfers through the same handle in a row select once, before
/// the first of them, and every change of handle costs one select.
pub proof fn lemma_transfers_select_lazily(state: SwitchState, masks: Seq<u8>)
    requires
        state.idle(),
    ensures
        state.commands_of_transfers(masks) == lazy_selects(state.address, state.selected, masks),
    decreases masks.len(),
{
    if masks.len() > 0 {
        let next = state.after_transfer(masks[0]);
        assert(next == SwitchState { selected: masks[0], ..state });
        lemma_transfers_select_lazily(next, masks.drop_first());
    }
}

/// A select write that failed is not taken to have had an effect: the
/// operation ends there with the bus error, unmodified, the recorded mask
/// is the one from before, and a retry writes the select again.
pub proof fn lemma_failed_select_is_retried<E>(state: SwitchState, mask: u8, error: E)
    requires
        state.idle(),
        state.selected != mask,
    ensures
        ({
            let begun = state.acquire(state.routing(Some(mask)));
            let failed = begun.completed(false);
            &&& begun.completed_reply(Err::<(), E>(error)) == Err::<Option<Command>, Error<E>>(
                Error::I2C(error),
            )
            &&& failed == state
            &&& failed.acquire(failed.routing(Some(mask))).on_bus() == begun.on_bus()
        }),
{
}

/// A transfer on the device itself goes to whatever channels are enabled:
/// it never selects.
pub proof fn lemma_pass_through_never_selects(state: SwitchState)
    requires
        state.idle(),
    ensures
        state.acquire(state.routing(None)).on_bus() == Some(Command::Forward),
        state.acquire(state.routing(None)).completed(true).on_bus() is None,
        state.acquire(state.routing(None)).completed(true) == state,
{
}

/// Reading the channel status after a select, from a device whose control
/// register holds the byte that the select wrote, answers with the
/// requested channels within the valid mask, which is also the recorded
/// mask; on the eight-channel device that is the requested mask itself.
pub proof fn lemma_status_after_select<E>(state: SwitchState, variant: Variant, channels: u8)
    requires
        state.idle(),
    ensures
        ({
            let begun = state.acquire(SwitchState::selecting(variant, channels));
            let held: u8 = begun.on_bus().unwrap()->byte;
            let done = begun.completed(true);
            let status = done.acquire(SwitchState::asking(false)).received_reply(
                variant,
                Ok::<u8, E>(held),
            );
            &&& status == Ok::<u8, Error<E>>(channels & variant.valid_mask())
            &&& status == Ok::<u8, Error<E>>(done.selected)
            &&& variant == Variant::Xca9548a ==> status == Ok::<u8, Error<E>>(channels)
        }),
{
    lemma_status_round_trip(variant, channels);
}

/// The status reads decode the byte that was read: the channel status is
/// the byte within the valid mask, the interrupt status its high nibble
/// within the valid mask. Neither changes the recorded mask.
pub proof fn lemma_status_reads_decode<E>(state: SwitchState, variant: Variant, raw: u8)
    requires
        state.idle(),
    ensures
        ({
            let channels = state.acquire(Pending::ChannelStatus);
            let interrupts = state.acquire(Pending::InterruptStatus);
            &&& channels.on_bus() == Some(Command::Read { address: state.address })
            &&& interrupts.on_bus() == Some(Command::Read { address: state.address })
            &&& channels.received_reply(variant, Ok::<u8, E>(raw)) == Ok::<u8, Error<E>>(
                raw & variant.valid_mask(),
            )
            &&& interrupts.received_reply(variant, Ok::<u8, E>(raw)) == Ok::<u8, Error<E>>(
                (raw >> 4) & variant.valid_mask(),
            )
            &&& channels.received() == state
            &&& interrupts.received() == state
        }),
{
}

} // verus!
