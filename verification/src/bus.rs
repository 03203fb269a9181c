//! The whole operations: what each of them does to the device and answers,
//! given what the calls that it made on the bus returned.
//!
//! The caller hands in what makes the calls: `write` writes one byte to an
//! address, `read` reads one byte from an address, and `transfer` is the
//! transfer that an operation forwards. An operation lends them the bus of
//! the device, one after the other, and the bus is left as the last of them
//! left it.

use crate::register::Variant;
use crate::switch::SwitchState;
use crate::types::Error;
use vstd::prelude::*;

verus! {

/// A bus error, passed on unmodified.
pub open spec fn passed_on<T, E>(outcome: Result<T, E>) -> Result<T, Error<E>> {
    match outcome {
        Ok(value) => Ok(value),
        Err(e) => Err(Error::I2C(e)),
    }
}

/// What a device in the state `before` answers to an operation that finds
/// it held by another: nothing happens.
pub open spec fn refused<T, E>(
    before: SwitchState,
    after: SwitchState,
    reply: Result<T, Error<E>>,
) -> bool {
    &&& after == before
    &&& reply == Err::<T, Error<E>>(Error::CouldNotAcquireDevice)
}

/// What a select of `channels` does to an idle device of kind `variant` in
/// the state `before`, where the write of the effective mask returned
/// `written`: the mask is recorded if the write succeeded, and if not the
/// bus error is passed on and the recorded mask stays.
pub open spec fn selected<E>(
    variant: Variant,
    before: SwitchState,
    channels: u8,
    written: Result<(), E>,
    after: SwitchState,
    reply: Result<(), Error<E>>,
) -> bool {
    &&& after == before.acquire(SwitchState::selecting(variant, channels)).completed(written is Ok)
    &&& reply == passed_on(written)
}

/// What a status read does to an idle device of kind `variant` in the
/// state `before`, where the read of the control byte returned `outcome`:
/// the byte is decoded, as the status of the interrupts with `interrupts`
/// and else as that of the channels, and a bus error is passed on. The
/// state ends as it was.
pub open spec fn status_read<E>(
    variant: Variant,
    interrupts: bool,
    before: SwitchState,
    outcome: Result<u8, E>,
    after: SwitchState,
    reply: Result<u8, Error<E>>,
) -> bool {
    &&& after == before.acquire(SwitchState::asking(interrupts)).received()
    &&& reply == before.acquire(SwitchState::asking(interrupts)).received_reply(variant, outcome)
}

/// What a transfer behind whatever channels are enabled does to an idle
/// device in the state `before`, where the transfer returned `outcome`:
/// that is the answer, a bus error passed on. The state ends as it was.
pub open spec fn forwarded<E>(
    before: SwitchState,
    outcome: Result<(), E>,
    after: SwitchState,
    reply: Result<(), Error<E>>,
) -> bool {
    &&& after == before.acquire(before.routing(None)).completed(outcome is Ok)
    &&& reply == passed_on(outcome)
}

/// What a transfer behind the channels `mask` does to an idle device in
/// the state `before` whose select write failed with `written`: the
/// transfer does not take place, the bus error is passed on and the
/// recorded mask stays.
pub open spec fn select_failed<E>(
    before: SwitchState,
    mask: u8,
    written: Result<(), E>,
    after: SwitchState,
    reply: Result<(), Error<E>>,
) -> bool {
    &&& after == before.acquire(before.routing(Some(mask))).completed(false)
    &&& reply == passed_on(written)
}

/// What a transfer behind the channels `mask` does to an idle device in
/// the state `before`, where the transfer itself returned `outcome`, after
/// a select write that succeeded if one was due: `mask` is recorded, and
/// the outcome is the answer, a bus error passed on.
pub open spec fn routed<E>(
    before: SwitchState,
    mask: u8,
    outcome: Result<(), E>,
    after: SwitchState,
    reply: Result<(), Error<E>>,
) -> bool {
    &&& after == before.after_transfer(mask)
    &&& reply == passed_on(outcome)
}

/// Whatever the bus does, a whole operation leaves an idle device idle and
/// at its address. A select records the effective mask if its write
/// succeeded, a transfer through a handle records the mask of the handle
/// unless its select write failed, and nothing else changes the recorded
/// mask.
pub proof fn lemma_operations_end_where_they_began<E>(
    variant: Variant,
    before: SwitchState,
    channels: u8,
    mask: u8,
    interrupts: bool,
    written: Result<(), E>,
    outcome: Result<(), E>,
    read: Result<u8, E>,
    after: SwitchState,
    done: Result<(), Error<E>>,
    status: Result<u8, Error<E>>,
)
    requires
        before.idle(),
    ensures
        selected(variant, before, channels, written, after, done) ==> after == (SwitchState {
            selected: if written is Ok {
                variant.select(channels)
            } else {
                before.selected
            },
            ..before
        }),
        status_read(variant, interrupts, before, read, after, status) ==> after == before,
        forwarded(before, outcome, after, done) ==> after == before,
        select_failed(before, mask, written, after, done) ==> after == before,
        routed(before, mask, outcome, after, done) ==> after == (SwitchState {
            selected: mask,
            ..before
        }),
{
}

} // verus!
