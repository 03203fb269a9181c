//! Verified driver core for the TCA954xA and PCA954xA I2C
//! switches/multiplexers.
//!
//! The devices have two to eight downstream channels that are enabled by the
//! bits of one control register. The TCA9545/3A and PCA9545/3A also report an
//! interrupt input per channel in the high nibble of that register.
//!
//! The driver allows you to:
//! - Enable one or multiple I2C channels. See `select_channels()`.
//! - Communicate with the slaves connected to the enabled channels
//!   transparently. See `transaction()`.
//! - Split the device into slave (virtual) I2C devices (one per channel),
//!   which select their channel whenever another one is selected.
//!   See `split()`.
//!
//! The driver owns the bus but knows nothing of it: the caller hands in what
//! writes a byte, what reads a byte and what a transfer does, and the
//! driver decides when each of them is lent the bus and what becomes of the
//! outcome. An operation can also be taken step by step: it is begun, which
//! answers with the [`Command`] to put on the bus, and the outcome of each
//! command is reported with `completed` or `received`, which answers with
//! the next command or with the result. Either way an operation holds the
//! device from its beginning to its end, and whatever else is begun on the
//! device meanwhile is refused with [`Error::CouldNotAcquireDevice`].
//!
//! - [`register`] describes the control register of each device.
//! - [`switch`] describes what the driver knows of a device and how each
//!   step of an operation changes it.
//! - [`bus`] describes the whole operations in terms of the calls that they
//!   make on the bus.

use vstd::prelude::*;

mod arbiter;
pub mod bus;
pub mod device_impl;
pub mod parts;
mod private;
pub mod register;
pub mod switch;
pub mod types;

pub use crate::device_impl::{DoOnAcquired, SelectChannels, Xca954xaData};
pub use crate::parts::{I2cSlave, Parts, Parts2, Parts4};
pub use crate::register::Variant;
pub use crate::switch::{Command, Pending, SwitchState};
pub use crate::types::{Error, SlaveAddr, Xca9543a, Xca9545a, Xca9548a};

verus! {

/// Address of the devices when all address pins are tied low.
pub const DEVICE_BASE_ADDRESS: u8 = 0b111_0000;

} // verus!
