//! Keeps the traits of the driver closed.

use crate::device_impl::Xca954xaData;
use crate::parts::{I2cSlave, Parts, Parts2, Parts4};
use crate::types::{Xca9543a, Xca9545a, Xca9548a};
use vstd::prelude::*;

verus! {

/// Closes the driver's traits to types of other crates.
pub trait Sealed {

}

impl<I2C> Sealed for Xca954xaData<I2C> {

}

impl<I2C> Sealed for Xca9548a<I2C> {

}

impl<I2C> Sealed for Xca9543a<I2C> {

}

impl<I2C> Sealed for Xca9545a<I2C> {

}

impl<DEV, I2C> Sealed for Parts<DEV, I2C> {

}

impl<DEV, I2C> Sealed for Parts2<DEV, I2C> {

}

impl<DEV, I2C> Sealed for Parts4<DEV, I2C> {

}

impl<DEV, I2C> Sealed for I2cSlave<DEV, I2C> {

}

} // verus!
