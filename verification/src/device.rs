//! Trusted boundary to the PWM driver chip.
//!
//! The chip is a register-addressed I2C device reached through the `i2cdev`
//! crate. The library computes every register address and register value
//! itself in verified code; only the two SMBus calls below cross into the
//! outside crate, and nothing is promised of their outcome — whether a
//! transfer succeeds is the bus's and the device's decision.

use vstd::prelude::*;
use i2cdev::linux::{LinuxI2CDevice, LinuxI2CError};

verus! {

#[verifier::external_type_specification]
#[verifier::external_body]
pub struct ExLinuxI2CDevice(LinuxI2CDevice);

#[verifier::external_type_specification]
#[verifier::external_body]
pub struct ExLinuxI2CError(LinuxI2CError);

/// Relies on i2cdev's `LinuxI2CDevice::smbus_write_byte_data`: one SMBus
/// byte write of `value` to device register `register`. The device alone
/// decides success, so nothing is promised of the result.
#[verifier::external_body]
pub(crate) fn write_register(dev: &mut LinuxI2CDevice, register: u8, value: u8) -> Result<
    (),
    LinuxI2CError,
> {
    i2cdev::core::I2CDevice::smbus_write_byte_data(dev, register, value)
}

/// Relies on i2cdev's `LinuxI2CDevice::smbus_read_byte_data`: one SMBus
/// byte read of device register `register`. The device alone decides the
/// value and whether the transfer succeeds, so nothing is promised of the
/// result.
#[verifier::external_body]
pub(crate) fn read_register(dev: &mut LinuxI2CDevice, register: u8) -> Result<u8, LinuxI2CError> {
    i2cdev::core::I2CDevice::smbus_read_byte_data(dev, register)
}

} // verus!
