//! The error types of the GPIO and I2C layers.
//!
//! The drivers are handed such errors by their callers and pass them on inside
//! their own error types. They never look inside one.

use vstd::prelude::*;
use rppal::gpio::Error as GpioError;
use rppal::i2c::Error as I2cError;

verus! {

/// `rppal::gpio::Error`, the error of claiming or driving a GPIO line. Nothing
/// is claimed of its contents.
#[verifier::external_type_specification]
#[verifier::external_body]
pub struct ExGpioError(GpioError);

/// `rppal::i2c::Error`, the error of opening the I2C bus or writing to it.
/// Nothing is claimed of its contents.
#[verifier::external_type_specification]
#[verifier::external_body]
pub struct ExI2cError(I2cError);

} // verus!
