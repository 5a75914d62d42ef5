//! Board support for an add-on board with RGB status lights, touch buttons,
//! a piezo buzzer, a chain of addressable RGB LEDs and a four-digit
//! alphanumeric display.
//!
//! The drivers hold every buffer and flag of a device and decide what has to be
//! sent to it. They never touch a pin or a bus themselves. Before an operation
//! that may reach the hardware, the caller asks the driver whether the device
//! still has to be acquired, acquires it if so, and hands the outcome to the
//! operation. The operation updates the driver and returns what the caller has
//! to send, which is nothing while the device is simulated.

pub mod alphanum4;
pub mod apa102;
pub mod brightness;
pub mod buzzer;
pub mod hardware;
pub mod ht16k33;
pub mod lifecycle;
pub mod lights;
pub mod touch;
pub mod wire;
