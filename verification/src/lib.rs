//! Driver logic for a two-port (ping/echo) ADI ultrasonic distance sensor.
//!
//! The sensor talks to the hardware through a native driver; everything the
//! driver decides in software is here: validating that the ping and echo
//! ports sit on the same port expander, turning the native sentinel failure
//! value into a typed error, and exposing the stored ports and the device
//! tag to a generic device registry. The native calls themselves are made by
//! the unverified shell around this crate, which hands their results in as
//! plain values.

pub mod device;
pub mod error;
pub mod port;
pub mod ultrasonic;
