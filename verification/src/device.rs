//! The generic ADI device interface used by a device registry.

use vstd::prelude::*;

verus! {

/// The configuration tag a generic ADI device reports for itself.
#[derive(Debug, Clone, Copy, PartialEq, Eq)]
pub enum AdiDeviceType {
    AnalogIn,
    AnalogOut,
    DigitalIn,
    DigitalOut,
    LegacyGyro,
    LegacyServo,
    LegacyPwm,
    LegacyEncoder,
    LegacyUltrasonic,
}

/// Introspection every ADI device offers a generic device registry: which
/// port(s) it occupies, which expander those ports sit on, and its
/// configuration tag.
pub trait AdiDevice {
    /// The shape of the device's port indices: one index for a single-port
    /// device, a pair for a two-port device.
    type PortIndexOutput;

    /// The index (or indices) of the port(s) the device occupies.
    fn port_index(&self) -> Self::PortIndexOutput;

    /// The expander the device's ports sit on, `None` for the internal header.
    fn expander_port_index(&self) -> Option<u8>;

    /// The device's configuration tag.
    fn device_type(&self) -> AdiDeviceType;
}

} // verus!
