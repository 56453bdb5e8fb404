//! The ADI ultrasonic sensor: two ports (ping and echo) and a native handle.

use vstd::prelude::*;

use crate::device::{AdiDevice, AdiDeviceType};
use crate::error::{AdiError, PROS_ERR};
use crate::port::AdiPort;

verus! {

/// An ADI ultrasonic sensor. It occupies two ports, one for pinging and one
/// for listening for the response, and holds the handle the native driver
/// returned when the sensor was initialized.
#[derive(Debug, PartialEq, Eq)]
pub struct AdiUltrasonic {
    raw: i32,
    port_ping: AdiPort,
    port_echo: AdiPort,
}

impl AdiUltrasonic {
    /// The handle the native driver returned at initialization.
    pub closed spec fn spec_raw(self) -> i32 {
        self.raw
    }

    /// The stored ping port.
    pub closed spec fn spec_port_ping(self) -> AdiPort {
        self.port_ping
    }

    /// The stored echo port.
    pub closed spec fn spec_port_echo(self) -> AdiPort {
        self.port_echo
    }

    /// Whether two ports belong to the same port expander, as the native
    /// driver addresses expanders.
    pub open spec fn ports_match(ping: AdiPort, echo: AdiPort) -> bool {
        ping.spec_internal_expander_index() == echo.spec_internal_expander_index()
    }

    /// Create a new ultrasonic sensor from a ping and echo [`AdiPort`] and
    /// the handle the native initialization call returned for them.
    ///
    /// The caller performs the native initialization and hands its result in
    /// as `raw`. Ports on different expanders are rejected before any handle
    /// is looked at; the native sentinel failure value is rejected next; any
    /// other handle is stored together with both ports.
    pub fn new(ports: (AdiPort, AdiPort), raw: i32) -> (r: Result<AdiUltrasonic, AdiError>)
        ensures
            !Self::ports_match(ports.0, ports.1) ==> r == Err::<AdiUltrasonic, AdiError>(
                AdiError::ExpanderPortMismatch,
            ),
            Self::ports_match(ports.0, ports.1) && raw == PROS_ERR ==> r == Err::<
                AdiUltrasonic,
                AdiError,
            >(AdiError::NativeFailure),
            Self::ports_match(ports.0, ports.1) && raw != PROS_ERR ==> (r matches Ok(u)
                && u.spec_raw() == raw && u.spec_port_ping() == ports.0 && u.spec_port_echo()
                == ports.1),
    {
        let port_ping = ports.0;
        let port_echo = ports.1;

        if port_ping.internal_expander_index() != port_echo.internal_expander_index() {
            return Err(AdiError::ExpanderPortMismatch);
        }

        if raw == PROS_ERR {
            return Err(AdiError::NativeFailure);
        }

        Ok(AdiUltrasonic { raw, port_ping, port_echo })
    }

    /// Turn a raw reading of the native driver into a typed result. The
    /// reading is in ten-thousandths of a meter; the sentinel failure value
    /// becomes an error, every other reading is returned as it is.
    pub fn raw_distance(&self, reading: i32) -> (r: Result<i32, AdiError>)
        ensures
            reading == PROS_ERR ==> r == Err::<i32, AdiError>(AdiError::NativeFailure),
            reading != PROS_ERR ==> r == Ok::<i32, AdiError>(reading),
    {
        if reading == PROS_ERR {
            return Err(AdiError::NativeFailure);
        }
        Ok(reading)
    }

    /// The handle the native driver returned at initialization, for the
    /// caller to read the sensor with.
    pub fn raw_handle(&self) -> (r: i32)
        ensures
            r == self.spec_raw(),
    {
        self.raw
    }
}

impl AdiDevice for AdiUltrasonic {
    type PortIndexOutput = (u8, u8);

    /// The (ping, echo) port indices, exactly as supplied at construction.
    fn port_index(&self) -> (r: (u8, u8))
        ensures
            r.0 == self.spec_port_ping().spec_index(),
            r.1 == self.spec_port_echo().spec_index(),
    {
        (self.port_ping.index(), self.port_echo.index())
    }

    /// The expander the sensor's ports sit on, read off the ping port.
    fn expander_port_index(&self) -> (r: Option<u8>)
        ensures
            r == self.spec_port_ping().spec_expander_index(),
    {
        self.port_ping.expander_index()
    }

    /// Always the ultrasonic tag, whatever the ports are.
    fn device_type(&self) -> (r: AdiDeviceType)
        ensures
            r == AdiDeviceType::LegacyUltrasonic,
    {
        AdiDeviceType::LegacyUltrasonic
    }
}

} // verus!
