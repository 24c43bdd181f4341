//! Error values: what the USB access layer reports, and what ends a session.

use vstd::prelude::*;

verus! {

/// An error kind reported by the USB access layer.
#[derive(Clone, Copy, Debug, PartialEq, Eq, Structural)]
pub enum UsbError {
    /// Success (no error).
    Success,
    /// Input/output error.
    Io,
    /// Invalid parameter.
    InvalidParam,
    /// Access denied (insufficient permissions).
    Access,
    /// No such device (it may have been disconnected).
    NoDevice,
    /// Entity not found.
    NotFound,
    /// Resource busy.
    Busy,
    /// Operation timed out.
    Timeout,
    /// Overflow: more data arrived than was asked for.
    Overflow,
    /// Pipe error.
    Pipe,
    /// System call interrupted.
    Interrupted,
    /// Insufficient memory.
    NoMem,
    /// Operation not supported on this platform.
    NotSupported,
    /// Any other error.
    Other,
}

/// Why the endpoints of an interface are not the expected pair.
#[derive(Clone, Copy, Debug, PartialEq, Eq, Structural)]
pub enum EndpointError {
    /// The interface has fewer than two endpoints.
    MissingEndpoint,
    /// The interface has more than two endpoints.
    ExtraEndpoint,
    /// The first endpoint is not OUT, or the second is not IN.
    WrongDirection,
    /// One of the two endpoints is not a bulk endpoint.
    WrongTransferType,
}

/// What ended a session. Every variant is final: nothing is retried.
#[derive(Clone, Copy, Debug, PartialEq, Eq, Structural)]
pub enum Fatal {
    /// The console device was not found: the enumeration failed, a device
    /// descriptor could not be read, or no attached device is the console.
    Device(UsbError),
    /// The active configuration of the console device could not be read.
    Configuration(UsbError),
    /// No interface of the active configuration is the console interface.
    Interface(UsbError),
    /// The console interface does not have the expected endpoints.
    Endpoints(EndpointError),
    /// The device could not be opened.
    Open(UsbError),
    /// The kernel-driver query failed.
    DriverQuery(UsbError),
    /// The kernel driver could not be detached.
    Detach(UsbError),
    /// The interface could not be claimed.
    Claim(UsbError),
    /// A bulk transfer failed.
    Transfer(UsbError),
    /// The received bytes could not be written to the output.
    Output,
    /// An event arrived that answers no call the session was waiting for.
    UnexpectedEvent,
}

impl Fatal {
    /// The diagnostic for the operator, as a sequence of characters.
    pub open spec fn spec_message(self) -> Seq<char> {
        match self {
            Fatal::Device(_) => "could not find serial console device"@,
            Fatal::Configuration(_) => "could not read active configuration"@,
            Fatal::Interface(_) => "could not find serial console interface"@,
            Fatal::Endpoints(_) => "unexpected serial console endpoints"@,
            Fatal::Open(_) => "could not open serial console device"@,
            Fatal::DriverQuery(_) => "could not query kernel driver for serial console"@,
            Fatal::Detach(_) => "could not detach kernel driver for serial console"@,
            Fatal::Claim(_) => "could not claim serial console interface"@,
            Fatal::Transfer(_) => "could not read from serial console"@,
            Fatal::Output => "could not write to output"@,
            Fatal::UnexpectedEvent => "unexpected event"@,
        }
    }

    /// The diagnostic for the operator. It names the step that failed, not the
    /// error inside.
    pub fn message(&self) -> (r: &'static str)
        ensures
            r@ == self.spec_message(),
    {
        match self {
            Fatal::Device(_) => "could not find serial console device",
            Fatal::Configuration(_) => "could not read active configuration",
            Fatal::Interface(_) => "could not find serial console interface",
            Fatal::Endpoints(_) => "unexpected serial console endpoints",
            Fatal::Open(_) => "could not open serial console device",
            Fatal::DriverQuery(_) => "could not query kernel driver for serial console",
            Fatal::Detach(_) => "could not detach kernel driver for serial console",
            Fatal::Claim(_) => "could not claim serial console interface",
            Fatal::Transfer(_) => "could not read from serial console",
            Fatal::Output => "could not write to output",
            Fatal::UnexpectedEvent => "unexpected event",
        }
    }
}

} // verus!
