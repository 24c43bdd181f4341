//! The session: one run of the console reader, from the enumeration of the
//! attached devices to the endless relay of bulk transfers.
//!
//! A session decides and never acts. Each [`Step`] it hands out names one call
//! that the caller makes on its behalf; the outcome of that call comes back as
//! an [`Event`], and the session answers with the next step. The first failure
//! ends the session for good.

use crate::descriptor::{
    ConfigDescriptor, DeviceDescriptor, InterfaceDescriptorView, BUFFER_SIZE, READ_TIMEOUT_SECS,
};
use crate::endpoints::{endpoint_shape, validate_endpoints, EndpointPair};
use crate::error::{Fatal, UsbError};
use crate::locate::{
    console_setting, device_scan, find_device, find_interface_descriptor,
    first_console_setting_at,
};
use vstd::prelude::*;

verus! {

/// What a session has settled on once the configuration is inspected.
#[derive(Clone, Copy, Debug, PartialEq, Eq, Structural)]
pub struct Target {
    /// Index of the console in the enumeration.
    pub device: usize,
    /// Number of the console interface.
    pub interface_number: u8,
    /// The two endpoints of the console interface.
    pub endpoints: EndpointPair,
}

/// The state of a session. Each state but `Failed` waits for the outcome of
/// one call.
#[derive(Clone, Copy, Debug, PartialEq, Eq, Structural)]
pub enum Session {
    /// Waiting for the enumeration of the attached devices.
    Locating,
    /// The console is found. Waiting for its active configuration.
    Inspecting { device: usize },
    /// The console interface and its endpoints are found. Waiting for the
    /// device to be opened.
    Closed { target: Target },
    /// The device is open. Waiting for the kernel-driver query.
    Opened { target: Target },
    /// The kernel-driver query is answered. With `driver_active`, waiting for
    /// the driver to be detached; without, for the interface to be claimed.
    DriverChecked { target: Target, driver_active: bool },
    /// The interface is claimed. Waiting for a bulk transfer.
    Claimed { target: Target },
    /// A transfer has arrived. Waiting for its bytes to be written out.
    Forwarding { target: Target },
    /// The session has ended.
    Failed { fatal: Fatal },
}

/// The outcome of the call that the last step asked for.
#[derive(Debug, PartialEq, Eq)]
pub enum Event {
    /// The devices were enumerated: for each, in enumeration order, what
    /// reading its descriptor gave.
    Enumerated(Result<Vec<Result<DeviceDescriptor, UsbError>>, UsbError>),
    /// The active configuration of the console was read.
    Configured(Result<ConfigDescriptor, UsbError>),
    /// The console was opened.
    Opened(Result<(), UsbError>),
    /// The kernel-driver query was answered: whether a driver is active on the
    /// console interface.
    DriverQueried(Result<bool, UsbError>),
    /// The kernel driver was detached.
    Detached(Result<(), UsbError>),
    /// The console interface was claimed.
    InterfaceClaimed(Result<(), UsbError>),
    /// A bulk transfer returned, with the number of bytes received.
    Transferred(Result<usize, UsbError>),
    /// The received bytes were written to the output.
    Written(Result<(), ()>),
}

/// A call that the session asks its caller to make.
#[derive(Clone, Copy, Debug, PartialEq, Eq, Structural)]
pub enum Action {
    /// Enumerate the attached devices and read each one's descriptor.
    Enumerate,
    /// Read the active configuration of the device with this index in the
    /// enumeration.
    ReadConfig { device: usize },
    /// Open the device with this index in the enumeration.
    Open { device: usize },
    /// Ask whether a kernel driver is active on this interface.
    QueryDriver { interface: u8 },
    /// Detach the kernel driver from this interface.
    Detach { interface: u8 },
    /// Claim this interface.
    Claim { interface: u8 },
    /// Read from the endpoint with this address into a buffer of `capacity`
    /// bytes, blocking for at most `timeout_secs` seconds.
    Transfer { endpoint: u8, capacity: usize, timeout_secs: u64 },
    /// Write the first `len` bytes of the buffer to the output.
    Write { len: usize },
    /// Stop: the session has ended.
    Abort { fatal: Fatal },
}

/// A line for the operator.
#[derive(Clone, Copy, Debug, PartialEq, Eq, Structural)]
pub enum Notice {
    /// The console interface has the expected endpoints.
    EndpointsFound,
    /// A kernel driver is active on the console interface and is about to be
    /// detached.
    DetachingKernelDriver,
    /// The console interface is claimed.
    InterfaceClaimed,
}

/// The session's answer to an event: a line to show first, if any, and the
/// next call to make.
#[derive(Clone, Copy, Debug, PartialEq, Eq, Structural)]
pub struct Step {
    pub notice: Option<Notice>,
    pub action: Action,
}

/// What inspecting the active configuration `config` of the device with index
/// `device` settles: the console interface is located, then its endpoints are
/// validated.
pub open spec fn inspection(device: usize, config: Seq<Seq<InterfaceDescriptorView>>) -> Result<
    Target,
    Fatal,
> {
    match console_setting(config) {
        None => Err(Fatal::Interface(UsbError::NotFound)),
        Some((i, j)) => match endpoint_shape(config[i][j].endpoints) {
            Err(error) => Err(Fatal::Endpoints(error)),
            Ok(endpoints) => Ok(
                Target { device, interface_number: config[i][j].interface_number, endpoints },
            ),
        },
    }
}

/// Locates the console interface in `config` and validates its endpoints.
pub fn inspect(device: usize, config: &ConfigDescriptor) -> (r: Result<Target, Fatal>)
    ensures
        r == inspection(device, config@),
{
    match find_interface_descriptor(config) {
        Err(error) => Err(Fatal::Interface(error)),
        Ok(descriptor) => {
            proof {
                let (i, j) = console_setting(config@).unwrap();
                assert(first_console_setting_at(config@, i, j));
                assert(config@[i][j] == descriptor@);
            }
            match validate_endpoints(descriptor) {
                Err(error) => Err(Fatal::Endpoints(error)),
                Ok(endpoints) => Ok(
                    Target { device, interface_number: descriptor.interface_number, endpoints },
                ),
            }
        },
    }
}

/// The step that ends a session.
pub open spec fn abort(fatal: Fatal) -> (Session, Step) {
    (Session::Failed { fatal }, Step { notice: None, action: Action::Abort { fatal } })
}

/// The step that asks for the next bulk transfer.
pub open spec fn transfer(target: Target) -> Action {
    Action::Transfer {
        endpoint: target.endpoints.endpoint_in.address,
        capacity: BUFFER_SIZE,
        timeout_secs: READ_TIMEOUT_SECS,
    }
}

impl Session {
    /// The transition function: the state that follows `self` on `event`, and
    /// the step that the session answers with.
    ///
    /// An error in an event ends the session with the failure that names the
    /// call. So does an event that the state does not wait for.
    pub open spec fn spec_step(self, event: Event) -> (Session, Step) {
        match (self, event) {
            (Session::Failed { fatal }, _) => abort(fatal),
            (Session::Locating, Event::Enumerated(Err(error))) => abort(Fatal::Device(error)),
            (Session::Locating, Event::Enumerated(Ok(devices))) => match device_scan(devices@) {
                Err(error) => abort(Fatal::Device(error)),
                Ok(device) => (
                    Session::Inspecting { device },
                    Step { notice: None, action: Action::ReadConfig { device } },
                ),
            },
            (Session::Inspecting { device }, Event::Configured(Err(error))) => abort(
                Fatal::Configuration(error),
            ),
            (Session::Inspecting { device }, Event::Configured(Ok(config))) => match inspection(
                device,
                config@,
            ) {
                Err(fatal) => abort(fatal),
                Ok(target) => (
                    Session::Closed { target },
                    Step {
                        notice: Some(Notice::EndpointsFound),
                        action: Action::Open { device },
                    },
                ),
            },
            (Session::Closed { target }, Event::Opened(Err(error))) => abort(Fatal::Open(error)),
            (Session::Closed { target }, Event::Opened(Ok(_))) => (
                Session::Opened { target },
                Step {
                    notice: None,
                    action: Action::QueryDriver { interface: target.interface_number },
                },
            ),
            (Session::Opened { target }, Event::DriverQueried(Err(error))) => abort(
                Fatal::DriverQuery(error),
            ),
            (Session::Opened { target }, Event::DriverQueried(Ok(driver_active))) => (
                Session::DriverChecked { target, driver_active },
                if driver_active {
                    Step {
                        notice: Some(Notice::DetachingKernelDriver),
                        action: Action::Detach { interface: target.interface_number },
                    }
                } else {
                    Step {
                        notice: None,
                        action: Action::Claim { interface: target.interface_number },
                    }
                },
            ),
            (
                Session::DriverChecked { target, driver_active: true },
                Event::Detached(Err(error)),
            ) => abort(Fatal::Detach(error)),
            (Session::DriverChecked { target, driver_active: true }, Event::Detached(Ok(_))) => (
                Session::DriverChecked { target, driver_active: false },
                Step {
                    notice: None,
                    action: Action::Claim { interface: target.interface_number },
                },
            ),
            (
                Session::DriverChecked { target, driver_active: false },
                Event::InterfaceClaimed(Err(error)),
            ) => abort(Fatal::Claim(error)),
            (
                Session::DriverChecked { target, driver_active: false },
                Event::InterfaceClaimed(Ok(_)),
            ) => (
                Session::Claimed { target },
                Step { notice: Some(Notice::InterfaceClaimed), action: transfer(target) },
            ),
            (Session::Claimed { target }, Event::Transferred(Err(error))) => abort(
                Fatal::Transfer(error),
            ),
            (Session::Claimed { target }, Event::Transferred(Ok(len))) => if len <= BUFFER_SIZE {
                (
                    Session::Forwarding { target },
                    Step { notice: None, action: Action::Write { len } },
                )
            } else {
                abort(Fatal::Transfer(UsbError::Overflow))
            },
            (Session::Forwarding { target }, Event::Written(Err(_))) => abort(Fatal::Output),
            (Session::Forwarding { target }, Event::Written(Ok(_))) => (
                Session::Claimed { target },
                Step { notice: None, action: transfer(target) },
            ),
            _ => abort(Fatal::UnexpectedEvent),
        }
    }

    /// Begins a session: nothing is known yet, and the first call is the
    /// enumeration.
    pub fn start() -> (r: (Session, Step))
        ensures
            r == (Session::Locating, Step { notice: None, action: Action::Enumerate }),
    {
        (Session::Locating, Step { notice: None, action: Action::Enumerate })
    }

    /// Takes the outcome of the call that the last step asked for, moves to
    /// the next state and answers with the next step.
    pub fn step(&mut self, event: Event) -> (r: Step)
        ensures
            (*final(self), r) == old(self).spec_step(event),
    {
        let (next, step) = match *self {
            Session::Failed { fatal } => fail(fatal),
            Session::Locating => match event {
                Event::Enumerated(Err(error)) => fail(Fatal::Device(error)),
                Event::Enumerated(Ok(devices)) => match find_device(devices.as_slice()) {
                    Err(error) => fail(Fatal::Device(error)),
                    Ok(device) => (
                        Session::Inspecting { device },
                        Step { notice: None, action: Action::ReadConfig { device } },
                    ),
                },
                _ => fail(Fatal::UnexpectedEvent),
            },
            Session::Inspecting { device } => match event {
                Event::Configured(Err(error)) => fail(Fatal::Configuration(error)),
                Event::Configured(Ok(config)) => match inspect(device, &config) {
                    Err(fatal) => fail(fatal),
                    Ok(target) => (
                        Session::Closed { target },
                        Step {
                            notice: Some(Notice::EndpointsFound),
                            action: Action::Open { device },
                        },
                    ),
                },
                _ => fail(Fatal::UnexpectedEvent),
            },
            Session::Closed { target } => match event {
                Event::Opened(Err(error)) => fail(Fatal::Open(error)),
                Event::Opened(Ok(_)) => (
                    Session::Opened { target },
                    Step {
                        notice: None,
                        action: Action::QueryDriver { interface: target.interface_number },
                    },
                ),
                _ => fail(Fatal::UnexpectedEvent),
            },
            Session::Opened { target } => match event {
                Event::DriverQueried(Err(error)) => fail(Fatal::DriverQuery(error)),
                Event::DriverQueried(Ok(driver_active)) => {
                    let step = if driver_active {
                        Step {
                            notice: Some(Notice::DetachingKernelDriver),
                            action: Action::Detach { interface: target.interface_number },
                        }
                    } else {
                        Step {
                            notice: None,
                            action: Action::Claim { interface: target.interface_number },
                        }
                    };
                    (Session::DriverChecked { target, driver_active }, step)
                },
                _ => fail(Fatal::UnexpectedEvent),
            },
            Session::DriverChecked { target, driver_active } => match event {
                Event::Detached(outcome) if driver_active => match outcome {
                    Err(error) => fail(Fatal::Detach(error)),
                    Ok(_) => (
                        Session::DriverChecked { target, driver_active: false },
                        Step {
                            notice: None,
                            action: Action::Claim { interface: target.interface_number },
                        },
                    ),
                },
                Event::InterfaceClaimed(outcome) if !driver_active => match outcome {
                    Err(error) => fail(Fatal::Claim(error)),
                    Ok(_) => (
                        Session::Claimed { target },
                        Step {
                            notice: Some(Notice::InterfaceClaimed),
                            action: next_transfer(&target),
                        },
                    ),
                },
                _ => fail(Fatal::UnexpectedEvent),
            },
            Session::Claimed { target } => match event {
                Event::Transferred(Err(error)) => fail(Fatal::Transfer(error)),
                Event::Transferred(Ok(len)) => if len <= BUFFER_SIZE {
                    (
                        Session::Forwarding { target },
                        Step { notice: None, action: Action::Write { len } },
                    )
                } else {
                    fail(Fatal::Transfer(UsbError::Overflow))
                },
                _ => fail(Fatal::UnexpectedEvent),
            },
            Session::Forwarding { target } => match event {
                Event::Written(Err(_)) => fail(Fatal::Output),
                Event::Written(Ok(_)) => (
                    Session::Claimed { target },
                    Step { notice: None, action: next_transfer(&target) },
                ),
                _ => fail(Fatal::UnexpectedEvent),
            },
        };
        *self = next;
        step
    }
}

/// The bytes that a transfer of `len` bytes into `buffer` delivered.
pub open spec fn delivered(buffer: Seq<u8>, len: usize) -> Option<Seq<u8>> {
    if len <= buffer.len() {
        Some(buffer.take(len as int))
    } else {
        None
    }
}

/// The part of `buffer` that a transfer of `len` bytes filled: its first `len`
/// bytes, and nothing where the buffer is shorter than that.
pub fn received(buffer: &[u8], len: usize) -> (r: Option<&[u8]>)
    ensures
        match r {
            Some(bytes) => delivered(buffer@, len) == Some(bytes@),
            None => delivered(buffer@, len).is_none(),
        },
{
    if len <= buffer.len() {
        Some(vstd::slice::slice_subrange(buffer, 0, len))
    } else {
        None
    }
}

impl Notice {
    /// The line for the operator, as a sequence of characters.
    pub open spec fn spec_text(self) -> Seq<char> {
        match self {
            Notice::EndpointsFound => "found serial console endpoints!"@,
            Notice::DetachingKernelDriver => "detaching kernel driver for serial console"@,
            Notice::InterfaceClaimed => "claimed serial console interface"@,
        }
    }

    /// The line for the operator.
    pub fn text(&self) -> (r: &'static str)
        ensures
            r@ == self.spec_text(),
    {
        match self {
            Notice::EndpointsFound => "found serial console endpoints!",
            Notice::DetachingKernelDriver => "detaching kernel driver for serial console",
            Notice::InterfaceClaimed => "claimed serial console interface",
        }
    }
}

/// Ends a session with `fatal`.
fn fail(fatal: Fatal) -> (r: (Session, Step))
    ensures
        r == abort(fatal),
{
    (Session::Failed { fatal }, Step { notice: None, action: Action::Abort { fatal } })
}

/// The request for the next bulk transfer from the IN endpoint of `target`.
fn next_transfer(target: &Target) -> (r: Action)
    ensures
        r == transfer(*target),
{
    Action::Transfer {
        endpoint: target.endpoints.endpoint_in.address,
        capacity: BUFFER_SIZE,
        timeout_secs: READ_TIMEOUT_SECS,
    }
}

} // verus!
