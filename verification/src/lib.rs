//! Decision logic of a USB serial-console reader.
//!
//! The console is a vendor-specific bulk interface on one fixed USB device. This
//! crate holds everything that is decided on the way from "list the attached
//! devices" to "stream the bytes of the bulk IN endpoint": which device is the
//! console, which interface of its active configuration carries the stream,
//! whether that interface has the expected pair of bulk endpoints, in which
//! order the device is opened, freed from a kernel driver and claimed, and which
//! bytes of each transfer go to the output.
//!
//! Nothing here touches a device. Descriptors come in as plain snapshots, and the
//! [`Session`] state machine names each call that the caller has to make and
//! takes the call's outcome back as an [`Event`].

pub mod descriptor;
pub mod endpoints;
pub mod error;
pub mod locate;
pub mod relay;
pub mod run;
pub mod session;

pub use descriptor::{
    ConfigDescriptor, DeviceDescriptor, Direction, EndpointDescriptor, Interface,
    InterfaceDescriptor, TransferType, BUFFER_SIZE, INTERFACE_CLASS, INTERFACE_SUB_CLASS,
    PRODUCT_ID, READ_TIMEOUT_SECS, VENDOR_ID,
};
pub use endpoints::{endpoint_shape, validate_endpoints, EndpointPair};
pub use error::{EndpointError, Fatal, UsbError};
pub use locate::{console_setting, device_scan, find_device, find_interface_descriptor};
pub use session::{inspect, received, Action, Event, Notice, Session, Step, Target};
