//! Snapshots of USB descriptors, as plain values, and the fixed identity of the
//! console.

use vstd::prelude::*;

verus! {

/// Vendor ID of the console device.
pub const VENDOR_ID: u16 = 0x1209;

/// Product ID of the console device.
pub const PRODUCT_ID: u16 = 0x8b00;

/// Class code of the console interface (vendor-specific).
pub const INTERFACE_CLASS: u8 = 0xFF;

/// Subclass code of the console interface.
pub const INTERFACE_SUB_CLASS: u8 = 0x00;

/// Size in bytes of the buffer that each bulk transfer reads into.
pub const BUFFER_SIZE: usize = 0x8000;

/// Timeout of each bulk transfer, in seconds.
pub const READ_TIMEOUT_SECS: u64 = 10000;

/// The identifying fields of a device descriptor.
#[derive(Clone, Copy, Debug, PartialEq, Eq, Structural)]
pub struct DeviceDescriptor {
    pub vendor_id: u16,
    pub product_id: u16,
}

impl DeviceDescriptor {
    /// Whether this descriptor carries the console's vendor and product ID.
    pub open spec fn is_console(self) -> bool {
        self.vendor_id == VENDOR_ID && self.product_id == PRODUCT_ID
    }

    /// Tells whether this is the descriptor of the console device.
    pub fn matches_console(&self) -> (r: bool)
        ensures
            r == self.is_console(),
    {
        self.vendor_id == VENDOR_ID && self.product_id == PRODUCT_ID
    }
}

/// Direction of an endpoint, seen from the host.
#[derive(Clone, Copy, Debug, PartialEq, Eq, Structural)]
pub enum Direction {
    /// Device to host.
    In,
    /// Host to device.
    Out,
}

/// Transfer type of an endpoint.
#[derive(Clone, Copy, Debug, PartialEq, Eq, Structural)]
pub enum TransferType {
    Control,
    Isochronous,
    Bulk,
    Interrupt,
}

/// One endpoint of an interface.
#[derive(Clone, Copy, Debug, PartialEq, Eq, Structural)]
pub struct EndpointDescriptor {
    /// The address that transfer calls take.
    pub address: u8,
    pub direction: Direction,
    pub transfer_type: TransferType,
}

/// One alternate setting of an interface, with its endpoints in descriptor
/// order.
#[derive(Clone, Debug, PartialEq, Eq)]
pub struct InterfaceDescriptor {
    pub interface_number: u8,
    pub class_code: u8,
    pub sub_class_code: u8,
    pub endpoints: Vec<EndpointDescriptor>,
}

/// The mathematical value of an [`InterfaceDescriptor`].
pub struct InterfaceDescriptorView {
    pub interface_number: u8,
    pub class_code: u8,
    pub sub_class_code: u8,
    pub endpoints: Seq<EndpointDescriptor>,
}

impl InterfaceDescriptorView {
    /// Whether the class and subclass codes are those of the console interface.
    pub open spec fn is_console(self) -> bool {
        self.class_code == INTERFACE_CLASS && self.sub_class_code == INTERFACE_SUB_CLASS
    }
}

impl View for InterfaceDescriptor {
    type V = InterfaceDescriptorView;

    open spec fn view(&self) -> InterfaceDescriptorView {
        InterfaceDescriptorView {
            interface_number: self.interface_number,
            class_code: self.class_code,
            sub_class_code: self.sub_class_code,
            endpoints: self.endpoints@,
        }
    }
}

impl InterfaceDescriptor {
    /// Tells whether this is a setting of the console interface.
    pub fn matches_console(&self) -> (r: bool)
        ensures
            r == self@.is_console(),
    {
        self.class_code == INTERFACE_CLASS && self.sub_class_code == INTERFACE_SUB_CLASS
    }
}

/// An interface: its alternate settings in descriptor order.
#[derive(Clone, Debug, PartialEq, Eq)]
pub struct Interface {
    pub descriptors: Vec<InterfaceDescriptor>,
}

impl View for Interface {
    type V = Seq<InterfaceDescriptorView>;

    open spec fn view(&self) -> Seq<InterfaceDescriptorView> {
        Seq::new(self.descriptors@.len(), |j: int| self.descriptors@[j]@)
    }
}

/// A configuration: its interfaces in descriptor order.
#[derive(Clone, Debug, PartialEq, Eq)]
pub struct ConfigDescriptor {
    pub interfaces: Vec<Interface>,
}

impl View for ConfigDescriptor {
    type V = Seq<Seq<InterfaceDescriptorView>>;

    open spec fn view(&self) -> Seq<Seq<InterfaceDescriptorView>> {
        Seq::new(self.interfaces@.len(), |i: int| self.interfaces@[i]@)
    }
}

} // verus!
