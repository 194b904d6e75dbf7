//! What the host reports of a serial port before the port is opened.

use vstd::prelude::*;

verus! {

/// How a serial port is attached to the host.
#[derive(Debug, Clone, PartialEq, Eq)]
pub enum Interface {
    /// Attached over USB. The two strings are what the device reports of
    /// itself; a device may report neither.
    Usb { manufacturer: Option<String>, product: Option<String> },
    /// A permanent port on the PCI bus.
    Pci,
    /// Attached over Bluetooth.
    Bluetooth,
    /// The host cannot tell how the port is attached.
    Unknown,
}

/// One serial port as the host lists it.
#[derive(Debug, Clone, PartialEq, Eq)]
pub struct PortDescriptor {
    /// The name under which the port is opened.
    pub port_name: String,
    /// How the port is attached.
    pub interface: Interface,
}

/// The mathematical value of an [`Interface`].
pub enum InterfaceView {
    Usb { manufacturer: Option<Seq<char>>, product: Option<Seq<char>> },
    Pci,
    Bluetooth,
    Unknown,
}

/// The mathematical value of a [`PortDescriptor`].
pub struct PortDescriptorView {
    pub port_name: Seq<char>,
    pub interface: InterfaceView,
}

/// The characters of a string that may be absent.
pub open spec fn text_of(text: Option<String>) -> Option<Seq<char>> {
    match text {
        Some(s) => Some(s@),
        None => None,
    }
}

impl View for Interface {
    type V = InterfaceView;

    open spec fn view(&self) -> InterfaceView {
        match *self {
            Interface::Usb { manufacturer, product } => InterfaceView::Usb {
                manufacturer: text_of(manufacturer),
                product: text_of(product),
            },
            Interface::Pci => InterfaceView::Pci,
            Interface::Bluetooth => InterfaceView::Bluetooth,
            Interface::Unknown => InterfaceView::Unknown,
        }
    }
}

impl View for PortDescriptor {
    type V = PortDescriptorView;

    open spec fn view(&self) -> PortDescriptorView {
        PortDescriptorView { port_name: self.port_name@, interface: self.interface@ }
    }
}

/// The values of a list of descriptors, in the order of the list.
pub open spec fn views_of(ports: Seq<PortDescriptor>) -> Seq<PortDescriptorView> {
    ports.map_values(|port: PortDescriptor| port@)
}

} // verus!
