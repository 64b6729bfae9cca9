//! The serial link manager's decision rules.
//!
//! The OS layer enumerates the machine's serial ports; this module only
//! selects among them: the configured device is found when a discovered
//! port has exactly the configured name and is a USB port. Opening the
//! device and duplicating its handle are I/O and live outside the library.

use vstd::prelude::*;

verus! {

/// What kind of serial port the OS reported.
#[derive(Clone, Copy, Debug, PartialEq, Eq, Structural)]
pub enum PortKind {
    Usb,
    Bluetooth,
    Pci,
    Unknown,
}

/// One discovered serial port: its device name, its kind, and the
/// manufacturer and product strings when the OS knows them.
#[derive(Debug)]
pub struct PortInfo {
    pub name: String,
    pub kind: PortKind,
    pub manufacturer: Option<String>,
    pub product: Option<String>,
}

/// Why no port could be selected.
#[derive(Clone, Copy, Debug, PartialEq, Eq, Structural)]
pub enum DiscoveryError {
    /// The enumeration returned no ports at all.
    NoPorts,
    /// Ports were found, but none is a USB port with the configured name.
    PortNotFound,
}

/// Whether a discovered port is the configured device: a USB port whose
/// name equals the configured identifier.
pub open spec fn port_matches(p: PortInfo, configured: Seq<char>) -> bool {
    p.kind == PortKind::Usb && p.name@ == configured
}

impl PortKind {
    /// The kind's diagnostic label.
    pub fn label(&self) -> (r: String)
        ensures
            self is Usb ==> r@ == "USB"@,
            self is Bluetooth ==> r@ == "Bluetooth"@,
            self is Pci ==> r@ == "PCI"@,
            self is Unknown ==> r@ == "Unknown"@,
    {
        match self {
            PortKind::Usb => "USB".to_owned(),
            PortKind::Bluetooth => "Bluetooth".to_owned(),
            PortKind::Pci => "PCI".to_owned(),
            PortKind::Unknown => "Unknown".to_owned(),
        }
    }
}

/// Selects the first discovered port that is a USB port with the configured
/// name. Fails with `NoPorts` when nothing was discovered at all, and with
/// `PortNotFound` when ports exist but none matches; the caller then reports
/// every discovered port for diagnostics.
pub fn resolve(configured: &String, ports: &Vec<PortInfo>) -> (r: Result<usize, DiscoveryError>)
    ensures
        match r {
            Ok(i) => i < ports@.len() && port_matches(ports@[i as int], configured@) && forall|
                j: int,
            | 0 <= j < i ==> !port_matches(ports@[j], configured@),
            Err(DiscoveryError::NoPorts) => ports@.len() == 0,
            Err(DiscoveryError::PortNotFound) => ports@.len() > 0 && forall|j: int|
                0 <= j < ports@.len() ==> !port_matches(ports@[j], configured@),
        },
{
    if ports.len() == 0 {
        return Err(DiscoveryError::NoPorts);
    }
    let mut i: usize = 0;
    while i < ports.len()
        invariant
            i <= ports@.len(),
            forall|j: int| 0 <= j < i ==> !port_matches(ports@[j], configured@),
        decreases ports@.len() - i,
    {
        let p = &ports[i];
        let is_usb = match p.kind {
            PortKind::Usb => true,
            _ => false,
        };
        if is_usb && p.name == *configured {
            return Ok(i);
        }
        i = i + 1;
    }
    Err(DiscoveryError::PortNotFound)
}

} // verus!
