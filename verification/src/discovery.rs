//! Telling the device's serial ports from the others.

use vstd::prelude::*;
use vstd::utf8::encode_utf8;
use crate::error::Error;

verus! {

/// How long a read waits for bytes unless told otherwise, in milliseconds.
pub const DEFAULT_TIMEOUT_MS: u64 = 10;

/// The speed of the line, in bits per second.
pub const BAUD_RATE: u32 = 115200;

/// A serial port as the operating system lists it.
#[derive(Debug, Clone, PartialEq, Eq)]
pub struct PortInfo {
    pub port_name: String,
    /// Vendor and product number, where it is a USB port.
    pub usb: Option<(u16, u16)>,
    /// The product's name, where the port gives one.
    pub product: Option<String>,
}

/// A port that the device was found at, and how long a read on it waits.
#[derive(Debug, Clone, PartialEq, Eq)]
pub struct AvailableDevice {
    pub port: PortInfo,
    pub timeout_ms: u64,
}

/// Whether a vendor and product number are those of the device.
pub open spec fn is_known_usb(vid: u16, pid: u16) -> bool {
    (vid == 12346 && pid == 4097) || (vid == 9114 && pid == 32784)
}

/// Whether a port's name begins with `/dev/tty`.
pub open spec fn is_tty_name(name: Seq<char>) -> bool {
    encode_utf8("/dev/tty"@).is_prefix_of(encode_utf8(name))
}

/// Whether a port is one of the device's: a USB port with a known vendor and
/// product number whose name begins with `/dev/tty`.
pub open spec fn is_device_port(port: PortInfo) -> bool {
    match port.usb {
        Some((vid, pid)) => is_known_usb(vid, pid) && is_tty_name(port.port_name@),
        None => false,
    }
}

/// Tells whether a port's name begins with `/dev/tty`.
pub fn has_tty_name(name: &str) -> (b: bool)
    ensures
        b == is_tty_name(name@),
{
    let prefix = "/dev/tty".as_bytes();
    let bytes = name.as_bytes();
    if bytes.len() < prefix.len() {
        return false;
    }
    let mut i: usize = 0;
    while i < prefix.len()
        invariant
            i <= prefix.len() <= bytes.len(),
            prefix@ == encode_utf8("/dev/tty"@),
            bytes@ == encode_utf8(name@),
            forall|k: int| 0 <= k < i ==> prefix@[k] == bytes@[k],
        decreases prefix.len() - i,
    {
        if prefix[i] != bytes[i] {
            return false;
        }
        i += 1;
    }
    assert(prefix@ =~= bytes@.subrange(0, prefix@.len() as int));
    true
}

/// Tells whether a port is one of the device's.
pub fn matches_device(port: &PortInfo) -> (b: bool)
    ensures
        b == is_device_port(*port),
{
    match port.usb {
        Some((vid, pid)) => ((vid == 12346 && pid == 4097) || (vid == 9114 && pid == 32784))
            && has_tty_name(port.port_name.as_str()),
        None => false,
    }
}

/// The device's ports among those listed, in the order of the list.
pub open spec fn device_ports(ports: Seq<PortInfo>) -> Seq<PortInfo>
    decreases ports.len(),
{
    if ports.len() == 0 {
        Seq::empty()
    } else if is_device_port(ports.last()) {
        device_ports(ports.drop_last()).push(ports.last())
    } else {
        device_ports(ports.drop_last())
    }
}

/// Each port as a device that is found there, with the default timeout.
pub open spec fn as_devices(ports: Seq<PortInfo>) -> Seq<AvailableDevice> {
    Seq::new(
        ports.len(),
        |i: int| AvailableDevice { port: ports[i], timeout_ms: DEFAULT_TIMEOUT_MS },
    )
}

/// Copies the description of a port.
fn copy_of(port: &PortInfo) -> (r: PortInfo)
    ensures
        r == *port,
{
    PortInfo {
        port_name: port.port_name.clone(),
        usb: port.usb,
        product: match &port.product {
            Some(name) => Some(name.clone()),
            None => None,
        },
    }
}

/// Picks the device's ports out of a list, in the order of the list.
pub fn enumerate(ports: &Vec<PortInfo>) -> (found: Vec<PortInfo>)
    ensures
        found@ == device_ports(ports@),
{
    let mut found: Vec<PortInfo> = Vec::new();
    let mut p: usize = 0;
    while p < ports.len()
        invariant
            p <= ports.len(),
            found@ == device_ports(ports@.take(p as int)),
        decreases ports.len() - p,
    {
        proof {
            assert(ports@.take(p + 1).drop_last() =~= ports@.take(p as int));
        }
        if matches_device(&ports[p]) {
            found.push(copy_of(&ports[p]));
        }
        p += 1;
    }
    proof {
        assert(ports@.take(p as int) =~= ports@);
    }
    found
}

/// Searches a list of ports for the device: every port of the device as a
/// device found, in the order of the list and with the default timeout; an
/// error where the list holds none.
pub fn discover(ports: &Vec<PortInfo>) -> (r: Result<Vec<AvailableDevice>, Error>)
    ensures
        device_ports(ports@).len() == 0 ==> r == Err::<Vec<AvailableDevice>, Error>(
            Error::NoDevicesFound,
        ),
        device_ports(ports@).len() > 0 ==> r is Ok && r->Ok_0@ == as_devices(device_ports(ports@)),
{
    let found = enumerate(ports);
    if found.len() == 0 {
        return Err(Error::NoDevicesFound);
    }
    let mut devices: Vec<AvailableDevice> = Vec::new();
    let mut i: usize = 0;
    while i < found.len()
        invariant
            i <= found.len(),
            devices@.len() == i,
            forall|k: int|
                0 <= k < i ==> #[trigger] devices@[k] == (AvailableDevice {
                    port: found@[k],
                    timeout_ms: DEFAULT_TIMEOUT_MS,
                }),
        decreases found.len() - i,
    {
        devices.push(AvailableDevice { port: copy_of(&found[i]), timeout_ms: DEFAULT_TIMEOUT_MS });
        i += 1;
    }
    assert(devices@ =~= as_devices(found@));
    Ok(devices)
}

impl AvailableDevice {
    /// Sets how long a read on the port waits, in milliseconds.
    pub fn set_timeout(&mut self, timeout_ms: u64)
        ensures
            final(self).timeout_ms == timeout_ms,
            final(self).port == old(self).port,
    {
        self.timeout_ms = timeout_ms;
    }

    /// The product's name, or `Unknown`, and the port's name, on two lines.
    pub open spec fn description(&self) -> Seq<char> {
        "Device: "@ + (match (self.port.usb, self.port.product) {
            (Some(_), Some(product)) => product@,
            _ => "Unknown"@,
        }) + " \nPort: "@ + self.port.port_name@
    }

    /// Describes the device for a reader.
    pub fn describe(&self) -> (r: String)
        ensures
            r@ == self.description(),
    {
        let mut out = "Device: ".to_owned();
        match (&self.port.usb, &self.port.product) {
            (Some(_), Some(product)) => out.append(product.as_str()),
            _ => out.append("Unknown"),
        }
        out.append(" \nPort: ");
        out.append(self.port.port_name.as_str());
        out
    }
}

} // verus!
