//! The bridge's static configuration and its documented defaults.
//!
//! A configuration names the WebSocket endpoint, the serial device and the
//! baud rate. When no configuration source is present the bridge falls back
//! to the loopback endpoint, the platform's usual USB serial device name,
//! and 115200 baud. Loading a configuration file is outside the library;
//! the values alone are consumed here.

use vstd::prelude::*;

verus! {

/// The default baud rate of the serial link.
pub const DEFAULT_BAUD: u32 = 115200;

/// Seconds slept in the backoff state between reconnect attempts.
pub const BACKOFF_SECS: u64 = 5;

/// Milliseconds after which a serial read on the master side times out.
pub const MASTER_READ_TIMEOUT_MS: u64 = 50;

/// Seconds after which a serial read on the slave side times out.
pub const SLAVE_READ_TIMEOUT_SECS: u64 = 3600;

/// The bridge's static configuration: WebSocket endpoint, serial device
/// name, and baud rate.
#[derive(Clone, Debug)]
pub struct ProxyConfig {
    pub url: String,
    pub serial_port: String,
    pub serial_baud: u32,
}

impl ProxyConfig {
    /// The documented defaults, used when no configuration source exists:
    /// the loopback endpoint, the platform's usual USB serial device name,
    /// and the default baud rate.
    pub fn fallback(windows: bool) -> (r: ProxyConfig)
        ensures
            r.url@ == "ws://127.0.0.1:5810/nt/usb-proxy"@,
            windows ==> r.serial_port@ == "COM3"@,
            !windows ==> r.serial_port@ == "/dev/ttyUSB0"@,
            r.serial_baud == DEFAULT_BAUD,
    {
        ProxyConfig {
            url: "ws://127.0.0.1:5810/nt/usb-proxy".to_owned(),
            serial_port: if windows {
                "COM3".to_owned()
            } else {
                "/dev/ttyUSB0".to_owned()
            },
            serial_baud: DEFAULT_BAUD,
        }
    }
}

/// The fixed device name of the slave side's serial endpoint, which is not
/// discovered by enumeration.
pub fn slave_port_name() -> (r: String)
    ensures
        r@ == "/dev/ttyGS0"@,
{
    "/dev/ttyGS0".to_owned()
}

} // verus!
