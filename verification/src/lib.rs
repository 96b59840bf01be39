//! Wire formats and flight-control decisions shared by the quadcopter's ground station and
//! firmware, with their contracts proved by Verus.
use vstd::prelude::*;
use vstd::string::StringSliceAdditionalSpecFns;

pub mod bytes;
pub mod calibrate;
pub mod config;
pub mod control;
pub mod flight;
pub mod offsets;
pub mod pwm;
pub mod record;
pub mod sensors;

verus! {

/// Name of the flight controller's WiFi access point.
pub const SSID_DEFAULT: &'static str = "esp-quad";
/// Address of the flight controller on its own network, where no other is configured.
pub const GW_IP_DEFAULT: &'static str = "192.168.4.1";
/// UDP port of the control link, where no other is configured.
pub const UDP_PORT_DEFAULT: u16 = 4444;

/// The UDP port of the control link: the configured `UDP_PORT` setting where there is one,
/// else the default.
///
/// A setting that is not a `u16` numeral is a configuration error that callers reject before
/// asking.
pub fn get_port(udp_port: Option<&str>) -> (r: u16)
    requires
        udp_port matches Some(s) ==> config::parse_u16_spec(s.spec_bytes()) is Some,
    ensures
        r == (match udp_port {
            Some(s) => config::parse_u16_spec(s.spec_bytes()).unwrap(),
            None => UDP_PORT_DEFAULT,
        }),
        udp_port is None ==> r == 4444,
{
    match udp_port {
        Some(s) => match config::parse_port(s) {
            Some(p) => p,
            None => UDP_PORT_DEFAULT,
        },
        None => UDP_PORT_DEFAULT,
    }
}

} // verus!
