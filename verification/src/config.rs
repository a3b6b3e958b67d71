//! The settings that the service starts with, from what the environment
//! holds of them.

use vstd::prelude::*;
use vstd::string::*;

use crate::text::{decimal, decimal_text, parse_u16, u16_named};

verus! {

/// The port that is listened on when none is set.
pub const DEFAULT_PORT: u16 = 3000;

/// The characters of an optional setting.
pub open spec fn setting_text(set: Option<String>) -> Option<Seq<char>> {
    match set {
        Some(t) => Some(t@),
        None => None,
    }
}

/// A setting, or its default where it is not set.
pub fn setting_or(set: Option<String>, default: &str) -> (value: String)
    ensures
        value@ == match set {
            Some(t) => t@,
            None => default@,
        },
{
    match set {
        Some(t) => t,
        None => default.to_owned(),
    }
}

/// The address to listen on: every interface where none is set.
pub fn address_or_default(set: Option<String>) -> (address: String)
    ensures
        address@ == match set {
            Some(t) => t@,
            None => "0.0.0.0"@,
        },
{
    setting_or(set, "0.0.0.0")
}

/// The region of the object store: `us-east-1` where none is set.
pub fn region_or_default(set: Option<String>) -> (region: String)
    ensures
        region@ == match set {
            Some(t) => t@,
            None => "us-east-1"@,
        },
{
    setting_or(set, "us-east-1")
}

/// The port to listen on: 3000 where none is set, and none where what is
/// set is not a port number.
pub fn port_or_default(set: Option<String>) -> (port: Option<u16>)
    ensures
        port == match set {
            Some(t) => u16_named(t@),
            None => Some(DEFAULT_PORT),
        },
{
    match set {
        Some(t) => parse_u16(t.as_str()),
        None => Some(DEFAULT_PORT),
    }
}

/// The socket address to bind: the address, a colon, the port.
pub fn bind_address(address: &str, port: u16) -> (bind: String)
    ensures
        bind@ == address@ + ":"@ + decimal_text(port as nat),
{
    let mut bind: String = address.to_owned();
    bind.append(":");
    bind.append(decimal(port as u64).as_str());
    bind
}

} // verus!
