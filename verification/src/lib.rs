pub mod blocklist;
pub mod decimal;
pub mod decision;
pub mod geoip;

use vstd::prelude::*;

verus! {

/// A client IP address, as the transport layer hands it over: either the
/// 32 bits of an IPv4 address or the 128 bits of an IPv6 address.
#[derive(Clone, Copy, Debug, PartialEq, Eq, Structural)]
pub enum Ip {
    V4(u32),
    V6(u128),
}

} // verus!
