//! Client addresses as plain values.
//!
//! The lookup filter extracts a candidate address from a request header and
//! parses it; a malformed candidate is a per-request lookup error, never a
//! fatal one. The parsed address is carried as octets or groups so that the
//! rest of the logic works on plain values.

use vstd::prelude::*;

verus! {

/// A client address: the four octets of an IPv4 address or the eight groups
/// of an IPv6 address.
#[derive(Clone, Copy, PartialEq, Eq, Structural, Debug)]
pub enum IpAddress {
    V4(u8, u8, u8, u8),
    V6(u16, u16, u16, u16, u16, u16, u16, u16),
}

/// What parsing a candidate string as an IP address yields: the address, or
/// nothing when the string is malformed.
pub uninterp spec fn parsed_ip(s: Seq<char>) -> Option<IpAddress>;

/// Relies on `str::parse::<core::net::IpAddr>`: whether and how a string
/// parses as an IP address depends on its characters alone.
#[verifier::external_body]
pub(crate) fn parse_ip(s: &str) -> (r: Option<IpAddress>)
    ensures
        r == parsed_ip(s@),
{
    match s.parse::<core::net::IpAddr>() {
        Ok(core::net::IpAddr::V4(a)) => {
            let o = a.octets();
            Some(IpAddress::V4(o[0], o[1], o[2], o[3]))
        },
        Ok(core::net::IpAddr::V6(a)) => {
            let g = a.segments();
            Some(IpAddress::V6(g[0], g[1], g[2], g[3], g[4], g[5], g[6], g[7]))
        },
        Err(_) => None,
    }
}

} // verus!
