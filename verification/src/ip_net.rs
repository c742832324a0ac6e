use std::str::FromStr;
use vstd::prelude::*;

verus! {

/// An IP network as a CIDR block: an address and a prefix length.
///
/// The address is kept as written (host bits are not cleared), as `ipnet`
/// keeps it. An IPv4 address is its four octets read big-endian, an IPv6
/// address its sixteen octets read big-endian.
#[derive(Clone, Copy, Debug, PartialEq, Eq, Structural)]
pub enum IpNetwork {
    V4 { addr: u32, prefix_len: u8 },
    V6 { addr: u128, prefix_len: u8 },
}

impl IpNetwork {
    /// The prefix length fits the address family: at most 32 bits for IPv4,
    /// at most 128 bits for IPv6.
    pub open spec fn well_formed(self) -> bool {
        match self {
            IpNetwork::V4 { prefix_len, .. } => prefix_len <= 32,
            IpNetwork::V6 { prefix_len, .. } => prefix_len <= 128,
        }
    }
}

/// What `<ipnet::IpNet as FromStr>::from_str` gives for a string: `None` where
/// the string is no network in CIDR notation, else the network.
pub uninterp spec fn ip_net_from_str(s: Seq<char>) -> Option<IpNetwork>;

/// Parses `s` with `<ipnet::IpNet as FromStr>::from_str`.
///
/// Trusted: the result is `ip_net_from_str` of the string; a network that comes
/// back has a prefix length that fits its family (`Ipv4Net::new` and
/// `Ipv6Net::new` refuse any other); and a string that parses holds a `'/'`
/// (the parser reads address, `'/'` and prefix length up to the end).
#[verifier::external_body]
pub(crate) fn parse_ip_net(s: &String) -> (res: Option<IpNetwork>)
    ensures
        res == ip_net_from_str(s@),
        res matches Some(n) ==> n.well_formed(),
        res is Some ==> s@.contains('/'),
{
    match ipnet::IpNet::from_str(s) {
        Ok(ipnet::IpNet::V4(n)) => Some(IpNetwork::V4 { addr: u32::from(n.addr()), prefix_len: n.prefix_len() }),
        Ok(ipnet::IpNet::V6(n)) => Some(IpNetwork::V6 { addr: u128::from(n.addr()), prefix_len: n.prefix_len() }),
        Err(_) => None,
    }
}

/// How a host of an allowed-hosts list is read as a network: first as a
/// CIDR block, and failing that as a single address, with `/32` appended.
pub open spec fn spec_resolve_host(host: Seq<char>) -> Option<IpNetwork> {
    match ip_net_from_str(host) {
        Some(n) => Some(n),
        None => ip_net_from_str(host + "/32"@),
    }
}

/// Reads `host` as a network: as a CIDR block, or else as `host` followed by
/// `/32`. `None` where neither parses.
pub fn resolve_host(host: &String) -> (res: Option<IpNetwork>)
    ensures
        res == spec_resolve_host(host@),
        res matches Some(n) ==> n.well_formed(),
        !host@.contains('/') ==> res == ip_net_from_str(host@ + "/32"@),
        ip_net_from_str(host@) is Some ==> res == ip_net_from_str(host@),
        ip_net_from_str(host@) is None ==> res == ip_net_from_str(host@ + "/32"@),
{
    match parse_ip_net(host) {
        Some(n) => Some(n),
        None => {
            let with_prefix = host.clone().concat("/32");
            parse_ip_net(&with_prefix)
        },
    }
}

} // verus!
