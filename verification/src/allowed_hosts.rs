use vstd::prelude::*;

verus! {

/// Which URL schemes an allowed-host entry admits.
#[derive(Debug)]
pub enum SchemeConfig {
    /// Any scheme (`*://...`).
    Any,
    /// Only the listed schemes.
    List(Vec<String>),
}

impl SchemeConfig {
    /// Whether every scheme is admitted.
    pub fn allows_any(&self) -> (res: bool)
        ensures
            res == (*self is Any),
    {
        match self {
            SchemeConfig::Any => true,
            SchemeConfig::List(_) => false,
        }
    }
}

/// Which hosts an allowed-host entry admits.
#[derive(Debug)]
pub enum HostConfig {
    /// Any host.
    Any,
    /// The application itself (`self`).
    ToSelf,
    /// Only the listed hosts.
    List(Vec<String>),
}

/// One port, or a half-open range of ports, of an allowed-host entry.
#[derive(Clone, Copy, Debug, PartialEq, Eq, Structural)]
pub enum IndividualPortConfig {
    /// A single port.
    Port(u16),
    /// The ports from `start` up to, not including, `end`.
    Range { start: u16, end: u16 },
}

/// Which ports an allowed-host entry admits.
#[derive(Debug)]
pub enum PortConfig {
    /// Any port.
    Any,
    /// Only the listed ports and ranges.
    List(Vec<IndividualPortConfig>),
}

/// One entry of a component's allowed outbound hosts.
#[derive(Debug)]
pub struct AllowedHostConfig {
    pub scheme: SchemeConfig,
    pub host: HostConfig,
    pub port: PortConfig,
}

/// A component's allowed outbound hosts.
#[derive(Debug)]
pub enum AllowedHostsConfig {
    /// Everything is allowed.
    All,
    /// Only what one of the entries allows.
    SpecificHosts(Vec<AllowedHostConfig>),
}

} // verus!
