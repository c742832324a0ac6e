use vstd::prelude::*;

use crate::ip_net::IpNetwork;

verus! {

/// One grant of network access made on a component's store builder.
#[derive(Clone, Copy, Debug, PartialEq, Eq, Structural)]
pub enum NetworkGrant {
    /// The store inherits the host's network, limited to the allowed hosts.
    InheritLimitedNetwork,
    /// The store may reach `net` on the ports from `port_start` up to, not
    /// including, `port_end`; with no `port_end`, on every port from
    /// `port_start` on.
    IpNetPortRange { net: IpNetwork, port_start: u16, port_end: Option<u16> },
}

/// Whether `grant` lets the store reach `port` on some address of its network.
pub open spec fn grant_covers_port(grant: NetworkGrant, port: u16) -> bool {
    match grant {
        NetworkGrant::InheritLimitedNetwork => false,
        NetworkGrant::IpNetPortRange { port_start, port_end, .. } => port_start <= port && match port_end {
            Some(end) => port < end,
            None => true,
        },
    }
}

/// Every network that `grants` lets the store reach has a prefix length that
/// fits its address family.
pub open spec fn nets_well_formed(grants: Seq<NetworkGrant>) -> bool {
    forall|i: int|
        0 <= i < grants.len() ==> match #[trigger] grants[i] {
            NetworkGrant::IpNetPortRange { net, .. } => net.well_formed(),
            NetworkGrant::InheritLimitedNetwork => true,
        }
}

/// The network grants made on a store builder, in the order they were made.
pub struct NetworkGrants {
    grants: Vec<NetworkGrant>,
}

impl View for NetworkGrants {
    type V = Seq<NetworkGrant>;

    closed spec fn view(&self) -> Seq<NetworkGrant> {
        self.grants@
    }
}

impl NetworkGrants {
    /// No grant made yet.
    pub fn new() -> (res: Self)
        ensures
            res@ == Seq::<NetworkGrant>::empty(),
    {
        NetworkGrants { grants: Vec::new() }
    }

    /// Lets the store inherit the host's network, limited to the allowed hosts.
    pub fn inherit_limited_network(&mut self)
        ensures
            final(self)@ == old(self)@.push(NetworkGrant::InheritLimitedNetwork),
    {
        self.grants.push(NetworkGrant::InheritLimitedNetwork);
    }

    /// Lets the store reach `net` on the ports from `port_start` up to, not
    /// including, `port_end` (every port from `port_start` on, with no end).
    pub fn insert_ip_net_port_range(&mut self, net: IpNetwork, port_start: u16, port_end: Option<u16>)
        ensures
            final(self)@ == old(self)@.push(
                NetworkGrant::IpNetPortRange { net, port_start, port_end },
            ),
    {
        self.grants.push(NetworkGrant::IpNetPortRange { net, port_start, port_end });
    }

    /// The grants made so far, in order.
    pub fn grants(&self) -> (res: &Vec<NetworkGrant>)
        ensures
            res@ == self@,
    {
        &self.grants
    }

    /// The grants made, in order, taken out of the builder.
    pub fn into_grants(self) -> (res: Vec<NetworkGrant>)
        ensures
            res@ == self@,
    {
        self.grants
    }
}

} // verus!
