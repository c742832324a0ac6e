use vstd::prelude::*;

use crate::allowed_hosts::{
    AllowedHostConfig, AllowedHostsConfig, HostConfig, IndividualPortConfig, PortConfig,
};
use crate::grants::{nets_well_formed, NetworkGrant, NetworkGrants};
use crate::ip_net::{resolve_host, spec_resolve_host, IpNetwork};

verus! {

/// The port after `port`, if there is one.
pub open spec fn next_port(port: u16) -> Option<u16> {
    if port < u16::MAX {
        Some((port + 1) as u16)
    } else {
        None
    }
}

/// The grant for one port item of an entry, on a resolved network: a single
/// port is the range up to the next port (open-ended at the last port); a
/// range is granted as written.
pub open spec fn port_item_grant(net: IpNetwork, item: IndividualPortConfig) -> NetworkGrant {
    match item {
        IndividualPortConfig::Port(p) => NetworkGrant::IpNetPortRange { net, port_start: p, port_end: next_port(p) },
        IndividualPortConfig::Range { start, end } => NetworkGrant::IpNetPortRange {
            net,
            port_start: start,
            port_end: Some(end),
        },
    }
}

/// The grants for a resolved network under an entry's ports: every port from
/// 0 on where any port is allowed, else one grant per port item, in order.
pub open spec fn port_grants(net: IpNetwork, port: PortConfig) -> Seq<NetworkGrant> {
    match port {
        PortConfig::Any => seq![NetworkGrant::IpNetPortRange { net, port_start: 0, port_end: None }],
        PortConfig::List(items) => items@.map_values(|item: IndividualPortConfig| port_item_grant(net, item)),
    }
}

/// The grants for one host, given how it resolved: nothing for a host that is
/// no network.
pub open spec fn resolved_host_grants(resolved: Option<IpNetwork>, port: PortConfig) -> Seq<NetworkGrant> {
    match resolved {
        Some(net) => port_grants(net, port),
        None => Seq::empty(),
    }
}

/// The grants for a list of hosts, host after host.
pub open spec fn hosts_grants(hosts: Seq<String>, port: PortConfig) -> Seq<NetworkGrant>
    decreases hosts.len(),
{
    if hosts.len() == 0 {
        Seq::empty()
    } else {
        hosts_grants(hosts.drop_last(), port) + resolved_host_grants(
            spec_resolve_host(hosts.last()@),
            port,
        )
    }
}

/// The grants for one allowed-host entry: nothing unless the entry admits
/// every scheme; then the limited host network for any host, nothing for the
/// application itself, and the grants of each listed host.
pub open spec fn entry_grants(entry: AllowedHostConfig) -> Seq<NetworkGrant> {
    if !(entry.scheme is Any) {
        Seq::empty()
    } else {
        match entry.host {
            HostConfig::Any => seq![NetworkGrant::InheritLimitedNetwork],
            HostConfig::ToSelf => Seq::empty(),
            HostConfig::List(hosts) => hosts_grants(hosts@, entry.port),
        }
    }
}

/// The grants for a list of entries, entry after entry.
pub open spec fn entries_grants(entries: Seq<AllowedHostConfig>) -> Seq<NetworkGrant>
    decreases entries.len(),
{
    if entries.len() == 0 {
        Seq::empty()
    } else {
        entries_grants(entries.drop_last()) + entry_grants(entries.last())
    }
}

/// The grants for a component's allowed hosts: the limited host network where
/// everything is allowed, else the grants of the entries in order.
pub open spec fn allowed_hosts_grants(allowed: AllowedHostsConfig) -> Seq<NetworkGrant> {
    match allowed {
        AllowedHostsConfig::All => seq![NetworkGrant::InheritLimitedNetwork],
        AllowedHostsConfig::SpecificHosts(entries) => entries_grants(entries@),
    }
}

/// Grants access to a resolved network under an entry's ports.
pub fn grant_ports(store_builder: &mut NetworkGrants, net: IpNetwork, port: &PortConfig)
    ensures
        final(store_builder)@ == old(store_builder)@ + port_grants(net, *port),
        net.well_formed() ==> nets_well_formed(port_grants(net, *port)),
        forall|i: int|
            old(store_builder)@.len() <= i < final(store_builder)@.len() ==> (
            #[trigger] final(store_builder)@[i] matches NetworkGrant::IpNetPortRange { net: n, .. }
                && n == net),
        port matches PortConfig::Any ==> final(store_builder)@ == old(store_builder)@.push(
            NetworkGrant::IpNetPortRange { net, port_start: 0, port_end: None },
        ),
        port matches PortConfig::List(items) ==> {
            &&& final(store_builder)@.len() == old(store_builder)@.len() + items@.len()
            &&& forall|i: int|
                0 <= i < items@.len() ==> #[trigger] final(store_builder)@[old(store_builder)@.len() + i]
                    == match items@[i] {
                    IndividualPortConfig::Port(p) => NetworkGrant::IpNetPortRange {
                        net,
                        port_start: p,
                        port_end: if p < 65535 {
                            Some((p + 1) as u16)
                        } else {
                            None
                        },
                    },
                    IndividualPortConfig::Range { start, end } => NetworkGrant::IpNetPortRange {
                        net,
                        port_start: start,
                        port_end: Some(end),
                    },
                }
        },
{
    match port {
        PortConfig::Any => {
            store_builder.insert_ip_net_port_range(net, 0, None);
        },
        PortConfig::List(items) => {
            let ghost start = store_builder@;
            let n: usize = items.len();
            let mut i: usize = 0;
            while i < n
                invariant
                    n == items@.len(),
                    0 <= i <= n,
                    store_builder@ == start + items@.take(i as int).map_values(
                        |item: IndividualPortConfig| port_item_grant(net, item),
                    ),
                decreases n - i,
            {
                let ghost before = store_builder@;
                match items[i] {
                    IndividualPortConfig::Port(p) => {
                        store_builder.insert_ip_net_port_range(net, p, p.checked_add(1));
                    },
                    IndividualPortConfig::Range { start: s, end: e } => {
                        store_builder.insert_ip_net_port_range(net, s, Some(e));
                    },
                }
                assert(items@.take(i + 1) == items@.take(i as int).push(items@[i as int]));
                i = i + 1;
            }
            assert(items@.take(n as int) == items@);
        },
    }
}

/// Grants access to one host, given how it resolved: nothing for a host that
/// is no network.
pub fn grant_resolved_host(store_builder: &mut NetworkGrants, resolved: Option<IpNetwork>, port: &PortConfig)
    ensures
        final(store_builder)@ == old(store_builder)@ + resolved_host_grants(resolved, *port),
        (resolved matches Some(n) ==> n.well_formed()) ==> nets_well_formed(
            resolved_host_grants(resolved, *port),
        ),
{
    match resolved {
        Some(net) => grant_ports(store_builder, net, port),
        None => {
            assert(old(store_builder)@ + Seq::<NetworkGrant>::empty() == old(store_builder)@);
        },
    }
}

/// Grants access to each listed host, in order.
fn grant_hosts(store_builder: &mut NetworkGrants, hosts: &Vec<String>, port: &PortConfig)
    ensures
        final(store_builder)@ == old(store_builder)@ + hosts_grants(hosts@, *port),
        nets_well_formed(hosts_grants(hosts@, *port)),
{
    let ghost start = store_builder@;
    let n: usize = hosts.len();
    let mut i: usize = 0;
    assert(start + hosts_grants(hosts@.take(0), *port) == start);
    while i < n
        invariant
            n == hosts@.len(),
            0 <= i <= n,
            store_builder@ == start + hosts_grants(hosts@.take(i as int), *port),
            nets_well_formed(hosts_grants(hosts@.take(i as int), *port)),
        decreases n - i,
    {
        let resolved = resolve_host(&hosts[i]);
        grant_resolved_host(store_builder, resolved, port);
        assert(hosts@.take(i + 1).drop_last() == hosts@.take(i as int));
        i = i + 1;
    }
    assert(hosts@.take(n as int) == hosts@);
}

/// Grants what one allowed-host entry allows.
fn grant_entry(store_builder: &mut NetworkGrants, entry: &AllowedHostConfig)
    ensures
        final(store_builder)@ == old(store_builder)@ + entry_grants(*entry),
        nets_well_formed(entry_grants(*entry)),
{
    if entry.scheme.allows_any() {
        match &entry.host {
            HostConfig::Any => store_builder.inherit_limited_network(),
            HostConfig::ToSelf => {
                assert(old(store_builder)@ + Seq::<NetworkGrant>::empty() == old(store_builder)@);
            },
            HostConfig::List(hosts) => grant_hosts(store_builder, hosts, &entry.port),
        }
    } else {
        assert(old(store_builder)@ + Seq::<NetworkGrant>::empty() == old(store_builder)@);
    }
}

/// The outbound-network hooks of a trigger.
pub struct Network;

impl Network {
    /// Makes on `store_builder` the network grants that a component's
    /// allowed hosts call for: where everything is allowed, the limited host
    /// network; else, for each entry that admits every scheme, the limited
    /// host network for any host, nothing for the application itself, and for
    /// each listed host that reads as a network (as a CIDR block, or as an
    /// address with `/32` appended) a port range per allowed port item, or
    /// every port. Hosts that read as no network are skipped. Grants made
    /// before stay, and the new ones follow them in this order. Every network
    /// granted has a prefix length that fits its address family.
    pub fn component_store_builder(&self, allowed_hosts: &AllowedHostsConfig, store_builder: &mut NetworkGrants)
        ensures
            final(store_builder)@ == old(store_builder)@ + allowed_hosts_grants(*allowed_hosts),
            nets_well_formed(allowed_hosts_grants(*allowed_hosts)),
    {
        match allowed_hosts {
            AllowedHostsConfig::All => store_builder.inherit_limited_network(),
            AllowedHostsConfig::SpecificHosts(entries) => {
                let ghost start = store_builder@;
                let n: usize = entries.len();
                let mut i: usize = 0;
                assert(start + entries_grants(entries@.take(0)) == start);
                while i < n
                    invariant
                        n == entries@.len(),
                        0 <= i <= n,
                        store_builder@ == start + entries_grants(entries@.take(i as int)),
                        nets_well_formed(entries_grants(entries@.take(i as int))),
                    decreases n - i,
                {
                    grant_entry(store_builder, &entries[i]);
                    assert(entries@.take(i + 1).drop_last() == entries@.take(i as int));
                    i = i + 1;
                }
                assert(entries@.take(n as int) == entries@);
            },
        }
    }
}

} // verus!
