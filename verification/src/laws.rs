use vstd::prelude::*;

use crate::allowed_hosts::{AllowedHostConfig, AllowedHostsConfig, HostConfig, IndividualPortConfig, PortConfig};
use crate::grants::{grant_covers_port, NetworkGrant};
use crate::ip_net::{ip_net_from_str, spec_resolve_host, IpNetwork};
use crate::network::{
    allowed_hosts_grants, entries_grants, entry_grants, hosts_grants, port_grants, port_item_grant,
    resolved_host_grants,
};

verus! {

/// Whether an entry's ports, on network `net`, allow grant `g`.
pub open spec fn port_allows(net: IpNetwork, port: PortConfig, g: NetworkGrant) -> bool {
    match port {
        PortConfig::Any => g == NetworkGrant::IpNetPortRange { net, port_start: 0, port_end: None },
        PortConfig::List(items) => exists|m: int|
            0 <= m < items@.len() && g == #[trigger] port_item_grant(net, items@[m]),
    }
}

/// Whether host `k` of `hosts` reads as a network whose ports allow `g`.
pub open spec fn listed_host_allows(hosts: Seq<String>, k: int, port: PortConfig, g: NetworkGrant) -> bool {
    match spec_resolve_host(hosts[k]@) {
        Some(net) => port_allows(net, port, g),
        None => false,
    }
}

/// Whether an allowed-host entry allows grant `g`.
pub open spec fn entry_allows(entry: AllowedHostConfig, g: NetworkGrant) -> bool {
    &&& entry.scheme is Any
    &&& match entry.host {
        HostConfig::Any => g == NetworkGrant::InheritLimitedNetwork,
        HostConfig::ToSelf => false,
        HostConfig::List(hosts) => exists|k: int|
            0 <= k < hosts@.len() && #[trigger] listed_host_allows(hosts@, k, entry.port, g),
    }
}

/// Whether a component's allowed hosts allow grant `g`.
pub open spec fn allowed_hosts_allow(allowed: AllowedHostsConfig, g: NetworkGrant) -> bool {
    match allowed {
        AllowedHostsConfig::All => g == NetworkGrant::InheritLimitedNetwork,
        AllowedHostsConfig::SpecificHosts(entries) => exists|j: int|
            0 <= j < entries@.len() && #[trigger] entry_allows(entries@[j], g),
    }
}

proof fn lemma_concat_contains<A>(s1: Seq<A>, s2: Seq<A>, x: A)
    ensures
        (s1 + s2).contains(x) <==> (s1.contains(x) || s2.contains(x)),
{
    if (s1 + s2).contains(x) {
        let i = choose|i: int| 0 <= i < (s1 + s2).len() && (s1 + s2)[i] == x;
        if i < s1.len() {
            assert(s1[i] == x);
        } else {
            assert(s2[i - s1.len()] == x);
        }
    }
    if s1.contains(x) {
        let i = choose|i: int| 0 <= i < s1.len() && s1[i] == x;
        assert((s1 + s2)[i] == x);
    }
    if s2.contains(x) {
        let i = choose|i: int| 0 <= i < s2.len() && s2[i] == x;
        assert((s1 + s2)[s1.len() + i] == x);
    }
}

proof fn lemma_port_grants_contains(net: IpNetwork, port: PortConfig, g: NetworkGrant)
    ensures
        port_grants(net, port).contains(g) <==> port_allows(net, port, g),
{
    match port {
        PortConfig::Any => {
            if g == (NetworkGrant::IpNetPortRange { net, port_start: 0, port_end: None }) {
                assert(port_grants(net, port)[0] == g);
            }
        },
        PortConfig::List(items) => {
            let mapped = items@.map_values(|item: IndividualPortConfig| port_item_grant(net, item));
            if mapped.contains(g) {
                let i = choose|i: int| 0 <= i < mapped.len() && mapped[i] == g;
                assert(g == port_item_grant(net, items@[i]));
            }
            if port_allows(net, port, g) {
                let m = choose|m: int| 0 <= m < items@.len() && g == #[trigger] port_item_grant(net, items@[m]);
                assert(mapped[m] == g);
            }
        },
    }
}

proof fn lemma_hosts_grants_contains(hosts: Seq<String>, port: PortConfig, g: NetworkGrant)
    ensures
        hosts_grants(hosts, port).contains(g) <==> exists|k: int|
            0 <= k < hosts.len() && #[trigger] listed_host_allows(hosts, k, port, g),
    decreases hosts.len(),
{
    if hosts.len() == 0 {
        assert(!hosts_grants(hosts, port).contains(g));
    } else {
        let init = hosts.drop_last();
        let last = hosts.len() - 1;
        lemma_hosts_grants_contains(init, port, g);
        lemma_concat_contains(
            hosts_grants(init, port),
            resolved_host_grants(spec_resolve_host(hosts[last]@), port),
            g,
        );
        match spec_resolve_host(hosts[last]@) {
            Some(net) => lemma_port_grants_contains(net, port, g),
            None => {},
        }
        if hosts_grants(hosts, port).contains(g) {
            if hosts_grants(init, port).contains(g) {
                let k = choose|k: int| 0 <= k < init.len() && #[trigger] listed_host_allows(init, k, port, g);
                assert(init[k] == hosts[k]);
                assert(listed_host_allows(hosts, k, port, g));
            } else {
                assert(listed_host_allows(hosts, last, port, g));
            }
        }
        if exists|k: int| 0 <= k < hosts.len() && #[trigger] listed_host_allows(hosts, k, port, g) {
            let k = choose|k: int| 0 <= k < hosts.len() && #[trigger] listed_host_allows(hosts, k, port, g);
            if k < last {
                assert(init[k] == hosts[k]);
                assert(listed_host_allows(init, k, port, g));
            }
        }
    }
}

proof fn lemma_entry_grants_contains(entry: AllowedHostConfig, g: NetworkGrant)
    ensures
        entry_grants(entry).contains(g) <==> entry_allows(entry, g),
{
    if entry.scheme is Any {
        match entry.host {
            HostConfig::Any => {
                if g == NetworkGrant::InheritLimitedNetwork {
                    assert(entry_grants(entry)[0] == g);
                }
            },
            HostConfig::ToSelf => {},
            HostConfig::List(hosts) => lemma_hosts_grants_contains(hosts@, entry.port, g),
        }
    }
}

proof fn lemma_entries_grants_contains(entries: Seq<AllowedHostConfig>, g: NetworkGrant)
    ensures
        entries_grants(entries).contains(g) <==> exists|j: int|
            0 <= j < entries.len() && #[trigger] entry_allows(entries[j], g),
    decreases entries.len(),
{
    if entries.len() == 0 {
        assert(!entries_grants(entries).contains(g));
    } else {
        let init = entries.drop_last();
        let last = entries.len() - 1;
        lemma_entries_grants_contains(init, g);
        lemma_concat_contains(entries_grants(init), entry_grants(entries[last]), g);
        lemma_entry_grants_contains(entries[last], g);
        if entries_grants(entries).contains(g) {
            if entries_grants(init).contains(g) {
                let j = choose|j: int| 0 <= j < init.len() && #[trigger] entry_allows(init[j], g);
                assert(init[j] == entries[j]);
                assert(entry_allows(entries[j], g));
            } else {
                assert(entry_allows(entries[last], g));
            }
        }
        if exists|j: int| 0 <= j < entries.len() && #[trigger] entry_allows(entries[j], g) {
            let j = choose|j: int| 0 <= j < entries.len() && #[trigger] entry_allows(entries[j], g);
            if j < last {
                assert(init[j] == entries[j]);
                assert(entry_allows(init[j], g));
            }
        }
    }
}

/// A component's store is granted exactly what its allowed hosts allow: a
/// grant is made if and only if the configuration allows everything and the
/// grant is the limited host network, or some entry that admits every scheme
/// allows it (the limited host network for any host; for a listed host that
/// reads as a network, every port from 0 where any port is allowed, or the
/// grant of one of the listed port items).
pub proof fn law_grants_are_exactly_the_allowed(allowed: AllowedHostsConfig, g: NetworkGrant)
    ensures
        allowed_hosts_grants(allowed).contains(g) <==> allowed_hosts_allow(allowed, g),
{
    match allowed {
        AllowedHostsConfig::All => {
            if g == NetworkGrant::InheritLimitedNetwork {
                assert(allowed_hosts_grants(allowed)[0] == g);
            }
        },
        AllowedHostsConfig::SpecificHosts(entries) => lemma_entries_grants_contains(entries@, g),
    }
}

/// Entries are granted one after another, each on its own: the grants of a
/// list of entries followed by more are the grants of the first list followed
/// by those of the rest.
pub proof fn law_entries_grant_in_order(first: Seq<AllowedHostConfig>, rest: Seq<AllowedHostConfig>)
    ensures
        entries_grants(first + rest) == entries_grants(first) + entries_grants(rest),
    decreases rest.len(),
{
    if rest.len() == 0 {
        assert(first + rest == first);
        assert(entries_grants(first) + entries_grants(rest) == entries_grants(first));
    } else {
        law_entries_grant_in_order(first, rest.drop_last());
        assert((first + rest).drop_last() == first + rest.drop_last());
        assert((first + rest).last() == rest.last());
        assert(entries_grants(first) + entries_grants(rest) == entries_grants(first) + entries_grants(
            rest.drop_last(),
        ) + entry_grants(rest.last()));
    }
}

/// Hosts of one entry are granted one after another, each on its own.
pub proof fn law_hosts_grant_in_order(first: Seq<String>, rest: Seq<String>, port: PortConfig)
    ensures
        hosts_grants(first + rest, port) == hosts_grants(first, port) + hosts_grants(rest, port),
    decreases rest.len(),
{
    if rest.len() == 0 {
        assert(first + rest == first);
        assert(hosts_grants(first, port) + hosts_grants(rest, port) == hosts_grants(first, port));
    } else {
        law_hosts_grant_in_order(first, rest.drop_last(), port);
        assert((first + rest).drop_last() == first + rest.drop_last());
        assert((first + rest).last() == rest.last());
        assert(hosts_grants(first, port) + hosts_grants(rest, port) == hosts_grants(first, port)
            + hosts_grants(rest.drop_last(), port) + resolved_host_grants(
            spec_resolve_host(rest.last()@),
            port,
        ));
    }
}

/// An entry that does not admit every scheme grants nothing, whatever its
/// hosts and ports.
pub proof fn law_scheme_list_grants_nothing(entry: AllowedHostConfig)
    requires
        !(entry.scheme is Any),
    ensures
        entry_grants(entry) == Seq::<NetworkGrant>::empty(),
{
}

/// The grant for a single port covers that port and no other, the last port
/// (65535) included.
pub proof fn law_single_port_covers_only_itself(net: IpNetwork, p: u16, q: u16)
    ensures
        grant_covers_port(port_item_grant(net, IndividualPortConfig::Port(p)), q) <==> q == p,
{
}

/// The grant for a port range covers the ports from its start up to, not
/// including, its end.
pub proof fn law_range_covers_its_ports(net: IpNetwork, start: u16, end: u16, q: u16)
    ensures
        grant_covers_port(port_item_grant(net, IndividualPortConfig::Range { start, end }), q) <==> (
        start <= q < end),
{
}

/// The grant for a port item is on exactly the network it is made for: a
/// single port `p` is the range from `p` to `p + 1` (open-ended at 65535), a
/// range from `start` to `end` is granted as that range.
pub proof fn law_port_item_grant_is_on_its_network(net: IpNetwork, item: IndividualPortConfig)
    ensures
        port_item_grant(net, item) matches NetworkGrant::IpNetPortRange { net: n, port_start, port_end } && n
            == net && match item {
            IndividualPortConfig::Port(p) => port_start == p && (p < 65535 ==> port_end == Some(
                (p + 1) as u16,
            )) && (p == 65535 ==> port_end is None),
            IndividualPortConfig::Range { start, end } => port_start == start && port_end == Some(end),
        },
{
}

/// The grants for a network under an entry's ports are all on that network:
/// one grant of every port from 0 where any port is allowed, else one grant
/// per port item, in the items' order.
pub proof fn law_port_grants_are_on_the_network(net: IpNetwork, port: PortConfig)
    ensures
        forall|i: int|
            0 <= i < port_grants(net, port).len() ==> (#[trigger] port_grants(net, port)[i] matches NetworkGrant::IpNetPortRange { net: n, .. }
                && n == net),
        port matches PortConfig::Any ==> port_grants(net, port) == seq![
            NetworkGrant::IpNetPortRange { net, port_start: 0, port_end: None },
        ],
        port matches PortConfig::List(items) ==> port_grants(net, port).len() == items@.len() && forall|i: int|
            0 <= i < items@.len() ==> #[trigger] port_grants(net, port)[i] == port_item_grant(net, items@[i]),
{
    assert forall|i: int| 0 <= i < port_grants(net, port).len() implies (#[trigger] port_grants(
        net,
        port,
    )[i] matches NetworkGrant::IpNetPortRange { net: n, .. } && n == net) by {
        match port {
            PortConfig::Any => {},
            PortConfig::List(items) => law_port_item_grant_is_on_its_network(net, items@[i]),
        }
    }
}

/// A host that parses as a CIDR block is read as exactly that block; only a
/// host that does not is read as itself followed by `/32`. A host that parses
/// either way is never skipped.
pub proof fn law_resolve_host_keeps_the_parsed_block(host: Seq<char>)
    ensures
        ip_net_from_str(host) matches Some(n) ==> spec_resolve_host(host) == Some(n),
        ip_net_from_str(host) is None ==> spec_resolve_host(host) == ip_net_from_str(host + "/32"@),
        (ip_net_from_str(host) is Some || ip_net_from_str(host + "/32"@) is Some) ==> spec_resolve_host(
            host,
        ) is Some,
{
}

/// A listed host of an entry that admits every scheme and any port is granted
/// every port on exactly the network it parses to, and a port item on that
/// same network.
pub proof fn law_listed_host_is_granted_its_own_network(
    entry: AllowedHostConfig,
    k: int,
    g: NetworkGrant,
)
    requires
        entry.scheme is Any,
        entry.host matches HostConfig::List(hosts) && 0 <= k < hosts@.len(),
    ensures
        entry.host matches HostConfig::List(hosts) && (ip_net_from_str(hosts@[k]@) matches Some(n) ==> (
        port_grants(n, entry.port).contains(g) ==> entry_grants(entry).contains(g))),
        forall|g2: NetworkGrant|
            #[trigger] entry_grants(entry).contains(g2) ==> (g2 matches NetworkGrant::IpNetPortRange { net, .. }
                ==> entry.host matches HostConfig::List(hosts) && exists|j: int|
                0 <= j < hosts@.len() && spec_resolve_host(#[trigger] hosts@[j]@) == Some(net)),
{
    if let HostConfig::List(hosts) = entry.host {
        lemma_entry_grants_contains(entry, g);
        lemma_port_grants_contains_all(hosts@, entry.port, k, g);
        assert forall|g2: NetworkGrant|
            #[trigger] entry_grants(entry).contains(g2) implies (g2 matches NetworkGrant::IpNetPortRange { net, .. }
                ==> exists|j: int| 0 <= j < hosts@.len() && spec_resolve_host(#[trigger] hosts@[j]@) == Some(net)) by {
            lemma_entry_grants_contains(entry, g2);
            if g2 is IpNetPortRange {
                let j = choose|j: int| 0 <= j < hosts@.len() && #[trigger] listed_host_allows(hosts@, j, entry.port, g2);
                let n = spec_resolve_host(hosts@[j]@)->Some_0;
                law_port_grants_are_on_the_network(n, entry.port);
                lemma_port_grants_contains(n, entry.port, g2);
                let i = choose|i: int| 0 <= i < port_grants(n, entry.port).len() && port_grants(n, entry.port)[i] == g2;
                assert(port_grants(n, entry.port)[i] == g2);
            }
        }
    }
}

proof fn lemma_port_grants_contains_all(hosts: Seq<String>, port: PortConfig, k: int, g: NetworkGrant)
    requires
        0 <= k < hosts.len(),
    ensures
        ip_net_from_str(hosts[k]@) matches Some(n) ==> (port_grants(n, port).contains(g)
            ==> listed_host_allows(hosts, k, port, g)),
{
    if let Some(n) = ip_net_from_str(hosts[k]@) {
        law_resolve_host_keeps_the_parsed_block(hosts[k]@);
        lemma_port_grants_contains(n, port, g);
    }
}

} // verus!
