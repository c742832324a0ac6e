use spin_network::allowed_hosts::{
    AllowedHostConfig, AllowedHostsConfig, HostConfig, IndividualPortConfig, PortConfig, SchemeConfig,
};
use spin_network::grants::{NetworkGrant, NetworkGrants};
use spin_network::ip_net::{resolve_host, IpNetwork};
use spin_network::network::{grant_ports, grant_resolved_host, Network};

fn entry(scheme: SchemeConfig, host: HostConfig, port: PortConfig) -> AllowedHostConfig {
    AllowedHostConfig { scheme, host, port }
}

fn hosts(list: &[&str]) -> HostConfig {
    HostConfig::List(list.iter().map(|h| h.to_string()).collect())
}

fn grants_for(allowed: &AllowedHostsConfig) -> Vec<NetworkGrant> {
    let mut builder = NetworkGrants::new();
    Network.component_store_builder(allowed, &mut builder);
    builder.into_grants()
}

fn v4(a: u8, b: u8, c: u8, d: u8, prefix_len: u8) -> IpNetwork {
    IpNetwork::V4 { addr: u32::from_be_bytes([a, b, c, d]), prefix_len }
}

fn range(net: IpNetwork, port_start: u16, port_end: Option<u16>) -> NetworkGrant {
    NetworkGrant::IpNetPortRange { net, port_start, port_end }
}

#[test]
fn resolve_host_reads_cidr_block() {
    assert_eq!(resolve_host(&"10.0.0.0/8".to_string()), Some(v4(10, 0, 0, 0, 8)));
    assert_eq!(resolve_host(&"1.2.3.4/0".to_string()), Some(v4(1, 2, 3, 4, 0)));
}

#[test]
fn resolve_host_keeps_host_bits() {
    assert_eq!(resolve_host(&"192.168.12.34/16".to_string()), Some(v4(192, 168, 12, 34, 16)));
}

#[test]
fn resolve_host_reads_plain_address_as_slash_32() {
    assert_eq!(resolve_host(&"192.168.1.1".to_string()), Some(v4(192, 168, 1, 1, 32)));
}

#[test]
fn resolve_host_reads_ipv6() {
    let doc_net: u128 = 0x2001_0db8u128 << 96;
    assert_eq!(
        resolve_host(&"2001:db8::/32".to_string()),
        Some(IpNetwork::V6 { addr: doc_net, prefix_len: 32 })
    );
    // A bare IPv6 address gets `/32` appended too.
    assert_eq!(resolve_host(&"::1".to_string()), Some(IpNetwork::V6 { addr: 1, prefix_len: 32 }));
}

#[test]
fn resolve_host_rejects_names_and_bad_prefixes() {
    assert_eq!(resolve_host(&"example.com".to_string()), None);
    assert_eq!(resolve_host(&"10.0.0.1/33".to_string()), None);
    assert_eq!(resolve_host(&"".to_string()), None);
}

#[test]
fn all_allowed_inherits_limited_network() {
    assert_eq!(grants_for(&AllowedHostsConfig::All), vec![NetworkGrant::InheritLimitedNetwork]);
}

#[test]
fn no_entries_grant_nothing() {
    assert_eq!(grants_for(&AllowedHostsConfig::SpecificHosts(vec![])), vec![]);
}

#[test]
fn listed_scheme_grants_nothing() {
    let allowed = AllowedHostsConfig::SpecificHosts(vec![
        entry(SchemeConfig::List(vec!["https".to_string()]), HostConfig::Any, PortConfig::Any),
        entry(SchemeConfig::List(vec!["http".to_string()]), hosts(&["10.0.0.0/8"]), PortConfig::Any),
    ]);
    assert_eq!(grants_for(&allowed), vec![]);
}

#[test]
fn any_host_inherits_limited_network() {
    let allowed = AllowedHostsConfig::SpecificHosts(vec![entry(
        SchemeConfig::Any,
        HostConfig::Any,
        PortConfig::List(vec![IndividualPortConfig::Port(80)]),
    )]);
    assert_eq!(grants_for(&allowed), vec![NetworkGrant::InheritLimitedNetwork]);
}

#[test]
fn self_grants_nothing() {
    let allowed =
        AllowedHostsConfig::SpecificHosts(vec![entry(SchemeConfig::Any, HostConfig::ToSelf, PortConfig::Any)]);
    assert_eq!(grants_for(&allowed), vec![]);
}

#[test]
fn listed_host_with_any_port() {
    let allowed = AllowedHostsConfig::SpecificHosts(vec![entry(
        SchemeConfig::Any,
        hosts(&["10.0.0.0/8", "example.com", "127.0.0.1"]),
        PortConfig::Any,
    )]);
    assert_eq!(
        grants_for(&allowed),
        vec![range(v4(10, 0, 0, 0, 8), 0, None), range(v4(127, 0, 0, 1, 32), 0, None)]
    );
}

#[test]
fn listed_host_with_port_items() {
    let allowed = AllowedHostsConfig::SpecificHosts(vec![entry(
        SchemeConfig::Any,
        hosts(&["172.16.0.0/12"]),
        PortConfig::List(vec![
            IndividualPortConfig::Port(80),
            IndividualPortConfig::Range { start: 8000, end: 8080 },
            IndividualPortConfig::Port(65535),
        ]),
    )]);
    let net = v4(172, 16, 0, 0, 12);
    assert_eq!(
        grants_for(&allowed),
        vec![range(net, 80, Some(81)), range(net, 8000, Some(8080)), range(net, 65535, None)]
    );
}

#[test]
fn entries_are_granted_in_order() {
    let allowed = AllowedHostsConfig::SpecificHosts(vec![
        entry(SchemeConfig::Any, hosts(&["10.1.1.1", "10.2.2.2"]), PortConfig::List(vec![
            IndividualPortConfig::Port(443),
            IndividualPortConfig::Port(444),
        ])),
        entry(SchemeConfig::Any, HostConfig::Any, PortConfig::Any),
        entry(SchemeConfig::List(vec!["redis".to_string()]), hosts(&["10.3.3.3"]), PortConfig::Any),
        entry(SchemeConfig::Any, hosts(&["10.4.4.4"]), PortConfig::Any),
    ]);
    assert_eq!(
        grants_for(&allowed),
        vec![
            range(v4(10, 1, 1, 1, 32), 443, Some(444)),
            range(v4(10, 1, 1, 1, 32), 444, Some(445)),
            range(v4(10, 2, 2, 2, 32), 443, Some(444)),
            range(v4(10, 2, 2, 2, 32), 444, Some(445)),
            NetworkGrant::InheritLimitedNetwork,
            range(v4(10, 4, 4, 4, 32), 0, None),
        ]
    );
}

#[test]
fn earlier_grants_are_kept() {
    let mut builder = NetworkGrants::new();
    builder.inherit_limited_network();
    let allowed = AllowedHostsConfig::SpecificHosts(vec![entry(
        SchemeConfig::Any,
        hosts(&["10.0.0.0/24"]),
        PortConfig::Any,
    )]);
    Network.component_store_builder(&allowed, &mut builder);
    assert_eq!(
        builder.grants(),
        &vec![NetworkGrant::InheritLimitedNetwork, range(v4(10, 0, 0, 0, 24), 0, None)]
    );
}

#[test]
fn unresolved_host_grants_nothing() {
    let mut builder = NetworkGrants::new();
    grant_resolved_host(&mut builder, None, &PortConfig::Any);
    assert_eq!(builder.into_grants(), vec![]);
}

#[test]
fn port_items_map_to_ranges() {
    let mut builder = NetworkGrants::new();
    let net = v4(8, 8, 8, 8, 32);
    grant_ports(&mut builder, net, &PortConfig::List(vec![
        IndividualPortConfig::Port(0),
        IndividualPortConfig::Range { start: 10, end: 10 },
    ]));
    assert_eq!(builder.into_grants(), vec![range(net, 0, Some(1)), range(net, 10, Some(10))]);
}

#[test]
fn scheme_allows_any() {
    assert!(SchemeConfig::Any.allows_any());
    assert!(!SchemeConfig::List(vec!["*".to_string()]).allows_any());
}
