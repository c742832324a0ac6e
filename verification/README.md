# spin_network

The outbound network of a Spin component's store, verified with Verus.

- `src/allowed_hosts.rs`: a component's allowed outbound hosts (schemes, hosts, ports).
- `src/ip_net.rs`: networks in CIDR notation, read with the `ipnet` crate.
- `src/grants.rs`: the network grants made on a store builder, in order.
- `src/network.rs`: `Network::component_store_builder`, from allowed hosts to grants.
- `src/laws.rs`: what holds of every configuration (exactly the allowed is granted, in order; port ranges).
- `app/`: reads the allowed hosts through Spin and makes the grants on Spin's store builder.
