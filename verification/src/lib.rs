//! Outbound network permissions of a component: from its allowed-hosts
//! configuration to the network grants made on its store builder.

pub mod allowed_hosts;
pub mod ip_net;
pub mod grants;
pub mod network;
pub mod laws;
