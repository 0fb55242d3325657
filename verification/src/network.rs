//! Network settings of a node: who it says it is, where it listens, whom it
//! dials first and how many peers may dial in.

use crate::path::{NodePath, NodePathView};
use vstd::prelude::*;

verus! {

/// The TCP port on which the node listens for its peers.
pub const P2P_PORT: u16 = 30333;

/// Inbound slots set aside for full nodes.
pub const FULL_PEER_SLOTS: u32 = 25;

/// Inbound slots set aside for light clients.
pub const LIGHT_PEER_SLOTS: u32 = 100;

/// The directory, below a chain's directory, that holds network settings.
pub const DEFAULT_NETWORK_CONFIG_PATH: &'static str = "network";

/// The file, in the network directory, that holds the node's Ed25519 secret.
pub const NODE_KEY_ED25519_FILE: &'static str = "secret_ed25519";

/// An IP address, of either family.
#[derive(Clone, Copy, Debug, PartialEq, Eq, Structural)]
pub enum IpAddress {
    /// The four octets, first to last.
    V4(u8, u8, u8, u8),
    /// The sixteen octets as one number, the first octet highest.
    V6(u128),
}

impl IpAddress {
    /// Whether this is the wildcard address of its family, which stands for
    /// every interface.
    pub open spec fn is_unspecified(self) -> bool {
        match self {
            IpAddress::V4(a, b, c, d) => a == 0 && b == 0 && c == 0 && d == 0,
            IpAddress::V6(bits) => bits == 0,
        }
    }

    /// Whether this address reaches the local machine only.
    pub open spec fn is_loopback(self) -> bool {
        match self {
            IpAddress::V4(a, _, _, _) => a == 127,
            IpAddress::V6(bits) => bits == 1,
        }
    }
}

/// An address for peer-to-peer traffic: an IP address and a TCP port.
#[derive(Clone, Copy, Debug, PartialEq, Eq, Structural)]
pub struct ListenAddress {
    pub ip: IpAddress,
    pub tcp_port: u16,
}

/// An address for a server socket: an IP address and a port.
#[derive(Clone, Copy, Debug, PartialEq, Eq, Structural)]
pub struct SocketAddress {
    pub ip: IpAddress,
    pub port: u16,
}

/// Where the node's network identity key comes from.
#[derive(Debug)]
pub enum NodeKeyConfig {
    /// An Ed25519 secret read from this file, which is written on first use.
    Ed25519File(NodePath),
    /// An Ed25519 secret made anew at each start and never stored.
    Ed25519Fresh,
}

/// The mathematical value of a [`NodeKeyConfig`].
pub enum NodeKeyConfigView {
    Ed25519File(NodePathView),
    Ed25519Fresh,
}

impl View for NodeKeyConfig {
    type V = NodeKeyConfigView;

    open spec fn view(&self) -> NodeKeyConfigView {
        match self {
            NodeKeyConfig::Ed25519File(path) => NodeKeyConfigView::Ed25519File(path@),
            NodeKeyConfig::Ed25519Fresh => NodeKeyConfigView::Ed25519Fresh,
        }
    }
}

/// The network settings that node set-up decides; every other network
/// setting keeps the value the network layer gives it.
#[derive(Debug)]
pub struct NetworkConfiguration {
    pub node_name: String,
    pub client_version: String,
    pub node_key: NodeKeyConfig,
    pub net_config_path: Option<NodePath>,
    pub listen_addresses: Vec<ListenAddress>,
    pub boot_nodes: Vec<String>,
    pub in_peers: u32,
}

/// The mathematical value of a [`NetworkConfiguration`].
pub struct NetworkConfigurationView {
    pub node_name: Seq<char>,
    pub client_version: Seq<char>,
    pub node_key: NodeKeyConfigView,
    pub net_config_path: Option<NodePathView>,
    pub listen_addresses: Seq<ListenAddress>,
    pub boot_nodes: Seq<Seq<char>>,
    pub in_peers: u32,
}

impl View for NetworkConfiguration {
    type V = NetworkConfigurationView;

    open spec fn view(&self) -> NetworkConfigurationView {
        NetworkConfigurationView {
            node_name: self.node_name@,
            client_version: self.client_version@,
            node_key: self.node_key@,
            net_config_path: self.net_config_path.deep_view(),
            listen_addresses: self.listen_addresses@,
            boot_nodes: self.boot_nodes.deep_view(),
            in_peers: self.in_peers,
        }
    }
}

/// The addresses a node listens on: the IPv6 wildcard and the IPv4
/// wildcard, in this order, both on [`P2P_PORT`].
pub open spec fn default_listen_addresses() -> Seq<ListenAddress> {
    seq![
        ListenAddress { ip: IpAddress::V6(0), tcp_port: P2P_PORT },
        ListenAddress { ip: IpAddress::V4(0, 0, 0, 0), tcp_port: P2P_PORT },
    ]
}

/// The network settings of a node whose chain directory is `config_dir`.
pub open spec fn network_settings(
    config_dir: NodePathView,
    node_name: Seq<char>,
    client_id: Seq<char>,
    boot_nodes: Seq<Seq<char>>,
) -> NetworkConfigurationView {
    let net_config_dir = config_dir.join(DEFAULT_NETWORK_CONFIG_PATH@);
    NetworkConfigurationView {
        node_name,
        client_version: client_id,
        node_key: NodeKeyConfigView::Ed25519File(net_config_dir.join(NODE_KEY_ED25519_FILE@)),
        net_config_path: Some(net_config_dir),
        listen_addresses: default_listen_addresses(),
        boot_nodes,
        in_peers: (FULL_PEER_SLOTS + LIGHT_PEER_SLOTS) as u32,
    }
}

/// Builds the network settings: the node key is kept in a file of the
/// chain's network directory, the node listens on both wildcard addresses,
/// dials the given boot nodes, and admits as many inbound peers as full
/// nodes and light clients are allotted together.
pub fn network_configuration(
    config_dir: &NodePath,
    node_name: String,
    client_id: String,
    boot_nodes: Vec<String>,
) -> (network: NetworkConfiguration)
    ensures
        network@ == network_settings(
            config_dir@,
            node_name@,
            client_id@,
            boot_nodes.deep_view(),
        ),
{
    let net_config_dir = config_dir.join(DEFAULT_NETWORK_CONFIG_PATH);
    let node_key = NodeKeyConfig::Ed25519File(net_config_dir.join(NODE_KEY_ED25519_FILE));
    let mut listen_addresses: Vec<ListenAddress> = Vec::new();
    listen_addresses.push(ListenAddress { ip: IpAddress::V6(0), tcp_port: P2P_PORT });
    listen_addresses.push(ListenAddress { ip: IpAddress::V4(0, 0, 0, 0), tcp_port: P2P_PORT });
    assert(listen_addresses@ =~= default_listen_addresses());
    NetworkConfiguration {
        node_name,
        client_version: client_id,
        node_key,
        net_config_path: Some(net_config_dir),
        listen_addresses,
        boot_nodes,
        in_peers: FULL_PEER_SLOTS + LIGHT_PEER_SLOTS,
    }
}

} // verus!
