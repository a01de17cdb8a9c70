//! What the hub knows of its nodes, and the protocol between clients and
//! the hub.
use vstd::prelude::*;

use crate::models::node::{
    NodeDataErrorView, NodeUpdate, NodeUpdateView, Sessions, SessionView, Timestamp, WgPeers,
    WgPeerView, clone_sessions, clone_wg_peers, sessions_view, wg_peers_view,
};
use crate::models::packet::{Command, CommandView, Response, ResponseView};

verus! {

/// Instance of a node, as the hub knows it.
#[derive(Debug, PartialEq)]
pub struct Node {
    /// Serial number of the node (never 0).
    pub serial: u32,
    /// Socket address of the node, as text (`ip:port`).
    pub address: String,
    /// Hostname of the node.
    pub hostname: String,
    /// User sessions collected by the node.
    pub sessions: Sessions,
    /// WireGuard peers collected by the node.
    pub wg_peers: WgPeers,
    /// Last state update received from the node.
    pub last_state_update: Timestamp,
    /// Whether the node is connected (disconnected nodes are removed after
    /// a grace period).
    pub connected: bool,
}

/// Mathematical view of a [`Node`].
pub struct NodeView {
    pub serial: u32,
    pub address: Seq<char>,
    pub hostname: Seq<char>,
    pub sessions: Result<Seq<SessionView>, NodeDataErrorView>,
    pub wg_peers: Result<Seq<WgPeerView>, NodeDataErrorView>,
    pub last_state_update: Timestamp,
    pub connected: bool,
}

impl View for Node {
    type V = NodeView;

    open spec fn view(&self) -> NodeView {
        NodeView {
            serial: self.serial,
            address: self.address@,
            hostname: self.hostname@,
            sessions: sessions_view(self.sessions),
            wg_peers: wg_peers_view(self.wg_peers),
            last_state_update: self.last_state_update,
            connected: self.connected,
        }
    }
}

impl Clone for Node {
    fn clone(&self) -> (r: Self)
        ensures
            r@ == self@,
    {
        Node {
            serial: self.serial,
            address: self.address.clone(),
            hostname: self.hostname.clone(),
            sessions: clone_sessions(&self.sessions),
            wg_peers: clone_wg_peers(&self.wg_peers),
            last_state_update: self.last_state_update,
            connected: self.connected,
        }
    }
}

/// View of a list of nodes.
pub open spec fn node_list_view(v: Seq<Node>) -> Seq<NodeView> {
    v.map_values(|n: Node| n@)
}

/// A copy of a list of nodes.
pub fn clone_node_list(v: &Vec<Node>) -> (r: Vec<Node>)
    ensures
        node_list_view(r@) == node_list_view(v@),
{
    let mut r: Vec<Node> = Vec::new();
    let mut i: usize = 0;
    while i < v.len()
        invariant
            i <= v@.len(),
            r@.len() == i,
            forall|k: int| 0 <= k < i ==> #[trigger] r@[k]@ == v@[k]@,
        decreases v@.len() - i,
    {
        r.push(v[i].clone());
        i = i + 1;
    }
    assert(node_list_view(r@) =~= node_list_view(v@));
    r
}

/// Command sent from a client to the hub.
#[derive(Debug, PartialEq)]
pub enum ClientCommand {
    /// Subscribe to node state updates (until the connection closes).
    Subscribe,
    /// List all recently connected nodes.
    ListNodes,
    /// Find the first node matching a serial, hostname or address.
    FindNode { query: String },
    /// Raw command relayed to a node; ignored once `expire_time` has passed,
    /// unless it is the epoch (no expiry).
    RawCommand { node_serial: u32, command: Command, expire_time: Timestamp },
}

/// Mathematical view of a [`ClientCommand`].
pub enum ClientCommandView {
    Subscribe,
    ListNodes,
    FindNode { query: Seq<char> },
    RawCommand { node_serial: u32, command: CommandView, expire_time: Timestamp },
}

impl View for ClientCommand {
    type V = ClientCommandView;

    open spec fn view(&self) -> ClientCommandView {
        match self {
            ClientCommand::Subscribe => ClientCommandView::Subscribe,
            ClientCommand::ListNodes => ClientCommandView::ListNodes,
            ClientCommand::FindNode { query } => ClientCommandView::FindNode { query: query@ },
            ClientCommand::RawCommand { node_serial, command, expire_time } =>
                ClientCommandView::RawCommand {
                    node_serial: *node_serial,
                    command: command@,
                    expire_time: *expire_time,
                },
        }
    }
}

/// Result of processing a client command.
#[derive(Debug, PartialEq)]
pub enum ClientResponse {
    /// Node state update, including tracked-only state.
    NodeUpdate { node_serial: u32, data: NodeUpdate },
    /// All recently connected nodes.
    Nodes(Vec<Node>),
    /// A single recently connected node.
    Node(Node),
    /// Raw response relayed from a node.
    RawResponse(Response),
    /// Generic error.
    Error(String),
}

/// Mathematical view of a [`ClientResponse`].
pub enum ClientResponseView {
    NodeUpdate { node_serial: u32, data: NodeUpdateView },
    Nodes(Seq<NodeView>),
    Node(NodeView),
    RawResponse(ResponseView),
    Error(Seq<char>),
}

impl View for ClientResponse {
    type V = ClientResponseView;

    open spec fn view(&self) -> ClientResponseView {
        match self {
            ClientResponse::NodeUpdate { node_serial, data } => ClientResponseView::NodeUpdate {
                node_serial: *node_serial,
                data: data@,
            },
            ClientResponse::Nodes(v) => ClientResponseView::Nodes(node_list_view(v@)),
            ClientResponse::Node(n) => ClientResponseView::Node(n@),
            ClientResponse::RawResponse(r) => ClientResponseView::RawResponse(r@),
            ClientResponse::Error(e) => ClientResponseView::Error(e@),
        }
    }
}

} // verus!
