//! The hub's record of its nodes: registering (re)connecting nodes, applying
//! what nodes report, finding nodes for clients, and forgetting
//! disconnected nodes.
use vstd::prelude::*;

use crate::models::hub::{
    ClientCommand, ClientCommandView, ClientResponse, ClientResponseView, Node, NodeView,
    clone_node_list, node_list_view,
};
use crate::models::node::{
    NodeDataError, NodeDataErrorView, NodeStateView, NodeUpdateView, Timestamp, clone_sessions,
    clone_wg_peers,
};
use crate::models::packet::{Response, ResponseView};
use crate::search::{first_index, lemma_first_index_is, lemma_first_index_none};
use crate::text::{chars_equal, chars_of, decimal, push_decimal, push_str, string_from_chars};

verus! {

/// Error when the hub state does not know a node.
#[derive(Debug, Clone, Copy, PartialEq, Eq, Structural)]
pub enum ErrHubState {
    /// No node has the given serial.
    SerialNotRecognized,
}

/// Mathematical view of the hub state.
pub struct HubStateView {
    /// The last serial handed out (0 before the first node).
    pub counter: u32,
    /// Recently connected nodes, in order of registration.
    pub nodes: Seq<NodeView>,
}

/// Serials are in `1..=counter` and strictly increase along the list, so
/// they are unique and the counter is always fresh.
pub open spec fn serials_ordered(nodes: Seq<NodeView>, counter: u32) -> bool {
    &&& forall|i: int| 0 <= i < nodes.len() ==> 1 <= #[trigger] nodes[i].serial <= counter
    &&& forall|i: int, j: int|
        0 <= i < j < nodes.len() ==> #[trigger] nodes[i].serial < #[trigger] nodes[j].serial
}

/// The nodes the hub knows, and the counter that numbers them.
pub struct HubState {
    counter: u32,
    nodes: Vec<Node>,
}

impl View for HubState {
    type V = HubStateView;

    closed spec fn view(&self) -> HubStateView {
        HubStateView { counter: self.counter, nodes: node_list_view(self.nodes@) }
    }
}

/// A node that has just connected: nothing received yet.
pub open spec fn new_node_view(serial: u32, address: Seq<char>, hostname: Seq<char>) -> NodeView {
    NodeView {
        serial,
        address,
        hostname,
        sessions: Err(NodeDataErrorView::Initializing),
        wg_peers: Err(NodeDataErrorView::Initializing),
        last_state_update: Timestamp::spec_epoch(),
        connected: true,
    }
}

/// Whether a node has the given hostname.
pub open spec fn has_hostname(h: Seq<char>) -> spec_fn(NodeView) -> bool {
    |n: NodeView| n.hostname == h
}

/// Whether a node has the given serial.
pub open spec fn has_serial(serial: u32) -> spec_fn(NodeView) -> bool {
    |n: NodeView| n.serial == serial
}

/// Whether a node has the given address.
pub open spec fn has_address(address: Seq<char>) -> spec_fn(NodeView) -> bool {
    |n: NodeView| n.address == address
}

/// The hub state after a node at `address` named `hostname` connects: with
/// `assume_hostname_unique`, the first node of the same hostname is
/// replaced; the new node gets the next serial and is appended.
pub open spec fn spec_register_node(
    old: HubStateView,
    address: Seq<char>,
    hostname: Seq<char>,
    assume_hostname_unique: bool,
) -> HubStateView {
    let serial = (old.counter + 1) as u32;
    HubStateView {
        counter: serial,
        nodes: spec_kept_nodes(old.nodes, hostname, assume_hostname_unique).push(
            new_node_view(serial, address, hostname),
        ),
    }
}

/// The nodes kept when a node named `hostname` connects.
pub open spec fn spec_kept_nodes(
    nodes: Seq<NodeView>,
    hostname: Seq<char>,
    assume_hostname_unique: bool,
) -> Seq<NodeView> {
    if assume_hostname_unique {
        match first_index(nodes, has_hostname(hostname)) {
            Some(i) => nodes.remove(i),
            None => nodes,
        }
    } else {
        nodes
    }
}

/// A node after the hub received its full state at time `now`.
pub open spec fn spec_apply_node_state(n: NodeView, s: NodeStateView, now: Timestamp) -> NodeView {
    NodeView { sessions: s.sessions, wg_peers: s.wg_peers, last_state_update: now, ..n }
}

/// A node after the hub received an atomic update at time `now`: present
/// attributes replace the stored ones.
pub open spec fn spec_apply_node_update(n: NodeView, u: NodeUpdateView, now: Timestamp) -> NodeView {
    NodeView {
        sessions: match u.sessions {
            Some(s) => s,
            None => n.sessions,
        },
        wg_peers: match u.wg_peers {
            Some(w) => w,
            None => n.wg_peers,
        },
        last_state_update: now,
        ..n
    }
}

/// A node after the hub received `r` from it at time `now`: state and
/// updates are applied, other responses leave the node as it is.
pub open spec fn spec_apply_response(n: NodeView, r: ResponseView, now: Timestamp) -> NodeView {
    match r {
        ResponseView::NodeState(s) => spec_apply_node_state(n, s, now),
        ResponseView::NodeUpdate(u) => spec_apply_node_update(n, u, now),
        _ => n,
    }
}

/// The part of an address before its first `:` (the whole address when it
/// has none).
pub open spec fn host_part(address: Seq<char>) -> Seq<char> {
    crate::text::prefix_before(address, ':')
}

/// Whether a node answers to `query`: by serial (in decimal), hostname, or
/// the host part of its address.
pub open spec fn matches_query(query: Seq<char>) -> spec_fn(NodeView) -> bool {
    |n: NodeView|
        decimal(n.serial as nat) == query || n.hostname == query || host_part(n.address) == query
}

/// The answer to a `FindNode` query.
pub open spec fn spec_find_node(nodes: Seq<NodeView>, query: Seq<char>) -> ClientResponseView {
    match first_index(nodes, matches_query(query)) {
        Some(i) => ClientResponseView::Node(nodes[i]),
        None => ClientResponseView::Error(
            "unable to identify node with '"@ + query + "'"@,
        ),
    }
}

/// Whether a raw command with expiry `expire_time` is out of date at `now`:
/// the epoch means "never expires".
pub open spec fn spec_command_expired(expire_time: Timestamp, now: Timestamp) -> bool {
    &&& expire_time != Timestamp::spec_epoch()
    &&& (now.spec_secs() > expire_time.spec_secs() || (now.spec_secs() == expire_time.spec_secs()
        && now.spec_nanos() > expire_time.spec_nanos()))
}

/// Returns whether a raw command with `expire_time` should be ignored at
/// `now`.
pub fn is_command_expired(expire_time: &Timestamp, now: &Timestamp) -> (r: bool)
    ensures
        r == spec_command_expired(*expire_time, *now),
{
    let epoch = Timestamp::epoch();
    *expire_time != epoch && now.is_after(expire_time)
}

/// The host part of an address.
pub fn address_host(address: &str) -> (r: Vec<char>)
    ensures
        r@ == host_part(address@),
{
    let a = chars_of(address);
    crate::text::chars_before(&a, ':')
}

/// Whether `node` answers to `query`.
pub fn node_matches_query(node: &Node, query: &Vec<char>) -> (r: bool)
    ensures
        r == matches_query(query@)(node@),
{
    let mut serial_text: Vec<char> = Vec::new();
    push_decimal(&mut serial_text, node.serial as u64);
    assert(serial_text@ == decimal(node.serial as nat));
    if chars_equal(&serial_text, query) {
        return true;
    }
    let hostname = chars_of(node.hostname.as_str());
    if chars_equal(&hostname, query) {
        return true;
    }
    let host = address_host(node.address.as_str());
    chars_equal(&host, query)
}

/// Serials of the stored nodes are in `1..=counter` and strictly increase.
spec fn stored_serials_ordered(nodes: Seq<Node>, counter: u32) -> bool {
    &&& forall|i: int| 0 <= i < nodes.len() ==> 1 <= #[trigger] nodes[i].serial <= counter
    &&& forall|i: int, j: int|
        0 <= i < j < nodes.len() ==> #[trigger] nodes[i].serial < #[trigger] nodes[j].serial
}

proof fn lemma_stored_serials_view(nodes: Seq<Node>, counter: u32)
    requires
        stored_serials_ordered(nodes, counter),
    ensures
        serials_ordered(node_list_view(nodes), counter),
{
    let v = node_list_view(nodes);
    assert forall|i: int| 0 <= i < v.len() implies 1 <= #[trigger] v[i].serial <= counter by {
        assert(v[i] == nodes[i]@);
    }
    assert forall|i: int, j: int| 0 <= i < j < v.len() implies #[trigger] v[i].serial
        < #[trigger] v[j].serial by {
        assert(v[i] == nodes[i]@);
        assert(v[j] == nodes[j]@);
    }
}

proof fn lemma_stored_serials_grow(nodes: Seq<Node>, counter: u32)
    requires
        stored_serials_ordered(nodes, counter),
        counter < u32::MAX,
    ensures
        stored_serials_ordered(nodes, (counter + 1) as u32),
        forall|i: int| 0 <= i < nodes.len() ==> #[trigger] nodes[i].serial < counter + 1,
{
}

/// `nodes` without the element at `index`; the serial order is kept.
fn remove_node_at(nodes: &mut Vec<Node>, index: usize, Ghost(counter): Ghost<u32>)
    requires
        index < old(nodes)@.len(),
        stored_serials_ordered(old(nodes)@, counter),
    ensures
        node_list_view(final(nodes)@) == node_list_view(old(nodes)@).remove(index as int),
        stored_serials_ordered(final(nodes)@, counter),
{
    let ghost old_nodes = nodes@;
    nodes.remove(index);
    assert(nodes@ == old_nodes.remove(index as int));
    assert(node_list_view(nodes@) =~= node_list_view(old_nodes).remove(index as int));
    assert forall|i: int, j: int| 0 <= i < j < nodes@.len() implies #[trigger] nodes@[i].serial
        < #[trigger] nodes@[j].serial by {
        let oi = if i < index { i } else { i + 1 };
        let oj = if j < index { j } else { j + 1 };
        assert(nodes@[i] == old_nodes[oi]);
        assert(nodes@[j] == old_nodes[oj]);
    }
    assert forall|i: int| 0 <= i < nodes@.len() implies 1 <= #[trigger] nodes@[i].serial
        <= counter by {
        let oi = if i < index { i } else { i + 1 };
        assert(nodes@[i] == old_nodes[oi]);
    }
}

/// A node, marked disconnected when it was connected from `address`.
pub open spec fn disconnect_if_at(address: Seq<char>, n: NodeView) -> NodeView {
    if n.address == address {
        NodeView { connected: false, ..n }
    } else {
        n
    }
}

/// Appends `node`, whose serial is above every other.
fn push_node(nodes: &mut Vec<Node>, node: Node, Ghost(counter): Ghost<u32>)
    requires
        stored_serials_ordered(old(nodes)@, counter),
        node.serial == counter,
        counter >= 1,
        forall|i: int| 0 <= i < old(nodes)@.len() ==> #[trigger] old(nodes)@[i].serial < counter,
    ensures
        node_list_view(final(nodes)@) == node_list_view(old(nodes)@).push(node@),
        stored_serials_ordered(final(nodes)@, counter),
{
    let ghost old_nodes = nodes@;
    let ghost nv = node@;
    let ghost nd = node;
    nodes.push(node);
    assert(nodes@ == old_nodes.push(nd));
    assert(node_list_view(nodes@) =~= node_list_view(old_nodes).push(nv));
    assert forall|i: int, j: int| 0 <= i < j < nodes@.len() implies #[trigger] nodes@[i].serial
        < #[trigger] nodes@[j].serial by {
        if j == old_nodes.len() {
            assert(nodes@[i] == old_nodes[i]);
        } else {
            assert(nodes@[i] == old_nodes[i]);
            assert(nodes@[j] == old_nodes[j]);
        }
    }
    assert forall|i: int| 0 <= i < nodes@.len() implies 1 <= #[trigger] nodes@[i].serial
        <= counter by {
        if i < old_nodes.len() {
            assert(nodes@[i] == old_nodes[i]);
        }
    }
}

/// Replaces the node at `index` by one of the same serial.
fn set_node(nodes: &mut Vec<Node>, index: usize, node: Node, Ghost(counter): Ghost<u32>)
    requires
        index < old(nodes)@.len(),
        stored_serials_ordered(old(nodes)@, counter),
        node.serial == old(nodes)@[index as int].serial,
    ensures
        node_list_view(final(nodes)@) == node_list_view(old(nodes)@).update(index as int, node@),
        stored_serials_ordered(final(nodes)@, counter),
{
    let ghost old_nodes = nodes@;
    let ghost nv = node@;
    nodes.set(index, node);
    assert(node_list_view(nodes@) =~= node_list_view(old_nodes).update(index as int, nv));
}

/// Marks the nodes connected from `address` as disconnected.
fn disconnect_nodes(nodes: &mut Vec<Node>, address: &String, Ghost(counter): Ghost<u32>)
    requires
        stored_serials_ordered(old(nodes)@, counter),
    ensures
        node_list_view(final(nodes)@) == node_list_view(old(nodes)@).map_values(
            |n: NodeView| disconnect_if_at(address@, n),
        ),
        stored_serials_ordered(final(nodes)@, counter),
{
    let ghost old_nodes = nodes@;
    let mut i: usize = 0;
    while i < nodes.len()
        invariant
            i <= nodes@.len(),
            nodes@.len() == old_nodes.len(),
            forall|k: int|
                0 <= k < i ==> #[trigger] nodes@[k]@ == disconnect_if_at(address@, old_nodes[k]@),
            forall|k: int| i <= k < nodes@.len() ==> #[trigger] nodes@[k]@ == old_nodes[k]@,
            forall|k: int| 0 <= k < nodes@.len() ==> #[trigger] nodes@[k].serial == old_nodes[k].serial,
        decreases nodes@.len() - i,
    {
        if nodes[i].address == *address {
            let mut n = nodes[i].clone();
            n.connected = false;
            nodes.set(i, n);
        }
        i = i + 1;
    }
    assert(node_list_view(nodes@) =~= node_list_view(old_nodes).map_values(
        |n: NodeView| disconnect_if_at(address@, n),
    ));
}

/// A node registered by the hub gets a serial that is not 0 and that no
/// other known node has, and the serial order is kept.
pub proof fn lemma_register_fresh_serial(
    old: HubStateView,
    address: Seq<char>,
    hostname: Seq<char>,
    assume_hostname_unique: bool,
)
    requires
        serials_ordered(old.nodes, old.counter),
        old.counter < u32::MAX,
    ensures
        ({
            let new = spec_register_node(old, address, hostname, assume_hostname_unique);
            let serial = new.nodes.last().serial;
            &&& serial != 0
            &&& serial == new.counter
            &&& forall|k: int| 0 <= k < new.nodes.len() - 1 ==> #[trigger] new.nodes[k].serial != serial
            &&& serials_ordered(new.nodes, new.counter)
        }),
{
    let kept = spec_kept_nodes(old.nodes, hostname, assume_hostname_unique);
    lemma_kept_nodes_ordered(old.nodes, hostname, assume_hostname_unique, old.counter);
    let new = spec_register_node(old, address, hostname, assume_hostname_unique);
    assert(new.nodes == kept.push(new_node_view((old.counter + 1) as u32, address, hostname)));
    assert forall|k: int| 0 <= k < new.nodes.len() - 1 implies #[trigger] new.nodes[k].serial
        < new.counter by {
        assert(new.nodes[k] == kept[k]);
    }
    assert forall|i: int, j: int| 0 <= i < j < new.nodes.len() implies #[trigger] new.nodes[i].serial
        < #[trigger] new.nodes[j].serial by {
        assert(new.nodes[i] == kept[i]);
        if j < kept.len() {
            assert(new.nodes[j] == kept[j]);
        }
    }
    assert forall|i: int| 0 <= i < new.nodes.len() implies 1 <= #[trigger] new.nodes[i].serial
        <= new.counter by {
        if i < kept.len() {
            assert(new.nodes[i] == kept[i]);
        }
    }
}

proof fn lemma_kept_nodes_ordered(
    nodes: Seq<NodeView>,
    hostname: Seq<char>,
    assume_hostname_unique: bool,
    counter: u32,
)
    requires
        serials_ordered(nodes, counter),
    ensures
        serials_ordered(spec_kept_nodes(nodes, hostname, assume_hostname_unique), counter),
{
    if assume_hostname_unique {
        if let Some(index) = first_index(nodes, has_hostname(hostname)) {
            crate::search::lemma_first_index_some(nodes, has_hostname(hostname));
            let kept = nodes.remove(index);
            assert forall|i: int, j: int| 0 <= i < j < kept.len() implies #[trigger] kept[i].serial
                < #[trigger] kept[j].serial by {
                let oi = if i < index { i } else { i + 1 };
                let oj = if j < index { j } else { j + 1 };
                assert(kept[i] == nodes[oi]);
                assert(kept[j] == nodes[oj]);
            }
            assert forall|i: int| 0 <= i < kept.len() implies 1 <= #[trigger] kept[i].serial
                <= counter by {
                let oi = if i < index { i } else { i + 1 };
                assert(kept[i] == nodes[oi]);
            }
        }
    }
}

/// When hostnames are assumed unique, a node that reconnects replaces the
/// node of the same hostname: afterwards the new node is the only one with
/// that hostname (given there was at most one before).
pub proof fn lemma_reconnect_replaces(old: HubStateView, address: Seq<char>, hostname: Seq<char>)
    requires
        forall|i: int, j: int|
            0 <= i < old.nodes.len() && 0 <= j < old.nodes.len() && old.nodes[i].hostname
                == hostname && old.nodes[j].hostname == hostname ==> i == j,
    ensures
        ({
            let new = spec_register_node(old, address, hostname, true);
            forall|k: int|
                0 <= k < new.nodes.len() && (#[trigger] new.nodes[k]).hostname == hostname ==> k
                    == new.nodes.len() - 1
        }),
{
    let new = spec_register_node(old, address, hostname, true);
    let kept = spec_kept_nodes(old.nodes, hostname, true);
    assert(new.nodes == kept.push(new_node_view((old.counter + 1) as u32, address, hostname)));
    match first_index(old.nodes, has_hostname(hostname)) {
        Some(index) => {
            crate::search::lemma_first_index_some(old.nodes, has_hostname(hostname));
            assert forall|k: int|
                0 <= k < new.nodes.len() && (#[trigger] new.nodes[k]).hostname == hostname implies k
                == new.nodes.len() - 1 by {
                if k < kept.len() {
                    let ok = if k < index { k } else { k + 1 };
                    assert(kept[k] == old.nodes[ok]);
                    assert(new.nodes[k] == kept[k]);
                }
            }
        },
        None => {
            assert forall|k: int|
                0 <= k < new.nodes.len() && (#[trigger] new.nodes[k]).hostname == hostname implies k
                == new.nodes.len() - 1 by {
                if k < kept.len() {
                    assert(new.nodes[k] == old.nodes[k]);
                    if first_index(old.nodes, has_hostname(hostname)) is None {
                        assert(!has_hostname(hostname)(old.nodes[k])) by {
                            if has_hostname(hostname)(old.nodes[k]) {
                                crate::search::lemma_first_index_exists(
                                    old.nodes,
                                    has_hostname(hostname),
                                    k,
                                );
                            }
                        }
                    }
                }
            }
        },
    }
}

/// The hub's copy of a node's state follows the node: if the hub holds
/// what the node stored, then after the node updates its state with fresh
/// data and the hub applies the resulting atomic update, the hub holds what
/// the node now stores.
pub proof fn lemma_hub_tracks_node_state(
    stored: NodeStateView,
    sessions: Result<Seq<crate::models::node::SessionView>, NodeDataErrorView>,
    wg_peers: Result<Seq<crate::models::node::WgPeerView>, NodeDataErrorView>,
    node: NodeView,
    now: Timestamp,
)
    requires
        node.sessions == stored.sessions,
        node.wg_peers == stored.wg_peers,
    ensures
        ({
            let update = crate::node::handler::spec_node_update(stored, sessions, wg_peers);
            let after = spec_apply_response(node, ResponseView::NodeUpdate(update), now);
            &&& after.sessions == sessions
            &&& after.wg_peers == wg_peers
            &&& after.serial == node.serial
            &&& after.last_state_update == now
        }),
{
}

/// A node's answer to a state request brings the hub's copy of the node up
/// to date: afterwards the hub holds exactly the node's state, stamped with
/// the time of the answer, and the node keeps its serial, address and
/// connection status.
pub proof fn lemma_state_reply_synchronizes(
    stored: NodeStateView,
    source: crate::node::exec::AllowlistSourceView,
    node: NodeView,
    now: Timestamp,
)
    ensures
        ({
            let action = crate::node::exec::spec_node_action(
                crate::models::packet::CommandView::NodeState,
                stored,
                source,
            );
            &&& action is Reply
            &&& action->Reply_0.len() == 1
            &&& ({
                let after = spec_apply_response(node, action->Reply_0[0], now);
                &&& after.sessions == stored.sessions
                &&& after.wg_peers == stored.wg_peers
                &&& after.last_state_update == now
                &&& after.serial == node.serial
                &&& after.address == node.address
                &&& after.connected == node.connected
            })
        }),
{
}

impl HubState {
    #[verifier::type_invariant]
    spec fn inv(self) -> bool {
        stored_serials_ordered(self.nodes@, self.counter)
    }

    /// An empty hub state.
    pub fn new() -> (r: HubState)
        ensures
            r@.counter == 0,
            r@.nodes == Seq::<NodeView>::empty(),
    {
        let r = HubState { counter: 0, nodes: Vec::new() };
        assert(node_list_view(r.nodes@) =~= Seq::<NodeView>::empty());
        r
    }

    /// The invariant of the hub state, for callers: serials are in
    /// `1..=counter` and strictly increase along the node list.
    pub fn check_invariant(&self)
        ensures
            serials_ordered(self@.nodes, self@.counter),
    {
        proof {
            use_type_invariant(self);
            lemma_stored_serials_view(self.nodes@, self.counter);
        }
    }

    /// The last serial handed out.
    pub fn counter(&self) -> (r: u32)
        ensures
            r == self@.counter,
    {
        self.counter
    }

    /// The known nodes, in order of registration.
    pub fn nodes(&self) -> (r: &Vec<Node>)
        ensures
            node_list_view(r@) == self@.nodes,
    {
        &self.nodes
    }

    /// Returns all known nodes.
    pub fn list_nodes(&self) -> (r: Vec<Node>)
        ensures
            node_list_view(r@) == self@.nodes,
    {
        clone_node_list(&self.nodes)
    }

    /// Index of the first node with `serial`, if any.
    fn position_of_serial(&self, serial: u32) -> (r: Option<usize>)
        ensures
            match r {
                Some(k) => first_index(self@.nodes, has_serial(serial)) == Some(k as int),
                None => first_index(self@.nodes, has_serial(serial)) is None,
            },
            r matches Some(k) ==> k < self.nodes@.len() && self.nodes@[k as int].serial == serial,
    {
        let mut i: usize = 0;
        while i < self.nodes.len()
            invariant
                i <= self.nodes@.len(),
                forall|j: int| 0 <= j < i ==> !has_serial(serial)(#[trigger] self@.nodes[j]),
            decreases self.nodes@.len() - i,
        {
            if self.nodes[i].serial == serial {
                proof {
                    lemma_first_index_is(self@.nodes, has_serial(serial), i as int);
                }
                return Some(i);
            }
            i = i + 1;
        }
        proof {
            lemma_first_index_none(self@.nodes, has_serial(serial));
        }
        None
    }

    /// Index of the first node with `hostname`, if any.
    fn position_of_hostname(&self, hostname: &String) -> (r: Option<usize>)
        ensures
            match r {
                Some(k) => first_index(self@.nodes, has_hostname(hostname@)) == Some(k as int),
                None => first_index(self@.nodes, has_hostname(hostname@)) is None,
            },
            r matches Some(k) ==> k < self.nodes@.len(),
    {
        let mut i: usize = 0;
        while i < self.nodes.len()
            invariant
                i <= self.nodes@.len(),
                forall|j: int|
                    0 <= j < i ==> !has_hostname(hostname@)(#[trigger] self@.nodes[j]),
            decreases self.nodes@.len() - i,
        {
            if self.nodes[i].hostname == *hostname {
                proof {
                    lemma_first_index_is(self@.nodes, has_hostname(hostname@), i as int);
                }
                return Some(i);
            }
            i = i + 1;
        }
        proof {
            lemma_first_index_none(self@.nodes, has_hostname(hostname@));
        }
        None
    }

    /// Index of the first node with `address`, if any.
    fn position_of_address(&self, address: &String) -> (r: Option<usize>)
        ensures
            match r {
                Some(k) => first_index(self@.nodes, has_address(address@)) == Some(k as int),
                None => first_index(self@.nodes, has_address(address@)) is None,
            },
            r matches Some(k) ==> k < self.nodes@.len(),
    {
        let mut i: usize = 0;
        while i < self.nodes.len()
            invariant
                i <= self.nodes@.len(),
                forall|j: int| 0 <= j < i ==> !has_address(address@)(#[trigger] self@.nodes[j]),
            decreases self.nodes@.len() - i,
        {
            if self.nodes[i].address == *address {
                proof {
                    lemma_first_index_is(self@.nodes, has_address(address@), i as int);
                }
                return Some(i);
            }
            i = i + 1;
        }
        proof {
            lemma_first_index_none(self@.nodes, has_address(address@));
        }
        None
    }

    /// Whether some node has `serial`.
    pub fn has_node(&self, serial: u32) -> (r: bool)
        ensures
            r == (first_index(self@.nodes, has_serial(serial)) is Some),
    {
        self.position_of_serial(serial).is_some()
    }

    /// Registers a node that connected from `address` and introduced itself
    /// as `hostname`; returns its serial.
    ///
    /// Serial 0 is never handed out: it is reserved for referring to all
    /// connected nodes.
    pub fn handle_new_node(
        &mut self,
        address: String,
        hostname: String,
        assume_hostname_unique: bool,
    ) -> (serial: u32)
        requires
            old(self)@.counter < u32::MAX,
        ensures
            serial == old(self)@.counter + 1,
            final(self)@ == spec_register_node(
                old(self)@,
                address@,
                hostname@,
                assume_hostname_unique,
            ),
    {
        proof {
            use_type_invariant(&*self);
        }
        let ghost old_nodes = self@.nodes;
        if assume_hostname_unique {
            if let Some(index) = self.position_of_hostname(&hostname) {
                let mut nodes: Vec<Node> = Vec::new();
                std::mem::swap(&mut nodes, &mut self.nodes);
                remove_node_at(&mut nodes, index, Ghost(self.counter));
                self.nodes = nodes;
            }
        }
        assert(self@.nodes == spec_kept_nodes(old_nodes, hostname@, assume_hostname_unique));
        let serial = self.counter + 1;
        let mut nodes: Vec<Node> = Vec::new();
        std::mem::swap(&mut nodes, &mut self.nodes);
        proof {
            lemma_stored_serials_grow(nodes@, self.counter);
        }
        self.counter = serial;
        let node = Node {
            serial,
            address,
            hostname,
            sessions: Err(NodeDataError::Initializing),
            wg_peers: Err(NodeDataError::Initializing),
            last_state_update: Timestamp::epoch(),
            connected: true,
        };
        assert(node@ == new_node_view(serial, address@, hostname@));
        push_node(&mut nodes, node, Ghost(serial));
        self.nodes = nodes;
        serial
    }

    /// Applies what node `serial` reported at time `now`: a full state or
    /// an atomic update replaces the stored attributes and stamps the node;
    /// other responses leave it unchanged. A serial the hub does not know is
    /// reported as `SerialNotRecognized`, and nothing changes.
    pub fn handle_response(&mut self, serial: u32, response: &Response, now: Timestamp) -> (r:
        Result<(), ErrHubState>)
        ensures
            match first_index(old(self)@.nodes, has_serial(serial)) {
                None => r == Err::<(), ErrHubState>(ErrHubState::SerialNotRecognized)
                    && final(self)@ == old(self)@,
                Some(i) => r is Ok && final(self)@ == (HubStateView {
                    counter: old(self)@.counter,
                    nodes: old(self)@.nodes.update(
                        i,
                        spec_apply_response(old(self)@.nodes[i], response@, now),
                    ),
                }),
            },
    {
        proof {
            use_type_invariant(&*self);
        }
        let index = match self.position_of_serial(serial) {
            Some(index) => index,
            None => return Err(ErrHubState::SerialNotRecognized),
        };
        let ghost old_nodes = self@.nodes;
        let mut node = self.nodes[index].clone();
        match response {
            Response::NodeState(state) => {
                node.sessions = clone_sessions(&state.sessions);
                node.wg_peers = clone_wg_peers(&state.wg_peers);
                node.last_state_update = now;
            },
            Response::NodeUpdate(update) => {
                if let Some(s) = &update.sessions {
                    node.sessions = clone_sessions(s);
                }
                if let Some(w) = &update.wg_peers {
                    node.wg_peers = clone_wg_peers(w);
                }
                node.last_state_update = now;
            },
            _ => {},
        }
        assert(node@ == spec_apply_response(old_nodes[index as int], response@, now));
        let mut nodes: Vec<Node> = Vec::new();
        std::mem::swap(&mut nodes, &mut self.nodes);
        set_node(&mut nodes, index, node, Ghost(self.counter));
        self.nodes = nodes;
        Ok(())
    }

    /// Marks every node connected from `address` as disconnected.
    pub fn mark_disconnected(&mut self, address: &String)
        ensures
            final(self)@.counter == old(self)@.counter,
            final(self)@.nodes == old(self)@.nodes.map_values(
                |n: NodeView| disconnect_if_at(address@, n),
            ),
    {
        proof {
            use_type_invariant(&*self);
        }
        let mut nodes: Vec<Node> = Vec::new();
        std::mem::swap(&mut nodes, &mut self.nodes);
        disconnect_nodes(&mut nodes, address, Ghost(self.counter));
        self.nodes = nodes;
    }

    /// Forgets the first node connected from `address`, if any.
    pub fn remove_node(&mut self, address: &String)
        ensures
            final(self)@.counter == old(self)@.counter,
            final(self)@.nodes == match first_index(old(self)@.nodes, has_address(address@)) {
                Some(i) => old(self)@.nodes.remove(i),
                None => old(self)@.nodes,
            },
    {
        proof {
            use_type_invariant(&*self);
        }
        let ghost old_nodes = self@.nodes;
        let found = self.position_of_address(address);
        if let Some(index) = found {
            let mut nodes: Vec<Node> = Vec::new();
            std::mem::swap(&mut nodes, &mut self.nodes);
            remove_node_at(&mut nodes, index, Ghost(self.counter));
            self.nodes = nodes;
        }
    }

    /// Returns the result of finding a node with a query matching its
    /// serial, hostname or address host.
    pub fn find_node(&self, query: &str) -> (r: ClientResponse)
        ensures
            r@ == spec_find_node(self@.nodes, query@),
    {
        let q = chars_of(query);
        let mut i: usize = 0;
        while i < self.nodes.len()
            invariant
                q@ == query@,
                i <= self.nodes@.len(),
                forall|j: int| 0 <= j < i ==> !matches_query(query@)(#[trigger] self@.nodes[j]),
            decreases self.nodes@.len() - i,
        {
            if node_matches_query(&self.nodes[i], &q) {
                proof {
                    lemma_first_index_is(self@.nodes, matches_query(query@), i as int);
                }
                return ClientResponse::Node(self.nodes[i].clone());
            }
            i = i + 1;
        }
        proof {
            lemma_first_index_none(self@.nodes, matches_query(query@));
        }
        let mut msg: Vec<char> = Vec::new();
        push_str(&mut msg, "unable to identify node with '");
        push_str(&mut msg, query);
        push_str(&mut msg, "'");
        ClientResponse::Error(string_from_chars(&msg))
    }

    /// Answers the client commands the hub answers from its own state
    /// (`ListNodes`, `FindNode`); `Subscribe` and `RawCommand` involve other
    /// parties and get `None`.
    pub fn answer_client_command(&self, command: &ClientCommand) -> (r: Option<ClientResponse>)
        ensures
            match command@ {
                ClientCommandView::ListNodes => r matches Some(resp) && resp@
                    == ClientResponseView::Nodes(self@.nodes),
                ClientCommandView::FindNode { query } => r matches Some(resp) && resp@
                    == spec_find_node(self@.nodes, query),
                _ => r is None,
            },
    {
        match command {
            ClientCommand::ListNodes => Some(ClientResponse::Nodes(self.list_nodes())),
            ClientCommand::FindNode { query } => Some(self.find_node(query.as_str())),
            _ => None,
        }
    }
}

} // verus!
