use secmon::hub::{is_command_expired, ErrHubState, HubState};
use secmon::models::hub::{ClientCommand, ClientResponse};
use secmon::models::node::{
    NodeDataError, NodeState, NodeUpdate, Session, Timestamp, WgPeer,
};
use secmon::models::packet::{Response, ResultStatus};
use secmon::models::NodeConfig;
use secmon::node::handler::{initial_node_state, update_node_state};
use secmon::models::packet::Command;
use secmon::node::exec::{handle_command, AllowlistSource, NodeAction};

fn ts(secs: i64) -> Timestamp {
    Timestamp::new(secs, 0).unwrap()
}

#[test]
fn registered_nodes_get_increasing_nonzero_serials() {
    let mut hub = HubState::new();
    let a = hub.handle_new_node("10.0.0.1:5000".to_string(), "alpha".to_string(), true);
    let b = hub.handle_new_node("10.0.0.2:5000".to_string(), "beta".to_string(), true);
    assert_eq!(a, 1);
    assert_eq!(b, 2);
    assert_eq!(hub.counter(), 2);
    let nodes = hub.list_nodes();
    assert_eq!(nodes.len(), 2);
    assert_eq!(nodes[0].serial, 1);
    assert_eq!(nodes[1].hostname, "beta");
    assert!(nodes[1].connected);
    assert_eq!(nodes[1].sessions, Err(NodeDataError::Initializing));
    assert_eq!(nodes[1].last_state_update, Timestamp::epoch());
}

#[test]
fn reconnecting_hostname_replaces_old_node() {
    let mut hub = HubState::new();
    hub.handle_new_node("10.0.0.1:5000".to_string(), "alpha".to_string(), true);
    hub.handle_new_node("10.0.0.2:5000".to_string(), "beta".to_string(), true);
    let c = hub.handle_new_node("10.0.0.1:6000".to_string(), "alpha".to_string(), true);
    assert_eq!(c, 3);
    let nodes = hub.list_nodes();
    assert_eq!(nodes.len(), 2);
    assert_eq!(nodes[0].hostname, "beta");
    assert_eq!(nodes[1].serial, 3);
    assert_eq!(nodes[1].address, "10.0.0.1:6000");
}

#[test]
fn without_unique_hostnames_nodes_accumulate() {
    let mut hub = HubState::new();
    hub.handle_new_node("10.0.0.1:5000".to_string(), "alpha".to_string(), false);
    hub.handle_new_node("10.0.0.1:6000".to_string(), "alpha".to_string(), false);
    assert_eq!(hub.list_nodes().len(), 2);
}

#[test]
fn node_state_and_updates_are_applied() {
    let mut hub = HubState::new();
    let s = hub.handle_new_node("10.0.0.1:5000".to_string(), "alpha".to_string(), true);
    let state = NodeState {
        sessions: Ok(vec![Session { user: "root".to_string(), from: None, login: ts(100) }]),
        wg_peers: Err(NodeDataError::NotMonitored),
    };
    assert_eq!(hub.handle_response(s, &Response::NodeState(state), ts(1000)), Ok(()));
    let n = &hub.list_nodes()[0];
    assert_eq!(n.sessions.as_ref().unwrap().len(), 1);
    assert_eq!(n.wg_peers, Err(NodeDataError::NotMonitored));
    assert_eq!(n.last_state_update, ts(1000));

    let update = NodeUpdate {
        sessions: None,
        wg_peers: Some(Ok(vec![WgPeer {
            interface: "wg0".to_string(),
            peer: "KEY".to_string(),
            endpoint: None,
            latest_handshake: None,
        }])),
        auth_log: None,
    };
    assert_eq!(hub.handle_response(s, &Response::NodeUpdate(update), ts(2000)), Ok(()));
    let n = &hub.list_nodes()[0];
    assert_eq!(n.sessions.as_ref().unwrap()[0].user, "root");
    assert_eq!(n.wg_peers.as_ref().unwrap()[0].peer, "KEY");
    assert_eq!(n.last_state_update, ts(2000));

    // other responses leave the node untouched
    assert_eq!(hub.handle_response(s, &Response::KeepAlive, ts(3000)), Ok(()));
    assert_eq!(hub.list_nodes()[0].last_state_update, ts(2000));
}

#[test]
fn unknown_serial_is_reported() {
    let mut hub = HubState::new();
    assert_eq!(
        hub.handle_response(9, &Response::KeepAlive, ts(0)),
        Err(ErrHubState::SerialNotRecognized)
    );
    assert!(!hub.has_node(9));
}

#[test]
fn find_node_by_serial_hostname_or_host() {
    let mut hub = HubState::new();
    hub.handle_new_node("10.0.0.1:5000".to_string(), "alpha".to_string(), true);
    hub.handle_new_node("10.0.0.2:5000".to_string(), "beta".to_string(), true);
    match hub.find_node("2") {
        ClientResponse::Node(n) => assert_eq!(n.hostname, "beta"),
        _ => panic!(),
    }
    match hub.find_node("alpha") {
        ClientResponse::Node(n) => assert_eq!(n.serial, 1),
        _ => panic!(),
    }
    match hub.find_node("10.0.0.2") {
        ClientResponse::Node(n) => assert_eq!(n.serial, 2),
        _ => panic!(),
    }
    assert_eq!(
        hub.find_node("gamma"),
        ClientResponse::Error("unable to identify node with 'gamma'".to_string())
    );
}

#[test]
fn hub_answers_list_and_find_itself() {
    let mut hub = HubState::new();
    hub.handle_new_node("10.0.0.1:5000".to_string(), "alpha".to_string(), true);
    match hub.answer_client_command(&ClientCommand::ListNodes) {
        Some(ClientResponse::Nodes(v)) => assert_eq!(v.len(), 1),
        _ => panic!(),
    }
    match hub.answer_client_command(&ClientCommand::FindNode { query: "1".to_string() }) {
        Some(ClientResponse::Node(n)) => assert_eq!(n.hostname, "alpha"),
        _ => panic!(),
    }
    assert!(hub.answer_client_command(&ClientCommand::Subscribe).is_none());
}

#[test]
fn disconnect_then_remove() {
    let mut hub = HubState::new();
    hub.handle_new_node("10.0.0.1:5000".to_string(), "alpha".to_string(), true);
    hub.handle_new_node("10.0.0.2:5000".to_string(), "beta".to_string(), true);
    hub.mark_disconnected(&"10.0.0.1:5000".to_string());
    let nodes = hub.list_nodes();
    assert!(!nodes[0].connected);
    assert!(nodes[1].connected);
    hub.remove_node(&"10.0.0.1:5000".to_string());
    let nodes = hub.list_nodes();
    assert_eq!(nodes.len(), 1);
    assert_eq!(nodes[0].hostname, "beta");
    hub.check_invariant();
}

#[test]
fn command_expiry() {
    let epoch = Timestamp::epoch();
    assert!(!is_command_expired(&epoch, &ts(1_000_000)));
    assert!(is_command_expired(&ts(10), &ts(11)));
    assert!(!is_command_expired(&ts(10), &ts(10)));
    assert!(is_command_expired(&ts(10), &Timestamp::new(10, 1).unwrap()));
    let _ = ResultStatus::Pending;
}

#[test]
fn hub_tracks_node_state_after_update() {
    let config = NodeConfig { reconnect: false, enable_sessions: true, enable_wg_peers: false, enable_auth_log: false };
    let mut stored = initial_node_state();
    let mut hub = HubState::new();
    let s = hub.handle_new_node("10.0.0.1:5000".to_string(), "alpha".to_string(), true);
    let sessions = vec![Session { user: "bob".to_string(), from: Some("1.2.3.4".to_string()), login: ts(5) }];
    let (changed, update) = update_node_state(config, &mut stored, Ok(sessions), Err("ignored".to_string()));
    assert!(changed);
    hub.handle_response(s, &Response::NodeUpdate(update), ts(9)).unwrap();
    let n = &hub.list_nodes()[0];
    assert_eq!(n.sessions, stored.sessions);
    assert_eq!(n.wg_peers, stored.wg_peers);
}

#[test]
fn state_reply_brings_hub_up_to_date() {
    let mut hub = HubState::new();
    let s = hub.handle_new_node("10.0.0.9:5000".to_string(), "iota".to_string(), true);
    let stored = NodeState {
        sessions: Ok(vec![]),
        wg_peers: Err(NodeDataError::Message("no wg".to_string())),
    };
    let reply = match handle_command(&Command::NodeState, &stored, &AllowlistSource::NotSet) {
        NodeAction::Reply(r) => r.into_iter().next().unwrap(),
        _ => panic!("a state request is answered"),
    };
    hub.handle_response(s, &reply, ts(77)).unwrap();
    let n = &hub.list_nodes()[0];
    assert_eq!(n.sessions, stored.sessions);
    assert_eq!(n.wg_peers, stored.wg_peers);
    assert_eq!(n.last_state_update, ts(77));
    assert!(n.connected);
}
