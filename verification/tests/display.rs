use secmon::display::get_display_len;
use secmon::models::hub::{ClientCommand, ClientResponse, Node};
use secmon::models::node::{
    AuthLog, AuthLogDetail, NodeDataError, NodeState, NodeUpdate, Session, Timestamp, WgPeer,
};
use secmon::models::packet::{Command, Response, ResultStatus};
use secmon::models::{HubConfig, NodeConfig};

fn ts(secs: i64) -> Timestamp {
    Timestamp::new(secs, 0).unwrap()
}

fn node() -> Node {
    Node {
        serial: 7,
        address: "10.0.0.1:5000".to_string(),
        hostname: "alpha".to_string(),
        sessions: Ok(vec![]),
        wg_peers: Err(NodeDataError::NotMonitored),
        last_state_update: ts(100),
        connected: true,
    }
}

#[test]
fn display_len_of_lists_and_errors() {
    let ok: Result<Vec<u8>, ()> = Ok(vec![1, 2, 3]);
    let err: Result<Vec<u8>, ()> = Err(());
    assert_eq!(get_display_len(&ok), 3);
    assert_eq!(get_display_len(&err), -1);
}

#[test]
fn data_errors_render() {
    assert_eq!(NodeDataError::Initializing.to_display_string(), "Initializing");
    assert_eq!(NodeDataError::NotMonitored.to_display_string(), "NotMonitored");
    assert_eq!(
        NodeDataError::Message("a \"b\"\n".to_string()).to_display_string(),
        "Message(message=\"a \\\"b\\\"\\n\")"
    );
}

#[test]
fn state_and_update_render() {
    let s = NodeState { sessions: Ok(vec![]), wg_peers: Err(NodeDataError::Initializing) };
    assert_eq!(s.to_display_string(), "NodeState(sessions[0], wg_peers[-1])");
    let u = NodeUpdate { sessions: None, wg_peers: None, auth_log: None };
    assert_eq!(u.to_display_string(), "NodeUpdate()");
    let u = NodeUpdate {
        sessions: Some(Ok(vec![])),
        wg_peers: Some(Err(NodeDataError::NotMonitored)),
        auth_log: Some(Err(NodeDataError::Initializing)),
    };
    assert_eq!(
        u.to_display_string(),
        "NodeUpdate(sessions[0], wg_peers[-1], auth_log(error=Initializing))"
    );
    let u = NodeUpdate { sessions: None, wg_peers: Some(Ok(vec![])), auth_log: None };
    assert_eq!(u.to_display_string(), "NodeUpdate(wg_peers[0])");
}

#[test]
fn sessions_peers_and_logs_render() {
    let s = Session { user: "root".to_string(), from: None, login: ts(100) };
    assert_eq!(
        s.to_display_string(),
        "Session(user=\"root\", from=\"N/A\", login=\"1970-01-01 00:01:40 UTC\")"
    );
    let p = WgPeer {
        interface: "wg0".to_string(),
        peer: "KEY".to_string(),
        endpoint: Some("1.2.3.4:51820".to_string()),
        latest_handshake: None,
    };
    assert_eq!(
        p.to_display_string(),
        "WgPeer(interface=\"wg0\", peer=\"KEY\", endpoint=\"1.2.3.4:51820\", latest_handshake=\"N/A\")"
    );
    let l = AuthLog {
        time: ts(0),
        process: "sshd[12]".to_string(),
        user: "bob".to_string(),
        detail: AuthLogDetail::SshConnect(("1.2.3.4".to_string(), 22), "publickey".to_string()),
    };
    assert_eq!(
        l.to_display_string(),
        "AuthLog(time=\"1970-01-01 00:00:00 UTC\", process=\"sshd[12]\", user=\"bob\", detail=SshConnect(host=\"1.2.3.4\", port=22, method=\"publickey\"))"
    );
    assert_eq!(
        AuthLogDetail::SuClose("root".to_string()).to_display_string(),
        "SuClose(target=\"root\")"
    );
    assert_eq!(
        AuthLogDetail::SshFailPassword(("h".to_string(), 1)).to_display_string(),
        "SshFailPassword(host=\"h\", port=1)"
    );
}

#[test]
fn packets_render() {
    assert_eq!(Command::NodeState.to_display_string(), "Command::NodeState");
    assert_eq!(
        Command::Execute { command_label: "up".to_string(), stream: false }.to_display_string(),
        "Command::Execute(command_label=\"up\", stream=false)"
    );
    assert_eq!(ResultStatus::Timeout.to_display_string(), "timeout");
    assert_eq!(
        Response::Result { status: ResultStatus::Success, output: "ok\n".to_string() }
            .to_display_string(),
        "Response::Result(status=\"success\", output=\"ok\\n\")"
    );
    assert_eq!(
        Response::Connect { hostname: "h".to_string() }.to_display_string(),
        "Response::Connect(hostname=\"h\")"
    );
    assert_eq!(Response::KeepAlive.to_display_string(), "Response::KeepAlive");
}

#[test]
fn hub_types_render() {
    assert_eq!(
        node().to_display_string(),
        "Node(serial=7, hostname=\"alpha\", address=\"10.0.0.1:5000\", sessions[0], wg_peers[-1], last_update=\"1970-01-01 00:01:40 UTC\")"
    );
    assert_eq!(
        ClientCommand::FindNode { query: "x".to_string() }.to_display_string(),
        "ClientCommand::FindNode(query=\"x\")"
    );
    assert_eq!(
        ClientCommand::RawCommand {
            node_serial: 3,
            command: Command::NodeState,
            expire_time: Timestamp::epoch()
        }
        .to_display_string(),
        "ClientCommand::RawCommand(node_serial=3, command=Command::NodeState, expire_time=\"1970-01-01 00:00:00 UTC\")"
    );
    assert_eq!(
        ClientResponse::Nodes(vec![node(), node()]).to_display_string(),
        "ClientResponse::Nodes(len=2)"
    );
    assert_eq!(
        ClientResponse::Error("no".to_string()).to_display_string(),
        "ClientResponse::Error(error=\"no\")"
    );
    assert!(ClientResponse::Node(node()).to_display_string().starts_with("ClientResponse::Node(serial=7"));
}

#[test]
fn configs_render() {
    let h = HubConfig { remote_exec_timeout: 300, disconnect_grace_period: 60, assume_hostname_unique: true };
    assert_eq!(h.to_display_string(), "disconnect_grace_period=60, assume_hostname_unique=true");
    let n = NodeConfig { reconnect: true, enable_sessions: false, enable_wg_peers: true, enable_auth_log: false };
    assert_eq!(n.to_display_string(), "reconnect=true, sessions=false, wg_peers=true, auth_log=false");
}

#[test]
fn times_past_the_calendar_are_found_before_rendering() {
    let far = ts(9_000_000_000_000);
    let s = Session { user: "u".to_string(), from: None, login: far };
    assert!(!s.displayable());
    let ok = Session { user: "u".to_string(), from: None, login: ts(300_000_000_000) };
    assert!(ok.displayable());
    assert!(ok.to_display_string().contains("+11476-"));
    let cmd = ClientCommand::RawCommand { node_serial: 1, command: Command::NodeState, expire_time: far };
    assert!(!cmd.displayable());
    assert!(ClientCommand::ListNodes.displayable());
    let mut n = node();
    assert!(n.displayable());
    assert!(n.times_displayable());
    n.sessions = Ok(vec![s.clone()]);
    assert!(!n.times_displayable());
    assert!(n.displayable());
    assert!(ClientResponse::Nodes(vec![n.clone()]).displayable());
    n.last_state_update = far;
    assert!(!ClientResponse::Node(n).displayable());
    let peer = WgPeer { interface: "wg0".to_string(), peer: "K".to_string(), endpoint: None, latest_handshake: Some(far) };
    assert!(!peer.displayable());
    let log = AuthLog { time: far, process: "p".to_string(), user: "u".to_string(), detail: AuthLogDetail::SuClose("x".to_string()) };
    assert!(!log.displayable());
    let u = NodeUpdate { sessions: None, wg_peers: None, auth_log: Some(Ok(log)) };
    assert!(!u.displayable());
    assert!(!Response::NodeUpdate(u).displayable());
}
