use secmon::cli::{
    exec_event, get_socket_path, launch_mode, listing_times, listing_times_fit, node_list_listing,
    node_listing,
    parse_client_command,
    ClientAction, ExecEvent, LaunchMode, ListingTimes, Span, Style,
};
use secmon::models::hub::{ClientResponse, Node};
use secmon::models::node::{NodeDataError, Session, Timestamp, WgPeer};
use secmon::models::packet::{Command, Response, ResultStatus};
use secmon::models::NodeConfig;

fn args(v: &[&str]) -> Vec<String> {
    v.iter().map(|s| s.to_string()).collect()
}

#[test]
fn launch_modes() {
    assert_eq!(launch_mode(&args(&["secmon"])), LaunchMode::Usage);
    assert_eq!(launch_mode(&args(&["secmon", "hub"])), LaunchMode::Hub);
    assert_eq!(launch_mode(&args(&["secmon", "help"])), LaunchMode::Help);
    assert_eq!(
        launch_mode(&args(&["secmon", "node", "wg", "--reconnect", "auth"])),
        LaunchMode::Node(NodeConfig {
            reconnect: true,
            enable_sessions: false,
            enable_wg_peers: true,
            enable_auth_log: true
        })
    );
    assert_eq!(
        launch_mode(&args(&["secmon", "alpha", "apt", "update"])),
        LaunchMode::Client("alpha apt update".to_string())
    );
}

#[test]
fn client_commands() {
    assert_eq!(parse_client_command("subscribe now"), Ok(ClientAction::Subscribe));
    assert_eq!(parse_client_command("list"), Ok(ClientAction::List { sorted: false }));
    assert_eq!(parse_client_command(" list  sorted "), Ok(ClientAction::List { sorted: true }));
    assert_eq!(parse_client_command(" - "), Ok(ClientAction::List { sorted: false }));
    assert_eq!(parse_client_command("alpha"), Ok(ClientAction::Show { node: "alpha".to_string() }));
    assert_eq!(
        parse_client_command("- apt  update"),
        Ok(ClientAction::Execute {
            node: "-".to_string(),
            command: Command::Execute { command_label: "apt update".to_string(), stream: true }
        })
    );
    assert_eq!(
        parse_client_command("   "),
        Err("Invalid command; Use 'secmon help' for help".to_string())
    );
}

#[test]
fn execution_events() {
    let line = ClientResponse::RawResponse(Response::ResultStream {
        status: ResultStatus::Pending,
        line: "hello".to_string(),
    });
    assert_eq!(exec_event(&line), ExecEvent::Line("hello".to_string()));
    let done = ClientResponse::RawResponse(Response::ResultStream {
        status: ResultStatus::Success,
        line: String::new(),
    });
    assert_eq!(exec_event(&done), ExecEvent::Done(ResultStatus::Success));
    assert_eq!(
        exec_event(&ClientResponse::RawResponse(Response::KeepAlive)),
        ExecEvent::InvalidNodeResponse("Response::KeepAlive".to_string())
    );
    assert_eq!(
        exec_event(&ClientResponse::Error("gone".to_string())),
        ExecEvent::HubError("gone".to_string())
    );
    assert_eq!(
        exec_event(&ClientResponse::Nodes(vec![])),
        ExecEvent::InvalidHubResponse("ClientResponse::Nodes(len=0)".to_string())
    );
}

#[test]
fn socket_paths() {
    assert_eq!(get_socket_path(0), "/run/secmon.sock");
    assert_eq!(get_socket_path(1000), "/run/user/1000/secmon.sock");
}

fn span(style: Style, text: &str) -> Span {
    Span { style, text: text.to_string() }
}

#[test]
fn terminal_listing_of_a_node() {
    let node = Node {
        serial: 3,
        address: "10.0.0.3:5000".to_string(),
        hostname: "gamma".to_string(),
        sessions: Ok(vec![Session {
            user: "ab".to_string(),
            from: None,
            login: Timestamp::epoch(),
        }]),
        wg_peers: Ok(vec![WgPeer {
            interface: "wg0".to_string(),
            peer: "KEY".to_string(),
            endpoint: None,
            latest_handshake: Some(Timestamp::epoch()),
        }]),
        last_state_update: Timestamp::epoch(),
        connected: false,
    };
    let times = ListingTimes {
        last_state_update: "T0".to_string(),
        logins: vec!["09:00".to_string()],
        handshakes: vec![Some("T1".to_string())],
    };
    assert!(listing_times_fit(&node, &times));
    let lines = node_listing(&node, &times);
    assert_eq!(
        lines,
        vec![
            vec![
                span(Style::GreenBold, "node"),
                span(Style::Plain, ": "),
                span(Style::Green, "gamma"),
                span(Style::Plain, " ("),
                span(Style::Red, "disconnected"),
                span(Style::Plain, ")"),
            ],
            vec![span(Style::Plain, "  "), span(Style::Bold, "serial"), span(Style::Plain, ": 3")],
            vec![span(Style::Plain, "  "), span(Style::Bold, "address"), span(Style::Plain, ": 10.0.0.3:5000")],
            vec![span(Style::Plain, "  "), span(Style::Bold, "last state update"), span(Style::Plain, ": T0")],
            vec![],
            vec![span(Style::YellowBold, "sessions"), span(Style::Plain, ":")],
            vec![span(Style::Plain, "  ab  09:00  (/)")],
            vec![],
            vec![span(Style::YellowBold, "wg peer"), span(Style::Plain, ": KEY")],
            vec![span(Style::Plain, "  "), span(Style::Bold, "interface"), span(Style::Plain, ": wg0")],
            vec![span(Style::Plain, "  "), span(Style::Bold, "latest handshake"), span(Style::Plain, ": T1")],
        ]
    );
}

#[test]
fn terminal_listing_of_errors() {
    let node = Node {
        serial: 3,
        address: "a".to_string(),
        hostname: "g".to_string(),
        sessions: Err(NodeDataError::NotMonitored),
        wg_peers: Err(NodeDataError::Message("no wg".to_string())),
        last_state_update: Timestamp::epoch(),
        connected: true,
    };
    let times = ListingTimes { last_state_update: "T".to_string(), logins: vec![], handshakes: vec![] };
    let lines = node_listing(&node, &times);
    assert_eq!(lines.len(), 6);
    assert_eq!(lines[4], vec![]);
    assert_eq!(lines[5], vec![span(Style::YellowBold, "wg peers"), span(Style::Plain, ": no wg")]);
}

fn bare_node(serial: u32, hostname: &str) -> Node {
    Node {
        serial,
        address: "a".to_string(),
        hostname: hostname.to_string(),
        sessions: Err(NodeDataError::NotMonitored),
        wg_peers: Err(NodeDataError::NotMonitored),
        last_state_update: Timestamp::epoch(),
        connected: true,
    }
}

fn bare_times(t: &str) -> ListingTimes {
    ListingTimes { last_state_update: t.to_string(), logins: vec![], handshakes: vec![] }
}

#[test]
fn terminal_listing_of_node_lists() {
    assert_eq!(node_list_listing(&vec![], &vec![]), Vec::<Vec<Span>>::new());
    let nodes = vec![bare_node(1, "one"), bare_node(2, "two")];
    let times = vec![bare_times("T1"), bare_times("T2")];
    let lines = node_list_listing(&nodes, &times);
    let first = node_listing(&nodes[0], &times[0]);
    let second = node_listing(&nodes[1], &times[1]);
    assert_eq!(first.len(), 4);
    assert_eq!(lines.len(), 9);
    assert_eq!(&lines[..4], &first[..]);
    assert_eq!(lines[4], vec![]);
    assert_eq!(&lines[5..], &second[..]);
    assert_eq!(lines[5][2], span(Style::Green, "two"));
    let single = node_list_listing(&vec![bare_node(1, "one")], &vec![bare_times("T1")]);
    assert_eq!(single, first);
}

#[test]
fn listing_times_follow_the_node() {
    let mut node = bare_node(1, "one");
    node.sessions = Ok(vec![Session { user: "u".to_string(), from: None, login: Timestamp::epoch() }]);
    node.wg_peers = Ok(vec![
        WgPeer { interface: "wg0".to_string(), peer: "A".to_string(), endpoint: None, latest_handshake: None },
        WgPeer { interface: "wg0".to_string(), peer: "B".to_string(), endpoint: None, latest_handshake: Some(Timestamp::epoch()) },
    ]);
    let times = listing_times(&node);
    assert!(listing_times_fit(&node, &times));
    assert_eq!(times.logins.len(), 1);
    assert_eq!(times.logins[0].len(), 5);
    assert_eq!(times.handshakes[0], None);
    assert_eq!(times.handshakes[1].as_ref().map(|h| h.len()), Some(19));
    assert_eq!(times.last_state_update.len(), 19);
}
