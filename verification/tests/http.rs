use secmon::integrations::http::{
    check_execute, expire_time, expiry_representable, is_streaming_command, node_from_answer, nodes_from_answer,
    raw_command_request, response_from_answer, update_for_subscribers, BodyNodeUpdate,
};
use secmon::models::hub::{ClientCommand, ClientResponse, Node};
use secmon::models::node::{NodeUpdate, Timestamp};
use secmon::models::packet::{Command, Response};

fn node() -> Node {
    Node {
        serial: 4,
        address: "10.0.0.4:5000".to_string(),
        hostname: "delta".to_string(),
        sessions: Ok(vec![]),
        wg_peers: Ok(vec![]),
        last_state_update: Timestamp::epoch(),
        connected: true,
    }
}

#[test]
fn streaming_commands() {
    assert!(is_streaming_command(&Command::Execute { command_label: "a".to_string(), stream: true }));
    assert!(!is_streaming_command(&Command::Execute { command_label: "a".to_string(), stream: false }));
    assert!(!is_streaming_command(&Command::NodeState));
}

#[test]
fn answers_of_the_hub_are_checked() {
    assert_eq!(node_from_answer(ClientResponse::Node(node())), Ok(node()));
    assert_eq!(
        node_from_answer(ClientResponse::Error("unable to identify node with 'x'".to_string())),
        Err("Unable to find node: unable to identify node with 'x'".to_string())
    );
    assert_eq!(
        nodes_from_answer(ClientResponse::Node(node())).unwrap_err(),
        format!(
            "Unable to list nodes: Invalid hub daemon response: {}",
            ClientResponse::Node(node()).to_display_string()
        )
    );
    assert_eq!(nodes_from_answer(ClientResponse::Nodes(vec![node()])), Ok(vec![node()]));
    assert_eq!(
        response_from_answer(ClientResponse::RawResponse(Response::KeepAlive)),
        Ok(Response::KeepAlive)
    );
    assert_eq!(
        response_from_answer(ClientResponse::Nodes(vec![])),
        Err("Unable to raw command: Invalid hub daemon response: ClientResponse::Nodes(len=0)".to_string())
    );
}

#[test]
fn expiry_of_requests() {
    let now = Timestamp::new(1000, 5).unwrap();
    assert_eq!(expire_time(&now, 0), Timestamp::epoch());
    assert_eq!(expire_time(&now, 30), Timestamp::new(1030, 5).unwrap());
    let late = Timestamp::new(253402300799, 0).unwrap();
    assert!(expiry_representable(&late, 1));
    assert_eq!(expire_time(&late, 1), Timestamp::new(253402300800, 0).unwrap());
    let last = Timestamp::new(i64::MAX - 10, 0).unwrap();
    assert!(expiry_representable(&last, 10));
    assert!(!expiry_representable(&last, 11));
    assert!(expiry_representable(&last, 0));
    match raw_command_request(4, Command::NodeState, &now, 10) {
        ClientCommand::RawCommand { node_serial, command, expire_time } => {
            assert_eq!(node_serial, 4);
            assert_eq!(command, Command::NodeState);
            assert_eq!(expire_time, Timestamp::new(1010, 5).unwrap());
        }
        _ => panic!("expected a raw command"),
    }
}

#[test]
fn execution_requests_are_checked() {
    let cmd = Command::Execute { command_label: "up".to_string(), stream: false };
    assert_eq!(check_execute(&cmd, None), Ok(0));
    assert_eq!(check_execute(&cmd, Some(Ok("15".to_string()))), Ok(15));
    let e = check_execute(&cmd, Some(Ok("soon".to_string()))).unwrap_err();
    assert_eq!(e, "Unable to parse Expires-In header: invalid digit found in string");
    assert_eq!(
        check_execute(&cmd, Some(Err("failed to convert header to a str".to_string()))),
        Err("Unable to parse Expires-In header: failed to convert header to a str".to_string())
    );
    let stream = Command::Execute { command_label: "up".to_string(), stream: true };
    assert_eq!(
        check_execute(&stream, Some(Ok("15".to_string()))),
        Err("Streaming response is not supported.".to_string())
    );
}

#[test]
fn subscribers_get_node_updates_only() {
    let u = NodeUpdate { sessions: None, wg_peers: None, auth_log: None };
    assert_eq!(
        update_for_subscribers(ClientResponse::NodeUpdate { node_serial: 2, data: u }),
        Some(BodyNodeUpdate {
            node_serial: 2,
            data: NodeUpdate { sessions: None, wg_peers: None, auth_log: None }
        })
    );
    assert_eq!(update_for_subscribers(ClientResponse::Error("x".to_string())), None);
}
