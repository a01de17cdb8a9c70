use secmon::models::hub::ClientResponse;
use secmon::models::node::{NodeState, NodeDataError, Timestamp};
use secmon::models::packet::{Response, ResultStatus};
use secmon::relay::{
    admit_command, relay_to_client, route_response, unknown_serial, CommandAdmission,
    ResponseRoute,
};

fn ts(secs: i64) -> Timestamp {
    Timestamp::new(secs, 0).unwrap()
}

#[test]
fn routes_of_node_responses() {
    assert_eq!(route_response(true, &Response::KeepAlive), ResponseRoute::Ignore);
    let state = NodeState { sessions: Err(NodeDataError::Initializing), wg_peers: Err(NodeDataError::Initializing) };
    assert_eq!(route_response(false, &Response::NodeState(state)), ResponseRoute::ApplyToState);
    let pending = Response::ResultStream { status: ResultStatus::Pending, line: "x".to_string() };
    let done = Response::ResultStream { status: ResultStatus::Success, line: String::new() };
    assert_eq!(route_response(true, &pending), ResponseRoute::Forward { last: false });
    assert_eq!(route_response(true, &done), ResponseRoute::Forward { last: true });
    assert_eq!(route_response(false, &done), ResponseRoute::Drop);
    let result = Response::Result { status: ResultStatus::Failure, output: String::new() };
    assert_eq!(route_response(true, &result), ResponseRoute::Forward { last: true });
}

#[test]
fn a_streamed_answer_is_relayed_to_its_end() {
    let responses = secmon::node::exec::execute_responses(true, Ok("a\nb".to_string()));
    let mut awaiting = true;
    let mut forwarded = 0;
    for r in &responses {
        match route_response(awaiting, r) {
            ResponseRoute::Forward { last } => {
                forwarded += 1;
                awaiting = !last;
            }
            _ => panic!("every response is forwarded"),
        }
    }
    assert_eq!(forwarded, 3);
    assert!(!awaiting);
}

#[test]
fn admission_of_commands() {
    assert_eq!(admit_command(true, &Timestamp::epoch(), &ts(5)), CommandAdmission::Wait);
    assert_eq!(admit_command(false, &Timestamp::epoch(), &ts(5)), CommandAdmission::Send);
    assert_eq!(admit_command(false, &ts(10), &ts(5)), CommandAdmission::Send);
    assert_eq!(admit_command(false, &ts(4), &ts(5)), CommandAdmission::Expired);
}

#[test]
fn answers_to_clients() {
    assert_eq!(
        unknown_serial(12),
        ClientResponse::Error("SERIAL=12 is not a recognized node".to_string())
    );
    let (r, last) = relay_to_client(Response::ResultStream {
        status: ResultStatus::Pending,
        line: "x".to_string(),
    });
    assert!(!last);
    assert_eq!(
        r,
        ClientResponse::RawResponse(Response::ResultStream {
            status: ResultStatus::Pending,
            line: "x".to_string()
        })
    );
    let (_, last) = relay_to_client(Response::KeepAlive);
    assert!(last);
}
