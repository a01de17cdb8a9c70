//! HTTP integration: the hub's answers turned into results, and the
//! checks on an execution request.
use vstd::prelude::*;

use crate::display::{client_response_displayable, client_response_text};
use crate::models::hub::{ClientCommand, ClientCommandView, ClientResponse, ClientResponseView, Node, NodeView, node_list_view};
use crate::models::node::{NodeUpdate, NodeUpdateView, Timestamp};
use crate::models::packet::{Command, CommandView, Response, ResponseView};
use crate::numbers::{parse_u64, u64_parse_error, unsigned_decimal};
use crate::text::{push_str, string_from_chars};

verus! {

/// Default port of the HTTP server.
pub const DEFAULT_PORT: u16 = 9993;

/// Body of an error answer.
#[derive(Debug, PartialEq)]
pub struct HttpError {
    pub error: String,
}

/// A node update with the serial of its node, as sent to websocket
/// subscribers.
#[derive(Debug, PartialEq)]
pub struct BodyNodeUpdate {
    pub node_serial: u32,
    pub data: NodeUpdate,
}

/// Whether a command to a node would be answered in a stream.
pub open spec fn spec_is_streaming_command(c: CommandView) -> bool {
    c matches CommandView::Execute { stream: true, .. }
}

/// Returns whether a command to a node would be answered in a stream.
pub fn is_streaming_command(command: &Command) -> (r: bool)
    ensures
        r == spec_is_streaming_command(command@),
{
    match command {
        Command::Execute { stream: true, .. } => true,
        Command::Execute { stream: false, .. } | Command::NodeState => false,
    }
}

/// The error for an answer of the hub that is not the expected one: the
/// hub's own error, or the answer itself.
pub open spec fn unexpected_answer(action: Seq<char>, r: ClientResponseView) -> Seq<char> {
    match r {
        ClientResponseView::Error(e) => "Unable to "@ + action + ": "@ + e,
        _ => "Unable to "@ + action + ": Invalid hub daemon response: "@ + client_response_text(r),
    }
}

fn unexpected(action: &str, r: &ClientResponse) -> (e: String)
    requires
        client_response_displayable(r@),
    ensures
        e@ == unexpected_answer(action@, r@),
{
    let mut out: Vec<char> = Vec::new();
    push_str(&mut out, "Unable to ");
    push_str(&mut out, action);
    match r {
        ClientResponse::Error(e) => {
            push_str(&mut out, ": ");
            push_str(&mut out, e.as_str());
        },
        _ => {
            push_str(&mut out, ": Invalid hub daemon response: ");
            let t = r.to_display_string();
            push_str(&mut out, t.as_str());
        },
    }
    string_from_chars(&out)
}

/// Returns the node the hub found, or the error to report.
pub fn node_from_answer(r: ClientResponse) -> (n: Result<Node, String>)
    requires
        r@ is Node || client_response_displayable(r@),
    ensures
        match r@ {
            ClientResponseView::Node(v) => n matches Ok(node) && node@ == v,
            _ => n matches Err(e) && e@ == unexpected_answer("find node"@, r@),
        },
{
    match r {
        ClientResponse::Node(node) => Ok(node),
        _ => Err(unexpected("find node", &r)),
    }
}

/// Returns the nodes the hub listed, or the error to report.
pub fn nodes_from_answer(r: ClientResponse) -> (n: Result<Vec<Node>, String>)
    requires
        r@ is Nodes || client_response_displayable(r@),
    ensures
        match r@ {
            ClientResponseView::Nodes(v) => n matches Ok(nodes) && node_list_view(nodes@) == v,
            _ => n matches Err(e) && e@ == unexpected_answer("list nodes"@, r@),
        },
{
    match r {
        ClientResponse::Nodes(nodes) => Ok(nodes),
        _ => Err(unexpected("list nodes", &r)),
    }
}

/// Returns the node's response relayed by the hub, or the error to report.
pub fn response_from_answer(r: ClientResponse) -> (n: Result<Response, String>)
    requires
        r@ is RawResponse || client_response_displayable(r@),
    ensures
        match r@ {
            ClientResponseView::RawResponse(v) => n matches Ok(resp) && resp@ == v,
            _ => n matches Err(e) && e@ == unexpected_answer("raw command"@, r@),
        },
{
    match r {
        ClientResponse::RawResponse(resp) => Ok(resp),
        _ => Err(unexpected("raw command", &r)),
    }
}

/// Whether a system clock holds the time `expires_in` seconds after `now`
/// (always so for 0, which sets no limit).
pub open spec fn expiry_fits(now: Timestamp, expires_in: u64) -> bool {
    expires_in == 0 || now.spec_secs() + expires_in <= i64::MAX
}

/// Whether a system clock holds the time `expires_in` seconds after `now`
/// (see [`expiry_fits`]).
pub fn expiry_representable(now: &Timestamp, expires_in: u64) -> (r: bool)
    ensures
        r == expiry_fits(*now, expires_in),
{
    let secs = now.secs();
    let total: i128 = secs as i128 + expires_in as i128;
    expires_in == 0 || total <= i64::MAX as i128
}

/// The expiry of a command that must be answered within `expires_in`
/// seconds from `now`: the epoch (no expiry) for 0.
pub open spec fn spec_expire_time(now: Timestamp, expires_in: u64) -> Timestamp {
    if expires_in == 0 {
        Timestamp::spec_epoch()
    } else {
        Timestamp::spec_new((now.spec_secs() + expires_in) as i64, now.spec_nanos())
    }
}

/// Returns the expiry of a command that must be answered within
/// `expires_in` seconds from `now` (0: never expires).
pub fn expire_time(now: &Timestamp, expires_in: u64) -> (r: Timestamp)
    requires
        expiry_fits(*now, expires_in),
    ensures
        r == spec_expire_time(*now, expires_in),
{
    if expires_in == 0 {
        return Timestamp::epoch();
    }
    let secs = now.secs();
    let nanos = now.nanos();
    let total: i128 = secs as i128 + expires_in as i128;
    Timestamp::new(total as i64, nanos).unwrap()
}

/// Returns the request that relays `command` to the node `node_serial`
/// through the hub, to be answered within `expires_in` seconds from `now`
/// (0: no limit).
pub fn raw_command_request(node_serial: u32, command: Command, now: &Timestamp, expires_in: u64) -> (r: ClientCommand)
    requires
        expiry_fits(*now, expires_in),
    ensures
        r@ == (ClientCommandView::RawCommand {
            node_serial,
            command: command@,
            expire_time: spec_expire_time(*now, expires_in),
        }),
{
    let t = expire_time(now, expires_in);
    ClientCommand::RawCommand { node_serial, command, expire_time: t }
}

/// The error answered for a streaming execution request.
pub const STREAMING_NOT_SUPPORTED: &'static str = "Streaming response is not supported.";

/// What an execution request is answered with before anything is sent to
/// the hub: refused when it asks for a stream or its `Expires-In` header
/// (as text, or the reason it is not text) is not a number; else the
/// number of seconds it allows (0 without the header).
pub open spec fn spec_check_execute(command: CommandView, header: Option<Result<Seq<char>, Seq<char>>>) -> Result<
    u64,
    Seq<char>,
> {
    if spec_is_streaming_command(command) {
        Err(STREAMING_NOT_SUPPORTED@)
    } else {
        match header {
            None => Ok(0),
            Some(Err(e)) => Err("Unable to parse Expires-In header: "@ + e),
            Some(Ok(h)) => match unsigned_decimal(h) {
                Some(n) => if n <= u64::MAX {
                    Ok(n as u64)
                } else {
                    Err("Unable to parse Expires-In header: "@ + u64_parse_error(h))
                },
                None => Err("Unable to parse Expires-In header: "@ + u64_parse_error(h)),
            },
        }
    }
}

/// The view of an optional header value.
pub open spec fn header_view(h: Option<Result<String, String>>) -> Option<Result<Seq<char>, Seq<char>>> {
    match h {
        None => None,
        Some(Ok(s)) => Some(Ok(s@)),
        Some(Err(e)) => Some(Err(e@)),
    }
}

/// Checks an execution request: returns the seconds it allows, or the
/// reason it is refused.
pub fn check_execute(command: &Command, header: Option<Result<String, String>>) -> (r: Result<u64, String>)
    ensures
        match spec_check_execute(command@, header_view(header)) {
            Ok(n) => r == Ok::<u64, String>(n),
            Err(m) => r matches Err(e) && e@ == m,
        },
{
    if is_streaming_command(command) {
        return Err(crate::text::owned(STREAMING_NOT_SUPPORTED));
    }
    match header {
        None => Ok(0),
        Some(Err(e)) => {
            let mut out: Vec<char> = Vec::new();
            push_str(&mut out, "Unable to parse Expires-In header: ");
            push_str(&mut out, e.as_str());
            Err(string_from_chars(&out))
        },
        Some(Ok(h)) => match parse_u64(h.as_str()) {
            Ok(n) => Ok(n),
            Err(e) => {
                let mut out: Vec<char> = Vec::new();
                push_str(&mut out, "Unable to parse Expires-In header: ");
                push_str(&mut out, e.as_str());
                Err(string_from_chars(&out))
            },
        },
    }
}

/// What a websocket subscriber is sent for a message of the hub: the node
/// updates, nothing else.
pub fn update_for_subscribers(r: ClientResponse) -> (u: Option<BodyNodeUpdate>)
    ensures
        match r@ {
            ClientResponseView::NodeUpdate { node_serial, data } => u matches Some(b)
                && b.node_serial == node_serial && b.data@ == data,
            _ => u is None,
        },
{
    match r {
        ClientResponse::NodeUpdate { node_serial, data } => Some(BodyNodeUpdate { node_serial, data }),
        _ => None,
    }
}

} // verus!
