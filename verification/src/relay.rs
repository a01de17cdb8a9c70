//! How the hub relays commands from clients to a node and the node's
//! answers back: one command at a time per node, a streamed answer being
//! relayed until its last response.
use vstd::prelude::*;

use crate::hub::spec_command_expired;
use crate::models::hub::{ClientResponse, ClientResponseView};
use crate::models::node::Timestamp;
use crate::models::packet::{
    Response, ResponseView, completion_status, is_streaming_response, spec_is_streaming_response,
    spec_streamed_result, lemma_streamed_result_terminates,
};
use crate::text::{push_decimal, push_str, string_from_chars};

verus! {

/// Where the hub's link to a node sends a response of the node.
#[derive(Debug, Clone, Copy, PartialEq, Eq, Structural)]
pub enum ResponseRoute {
    /// Nothing to do (keep-alive, or a repeated connection message).
    Ignore,
    /// Apply it to the hub's record of the node.
    ApplyToState,
    /// Forward it to the client whose command it answers; `last` when no
    /// further response answers that command.
    Forward { last: bool },
    /// No command awaits it: drop it.
    Drop,
}

/// Where a response of the node goes, depending on whether a command
/// awaits its answer.
pub open spec fn spec_route_response(awaiting: bool, r: ResponseView) -> ResponseRoute {
    match r {
        ResponseView::KeepAlive | ResponseView::Connect { .. } => ResponseRoute::Ignore,
        ResponseView::NodeState(_) | ResponseView::NodeUpdate(_) => ResponseRoute::ApplyToState,
        _ => if awaiting {
            ResponseRoute::Forward { last: !spec_is_streaming_response(r) }
        } else {
            ResponseRoute::Drop
        },
    }
}

/// Returns where a response of the node goes.
pub fn route_response(awaiting: bool, r: &Response) -> (route: ResponseRoute)
    ensures
        route == spec_route_response(awaiting, r@),
{
    match r {
        Response::KeepAlive | Response::Connect { .. } => ResponseRoute::Ignore,
        Response::NodeState(_) | Response::NodeUpdate(_) => ResponseRoute::ApplyToState,
        _ => if awaiting {
            ResponseRoute::Forward { last: !is_streaming_response(r) }
        } else {
            ResponseRoute::Drop
        },
    }
}

/// Whether a command still awaits its answer after `route`.
pub open spec fn awaiting_after(awaiting: bool, route: ResponseRoute) -> bool {
    match route {
        ResponseRoute::Forward { last } => !last,
        _ => awaiting,
    }
}

/// What the link does about the next command of a client.
#[derive(Debug, Clone, Copy, PartialEq, Eq, Structural)]
pub enum CommandAdmission {
    /// A command still awaits its answer: leave the next one queued.
    Wait,
    /// Send it to the node, and await its answer.
    Send,
    /// It expired before it could be sent: drop it.
    Expired,
}

/// What the link does about a queued command with `expire_time` at `now`.
pub open spec fn spec_admit_command(awaiting: bool, expire_time: Timestamp, now: Timestamp) -> CommandAdmission {
    if awaiting {
        CommandAdmission::Wait
    } else if spec_command_expired(expire_time, now) {
        CommandAdmission::Expired
    } else {
        CommandAdmission::Send
    }
}

/// Returns what the link does about a queued command with `expire_time`
/// at `now`.
pub fn admit_command(awaiting: bool, expire_time: &Timestamp, now: &Timestamp) -> (a: CommandAdmission)
    ensures
        a == spec_admit_command(awaiting, *expire_time, *now),
{
    if awaiting {
        CommandAdmission::Wait
    } else if crate::hub::is_command_expired(expire_time, now) {
        CommandAdmission::Expired
    } else {
        CommandAdmission::Send
    }
}

/// The responses that the link forwards out of `rs`, and whether a
/// command still awaits its answer after them.
pub open spec fn relay_responses(awaiting: bool, rs: Seq<ResponseView>) -> (Seq<ResponseView>, bool)
    decreases rs.len(),
{
    if rs.len() == 0 {
        (seq![], awaiting)
    } else {
        let (f, a) = relay_responses(awaiting, rs.drop_last());
        let route = spec_route_response(a, rs.last());
        (
            if route is Forward {
                f.push(rs.last())
            } else {
                f
            },
            awaiting_after(a, route),
        )
    }
}

proof fn lemma_relay_streaming_prefix(rs: Seq<ResponseView>, k: int)
    requires
        0 <= k <= rs.len(),
        forall|i: int| 0 <= i < k ==> spec_is_streaming_response(#[trigger] rs[i]),
    ensures
        relay_responses(true, rs.take(k)) == (rs.take(k), true),
    decreases k,
{
    if k > 0 {
        lemma_relay_streaming_prefix(rs, k - 1);
        assert(rs.take(k).drop_last() == rs.take(k - 1));
        assert(rs.take(k).last() == rs[k - 1]);
        assert(rs.take(k - 1).push(rs[k - 1]) == rs.take(k));
    } else {
        assert(rs.take(0) == Seq::<ResponseView>::empty());
    }
}

/// Every response of a streamed answer reaches the client that asked, in
/// order, and the link is free for the next command exactly after the
/// last one.
pub proof fn lemma_stream_fully_relayed(result: Result<String, String>)
    ensures
        relay_responses(true, spec_streamed_result(result)) == (spec_streamed_result(result), false),
{
    let s = spec_streamed_result(result);
    lemma_streamed_result_terminates(result);
    let n = s.len() as int;
    lemma_relay_streaming_prefix(s, n - 1);
    assert(s.drop_last() == s.take(n - 1));
    assert(s.take(n - 1).push(s.last()) == s);
}

/// The error a client gets for a serial that no node has.
pub open spec fn unknown_serial_text(serial: u32) -> Seq<char> {
    "SERIAL="@ + crate::text::decimal(serial as nat) + " is not a recognized node"@
}

/// Returns the answer to a raw command for a serial that no node has.
pub fn unknown_serial(serial: u32) -> (r: ClientResponse)
    ensures
        r@ == ClientResponseView::Error(unknown_serial_text(serial)),
{
    let mut out: Vec<char> = Vec::new();
    push_str(&mut out, "SERIAL=");
    push_decimal(&mut out, serial as u64);
    push_str(&mut out, " is not a recognized node");
    ClientResponse::Error(string_from_chars(&out))
}

/// Returns what the client is sent for a response of the node to its raw
/// command, and whether that response was the last one.
pub fn relay_to_client(resp: Response) -> (r: (ClientResponse, bool))
    ensures
        r.0@ == ClientResponseView::RawResponse(resp@),
        r.1 == !spec_is_streaming_response(resp@),
{
    let last = !is_streaming_response(&resp);
    (ClientResponse::RawResponse(resp), last)
}

/// A command sent without a time limit is never dropped as expired, and
/// one sent with a limit is not dropped while the limit has not passed.
pub proof fn lemma_expiry_respected(now: Timestamp, expires_in: u64, later: Timestamp)
    requires
        crate::integrations::http::expiry_fits(now, expires_in),
    ensures
        spec_admit_command(false, Timestamp::spec_epoch(), later) == CommandAdmission::Send,
        crate::integrations::http::spec_expire_time(now, 0) == Timestamp::spec_epoch(),
        ({
            let t = crate::integrations::http::spec_expire_time(now, expires_in);
            !(later.spec_secs() > t.spec_secs() || (later.spec_secs() == t.spec_secs()
                && later.spec_nanos() > t.spec_nanos())) ==> spec_admit_command(false, t, later)
                == CommandAdmission::Send
        }),
{
}

/// Every response that carries a node's state (its full state or an atomic
/// update of it) is applied to the hub's record of the node, whether or
/// not a command awaits an answer.
pub proof fn lemma_state_responses_applied(
    awaiting: bool,
    state: crate::models::node::NodeStateView,
    update: crate::models::node::NodeUpdateView,
)
    ensures
        spec_route_response(awaiting, ResponseView::NodeState(state)) == ResponseRoute::ApplyToState,
        spec_route_response(awaiting, ResponseView::NodeUpdate(update))
            == ResponseRoute::ApplyToState,
{
}

/// Keep-alives and connection announcements never reach a client; a result
/// reaches the client only while a command awaits its answer, and ends the
/// relay exactly when it is not a pending streamed line.
pub proof fn lemma_results_routed_to_waiting_client(awaiting: bool, r: ResponseView)
    ensures
        (r is KeepAlive || r is Connect) ==> spec_route_response(awaiting, r) == ResponseRoute::Ignore,
        (r is Result || r is ResultStream) ==> spec_route_response(awaiting, r) == (if awaiting {
            ResponseRoute::Forward { last: !(r matches ResponseView::ResultStream { status: crate::models::packet::ResultStatus::Pending, .. }) }
        } else {
            ResponseRoute::Drop
        }),
{
}

} // verus!
