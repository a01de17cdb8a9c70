//! Packets exchanged between hub and node: commands from the hub and
//! responses from the node.
use vstd::prelude::*;

use crate::models::node::{NodeState, NodeStateView, NodeUpdate, NodeUpdateView};
use crate::text::{lines, split_lines, chars_of, string_from_chars};

verus! {

/// Command sent from hub to node.
#[derive(Debug, PartialEq)]
pub enum Command {
    /// Request the current node state.
    NodeState,
    /// Execute a preconfigured allowed command.
    ///
    /// With `stream == false` a single `Response::Result` answers once the
    /// command completes; with `stream == true` a `Response::ResultStream`
    /// is sent for each line of output, until a non-pending status with an
    /// empty line closes the stream.
    Execute { command_label: String, stream: bool },
}

/// Mathematical view of a [`Command`].
pub enum CommandView {
    NodeState,
    Execute { command_label: Seq<char>, stream: bool },
}

impl View for Command {
    type V = CommandView;

    open spec fn view(&self) -> CommandView {
        match self {
            Command::NodeState => CommandView::NodeState,
            Command::Execute { command_label, stream } => CommandView::Execute {
                command_label: command_label@,
                stream: *stream,
            },
        }
    }
}

impl Clone for Command {
    fn clone(&self) -> (r: Self)
        ensures
            r@ == self@,
    {
        match self {
            Command::NodeState => Command::NodeState,
            Command::Execute { command_label, stream } => Command::Execute {
                command_label: command_label.clone(),
                stream: *stream,
            },
        }
    }
}

/// Status of a command result.
#[derive(Debug, Clone, Copy, PartialEq, Eq, Structural)]
pub enum ResultStatus {
    Pending,
    Timeout,
    Success,
    Failure,
}

/// Response sent from node to hub.
#[derive(Debug, PartialEq)]
pub enum Response {
    /// Keep-alive acknowledgement.
    KeepAlive,
    /// Connection established; sent once, first.
    Connect { hostname: String },
    /// Full node state of all stored data (only on request).
    NodeState(NodeState),
    /// Atomic update of node state, including tracked-only data (sent
    /// unrequested).
    NodeUpdate(NodeUpdate),
    /// Full result of executing a command, sent once it completes.
    Result { status: ResultStatus, output: String },
    /// Partial result of executing a command: `Pending` for each line of
    /// output, then an empty line with the final status.
    ResultStream { status: ResultStatus, line: String },
}

/// Mathematical view of a [`Response`].
pub enum ResponseView {
    KeepAlive,
    Connect { hostname: Seq<char> },
    NodeState(NodeStateView),
    NodeUpdate(NodeUpdateView),
    Result { status: ResultStatus, output: Seq<char> },
    ResultStream { status: ResultStatus, line: Seq<char> },
}

impl View for Response {
    type V = ResponseView;

    open spec fn view(&self) -> ResponseView {
        match self {
            Response::KeepAlive => ResponseView::KeepAlive,
            Response::Connect { hostname } => ResponseView::Connect { hostname: hostname@ },
            Response::NodeState(s) => ResponseView::NodeState(s@),
            Response::NodeUpdate(u) => ResponseView::NodeUpdate(u@),
            Response::Result { status, output } => ResponseView::Result {
                status: *status,
                output: output@,
            },
            Response::ResultStream { status, line } => ResponseView::ResultStream {
                status: *status,
                line: line@,
            },
        }
    }
}

impl Clone for Response {
    fn clone(&self) -> (r: Self)
        ensures
            r@ == self@,
    {
        match self {
            Response::KeepAlive => Response::KeepAlive,
            Response::Connect { hostname } => Response::Connect { hostname: hostname.clone() },
            Response::NodeState(s) => Response::NodeState(s.clone()),
            Response::NodeUpdate(u) => Response::NodeUpdate(u.clone()),
            Response::Result { status, output } => Response::Result {
                status: *status,
                output: output.clone(),
            },
            Response::ResultStream { status, line } => Response::ResultStream {
                status: *status,
                line: line.clone(),
            },
        }
    }
}

/// Whether a response is a partial response that further streamed
/// responses will follow.
pub open spec fn spec_is_streaming_response(r: ResponseView) -> bool {
    r matches ResponseView::ResultStream { status: ResultStatus::Pending, .. }
}

/// Returns whether a hub-node response is a partial response that will
/// have subsequent streaming responses.
pub fn is_streaming_response(response: &Response) -> (r: bool)
    ensures
        r == spec_is_streaming_response(response@),
{
    match response {
        Response::ResultStream { status: ResultStatus::Pending, .. } => true,
        Response::ResultStream { .. }
        | Response::KeepAlive
        | Response::Connect { .. }
        | Response::NodeState(_)
        | Response::NodeUpdate(_)
        | Response::Result { .. } => false,
    }
}

/// The final status of a completed command: `Success` for `Ok`,
/// `Failure` for `Err`.
pub open spec fn completion_status(ok: bool) -> ResultStatus {
    if ok {
        ResultStatus::Success
    } else {
        ResultStatus::Failure
    }
}

/// Returns `Response::Result` built from the outcome of running a command:
/// its output with `Success`, or its error with `Failure`.
pub fn response_result(result: Result<String, String>) -> (r: Response)
    ensures
        r@ == (match result {
            Ok(output) => ResponseView::Result { status: ResultStatus::Success, output: output@ },
            Err(error) => ResponseView::Result { status: ResultStatus::Failure, output: error@ },
        }),
{
    match result {
        Ok(output) => Response::Result { status: ResultStatus::Success, output },
        Err(error) => Response::Result { status: ResultStatus::Failure, output: error },
    }
}

/// The text of a completed command: its output or its error.
pub open spec fn result_text(result: Result<String, String>) -> Seq<char> {
    match result {
        Ok(o) => o@,
        Err(e) => e@,
    }
}

/// The streamed responses for a completed command: one `Pending`
/// `ResultStream` per line of its text, then an empty line carrying the
/// final status.
pub open spec fn spec_streamed_result(result: Result<String, String>) -> Seq<ResponseView> {
    let ls = lines(result_text(result));
    Seq::new(
        ls.len(),
        |i: int| ResponseView::ResultStream { status: ResultStatus::Pending, line: ls[i] },
    ).push(ResponseView::ResultStream { status: completion_status(result is Ok), line: seq![] })
}

/// Returns the `ResultStream` responses that answer a streaming `Execute`
/// command whose run ended with `result`.
pub fn streamed_result(result: Result<String, String>) -> (r: Vec<Response>)
    ensures
        r@.map_values(|x: Response| x@) == spec_streamed_result(result),
{
    let ok = result.is_ok();
    let text = match &result {
        Ok(o) => chars_of(o.as_str()),
        Err(e) => chars_of(e.as_str()),
    };
    let ls = split_lines(&text);
    let ghost spec_ls = lines(result_text(result));
    let mut r: Vec<Response> = Vec::new();
    let mut i: usize = 0;
    while i < ls.len()
        invariant
            i <= ls@.len(),
            ls.deep_view() == spec_ls,
            r@.len() == i,
            forall|k: int|
                0 <= k < i ==> #[trigger] r@[k]@ == (ResponseView::ResultStream {
                    status: ResultStatus::Pending,
                    line: spec_ls[k],
                }),
        decreases ls@.len() - i,
    {
        let line = string_from_chars(&ls[i]);
        proof {
            assert(ls.deep_view()[i as int] == ls@[i as int].deep_view());
            crate::text::lemma_chars_deep_view(&ls@[i as int]);
        }
        r.push(Response::ResultStream { status: ResultStatus::Pending, line });
        i = i + 1;
    }
    let status = if ok {
        ResultStatus::Success
    } else {
        ResultStatus::Failure
    };
    let empty = String::new();
    r.push(Response::ResultStream { status, line: empty });
    assert(r@.map_values(|x: Response| x@) =~= spec_streamed_result(result));
    r
}

/// Every streamed answer to a command ends the stream exactly at its last
/// response: all responses before it are streaming, the last is not and
/// carries an empty line with the command's final status.
pub proof fn lemma_streamed_result_terminates(result: Result<String, String>)
    ensures
        ({
            let s = spec_streamed_result(result);
            &&& s.len() >= 1
            &&& forall|i: int| 0 <= i < s.len() - 1 ==> spec_is_streaming_response(#[trigger] s[i])
            &&& !spec_is_streaming_response(s.last())
            &&& s.last() == (ResponseView::ResultStream {
                status: completion_status(result is Ok),
                line: seq![],
            })
        }),
{
}

} // verus!
