//! One-line human-readable renderings of the data model, as logs and error
//! messages show them.
use vstd::prelude::*;

use crate::clock::{timestamp_utc, timestamp_utc_text};
use crate::models::hub::{
    ClientCommand, ClientCommandView, ClientResponse, ClientResponseView, Node, NodeView,
};
use crate::models::node::{
    AuthLog, AuthLogDetail, AuthLogDetailView, AuthLogView, NodeDataError, NodeDataErrorView,
    NodeState, NodeStateView, NodeUpdate, NodeUpdateView, Session, SessionView, WgPeer,
    WgPeerView,
};
use crate::models::packet::{Command, CommandView, Response, ResponseView, ResultStatus};
use crate::models::{HubConfig, NodeConfig};
use crate::text::{decimal, push_decimal, push_signed_decimal, push_str, signed_decimal, string_from_chars};

verus! {

/// How `Debug` renders a string: in double quotes, with quotes,
/// backslashes and non-printable characters escaped.
pub uninterp spec fn debug_text(s: Seq<char>) -> Seq<char>;

/// The `Debug` rendering of `s`.
///
/// Trusted: calls std's `Debug` for `str` through `format!("{:?}")`; the
/// text depends on `s` alone and is named by [`debug_text`].
#[verifier::external_body]
fn debug_string(s: &str) -> (r: String)
    ensures
        r@ == debug_text(s@),
{
    format!("{:?}", s)
}

/// `true` or `false`, as `Display` renders a `bool`.
pub open spec fn bool_text(b: bool) -> Seq<char> {
    if b {
        "true"@
    } else {
        "false"@
    }
}

fn push_bool(out: &mut Vec<char>, b: bool)
    ensures
        final(out)@ == old(out)@ + bool_text(b),
{
    if b {
        push_str(out, "true");
    } else {
        push_str(out, "false");
    }
}

/// The length shown for a collected list: its length (as an `i32`), or
/// `-1` when it is an error.
pub open spec fn display_len<T, E>(r: Result<Seq<T>, E>) -> i32 {
    match r {
        Ok(v) => v.len() as i32,
        Err(_) => -1i32,
    }
}

/// Returns the length shown for a collected list: `-1` for an error, else
/// the length of the list.
pub fn get_display_len<T, E>(r: &Result<Vec<T>, E>) -> (n: i32)
    ensures
        n == (match r {
            Ok(v) => v@.len() as i32,
            Err(_) => -1i32,
        }),
{
    match r {
        Ok(v) => v.len() as i32,
        Err(_) => -1i32,
    }
}

/// The text after which a `Some` value or `N/A` follows.
pub open spec fn or_na(o: Option<Seq<char>>) -> Seq<char> {
    match o {
        Some(s) => s,
        None => "N/A"@,
    }
}

fn push_or_na(out: &mut Vec<char>, o: &Option<String>)
    ensures
        final(out)@ == old(out)@ + or_na(crate::models::node::opt_str_view(*o)),
{
    match o {
        Some(s) => push_str(out, s.as_str()),
        None => push_str(out, "N/A"),
    }
}

/// Rendering of a [`NodeDataError`].
pub open spec fn node_data_error_text(e: NodeDataErrorView) -> Seq<char> {
    match e {
        NodeDataErrorView::Initializing => "Initializing"@,
        NodeDataErrorView::NotMonitored => "NotMonitored"@,
        NodeDataErrorView::Message(m) => "Message(message="@ + debug_text(m) + ")"@,
    }
}

fn push_node_data_error(out: &mut Vec<char>, e: &NodeDataError)
    ensures
        final(out)@ == old(out)@ + node_data_error_text(e@),
{
    match e {
        NodeDataError::Initializing => push_str(out, "Initializing"),
        NodeDataError::NotMonitored => push_str(out, "NotMonitored"),
        NodeDataError::Message(m) => {
            push_str(out, "Message(message=");
            let d = debug_string(m.as_str());
            push_str(out, d.as_str());
            push_str(out, ")");
        },
    }
}

/// Rendering of a [`NodeState`].
pub open spec fn node_state_text(s: NodeStateView) -> Seq<char> {
    "NodeState(sessions["@ + signed_decimal(display_len(s.sessions) as int) + "], wg_peers["@
        + signed_decimal(display_len(s.wg_peers) as int) + "])"@
}

fn push_node_state(out: &mut Vec<char>, s: &NodeState)
    ensures
        final(out)@ == old(out)@ + node_state_text(s@),
{
    push_str(out, "NodeState(sessions[");
    push_signed_decimal(out, get_display_len(&s.sessions) as i64);
    push_str(out, "], wg_peers[");
    push_signed_decimal(out, get_display_len(&s.wg_peers) as i64);
    push_str(out, "])");
}

/// Rendering of a [`Session`].
pub open spec fn session_text(s: SessionView) -> Seq<char> {
    "Session(user=\""@ + s.user + "\", from=\""@ + or_na(s.from) + "\", login=\""@
        + timestamp_utc_text(s.login) + "\")"@
}

fn push_session(out: &mut Vec<char>, s: &Session)
    requires
        session_displayable(s@),
    ensures
        final(out)@ == old(out)@ + session_text(s@),
{
    push_str(out, "Session(user=\"");
    push_str(out, s.user.as_str());
    push_str(out, "\", from=\"");
    push_or_na(out, &s.from);
    push_str(out, "\", login=\"");
    let t = timestamp_utc(&s.login);
    push_str(out, t.as_str());
    push_str(out, "\")");
}

/// Rendering of a [`WgPeer`].
pub open spec fn wg_peer_text(p: WgPeerView) -> Seq<char> {
    "WgPeer(interface=\""@ + p.interface + "\", peer=\""@ + p.peer + "\", endpoint=\""@ + or_na(
        p.endpoint,
    ) + "\", latest_handshake=\""@ + match p.latest_handshake {
        Some(t) => timestamp_utc_text(t),
        None => "N/A"@,
    } + "\")"@
}

fn push_wg_peer(out: &mut Vec<char>, p: &WgPeer)
    requires
        wg_peer_displayable(p@),
    ensures
        final(out)@ == old(out)@ + wg_peer_text(p@),
{
    push_str(out, "WgPeer(interface=\"");
    push_str(out, p.interface.as_str());
    push_str(out, "\", peer=\"");
    push_str(out, p.peer.as_str());
    push_str(out, "\", endpoint=\"");
    push_or_na(out, &p.endpoint);
    push_str(out, "\", latest_handshake=\"");
    match &p.latest_handshake {
        Some(t) => {
            let s = timestamp_utc(t);
            push_str(out, s.as_str());
        },
        None => push_str(out, "N/A"),
    }
    push_str(out, "\")");
}

/// Rendering of an [`AuthLogDetail`].
pub open spec fn auth_log_detail_text(d: AuthLogDetailView) -> Seq<char> {
    match d {
        AuthLogDetailView::SshConnect(host, port, method) => "SshConnect(host=\""@ + host
            + "\", port="@ + decimal(port as nat) + ", method=\""@ + method + "\")"@,
        AuthLogDetailView::SshFailPassword(host, port) => "SshFailPassword(host=\""@ + host
            + "\", port="@ + decimal(port as nat) + ")"@,
        AuthLogDetailView::SshDisconnect(host, port) => "SshDisconnect(host=\""@ + host
            + "\", port="@ + decimal(port as nat) + ")"@,
        AuthLogDetailView::SuOpen(t) => "SuOpen(target=\""@ + t + "\")"@,
        AuthLogDetailView::SuFail(t) => "SuFail(target=\""@ + t + "\")"@,
        AuthLogDetailView::SuClose(t) => "SuClose(target=\""@ + t + "\")"@,
    }
}

fn push_auth_log_detail(out: &mut Vec<char>, d: &AuthLogDetail)
    ensures
        final(out)@ == old(out)@ + auth_log_detail_text(d@),
{
    match d {
        AuthLogDetail::SshConnect((host, port), method) => {
            push_str(out, "SshConnect(host=\"");
            push_str(out, host.as_str());
            push_str(out, "\", port=");
            push_decimal(out, *port as u64);
            push_str(out, ", method=\"");
            push_str(out, method.as_str());
            push_str(out, "\")");
        },
        AuthLogDetail::SshFailPassword((host, port)) => {
            push_str(out, "SshFailPassword(host=\"");
            push_str(out, host.as_str());
            push_str(out, "\", port=");
            push_decimal(out, *port as u64);
            push_str(out, ")");
        },
        AuthLogDetail::SshDisconnect((host, port)) => {
            push_str(out, "SshDisconnect(host=\"");
            push_str(out, host.as_str());
            push_str(out, "\", port=");
            push_decimal(out, *port as u64);
            push_str(out, ")");
        },
        AuthLogDetail::SuOpen(t) => {
            push_str(out, "SuOpen(target=\"");
            push_str(out, t.as_str());
            push_str(out, "\")");
        },
        AuthLogDetail::SuFail(t) => {
            push_str(out, "SuFail(target=\"");
            push_str(out, t.as_str());
            push_str(out, "\")");
        },
        AuthLogDetail::SuClose(t) => {
            push_str(out, "SuClose(target=\"");
            push_str(out, t.as_str());
            push_str(out, "\")");
        },
    }
}

/// Rendering of an [`AuthLog`].
pub open spec fn auth_log_text(a: AuthLogView) -> Seq<char> {
    "AuthLog(time=\""@ + timestamp_utc_text(a.time) + "\", process=\""@ + a.process
        + "\", user=\""@ + a.user + "\", detail="@ + auth_log_detail_text(a.detail) + ")"@
}

fn push_auth_log(out: &mut Vec<char>, a: &AuthLog)
    requires
        auth_log_displayable(a@),
    ensures
        final(out)@ == old(out)@ + auth_log_text(a@),
{
    push_str(out, "AuthLog(time=\"");
    let t = timestamp_utc(&a.time);
    push_str(out, t.as_str());
    push_str(out, "\", process=\"");
    push_str(out, a.process.as_str());
    push_str(out, "\", user=\"");
    push_str(out, a.user.as_str());
    push_str(out, "\", detail=");
    push_auth_log_detail(out, &a.detail);
    push_str(out, ")");
}

/// `parts` joined by `sep`.
pub open spec fn join_with(parts: Seq<Seq<char>>, sep: Seq<char>) -> Seq<char>
    decreases parts.len(),
{
    if parts.len() == 0 {
        seq![]
    } else if parts.len() == 1 {
        parts[0]
    } else {
        join_with(parts.drop_last(), sep) + sep + parts.last()
    }
}

/// The parts of a [`NodeUpdate`] rendering, one per attribute present.
pub open spec fn node_update_parts(u: NodeUpdateView) -> Seq<Seq<char>> {
    let a: Seq<Seq<char>> = match u.sessions {
        Some(s) => seq!["sessions["@ + signed_decimal(display_len(s) as int) + "]"@],
        None => seq![],
    };
    let b: Seq<Seq<char>> = match u.wg_peers {
        Some(p) => seq!["wg_peers["@ + signed_decimal(display_len(p) as int) + "]"@],
        None => seq![],
    };
    let c: Seq<Seq<char>> = match u.auth_log {
        Some(Ok(l)) => seq!["auth_log("@ + auth_log_text(l) + ")"@],
        Some(Err(e)) => seq!["auth_log(error="@ + node_data_error_text(e) + ")"@],
        None => seq![],
    };
    a + b + c
}

/// Rendering of a [`NodeUpdate`].
pub open spec fn node_update_text(u: NodeUpdateView) -> Seq<char> {
    "NodeUpdate("@ + join_with(node_update_parts(u), ", "@) + ")"@
}

/// Appends `parts` joined by `sep` to `out`.
pub fn push_joined(out: &mut Vec<char>, parts: &Vec<Vec<char>>, sep: &str)
    ensures
        final(out)@ == old(out)@ + join_with(parts.deep_view(), sep@),
{
    let ghost start = out@;
    let ghost pv = parts.deep_view();
    let mut i: usize = 0;
    while i < parts.len()
        invariant
            i <= parts@.len(),
            pv == parts.deep_view(),
            out@ == start + join_with(pv.take(i as int), sep@),
        decreases parts@.len() - i,
    {
        let ghost before = out@;
        if i > 0 {
            push_str(out, sep);
        }
        crate::text::push_chars(out, &parts[i]);
        proof {
            crate::text::lemma_chars_deep_view(&parts@[i as int]);
            assert(pv.take(i + 1).drop_last() == pv.take(i as int));
            assert(pv.take(i + 1).last() == pv[i as int]);
            if i == 0 {
                assert(join_with(pv.take(1), sep@) == pv[0]);
            }
        }
        i = i + 1;
    }
    assert(pv.take(parts@.len() as int) == pv);
}

fn node_update_part_list(u: &NodeUpdate) -> (r: Vec<Vec<char>>)
    requires
        node_update_displayable(u@),
    ensures
        r.deep_view() == node_update_parts(u@),
{
    let mut parts: Vec<Vec<char>> = Vec::new();
    let ghost mut pv: Seq<Seq<char>> = seq![];
    if let Some(s) = &u.sessions {
        let mut p: Vec<char> = Vec::new();
        push_str(&mut p, "sessions[");
        push_signed_decimal(&mut p, get_display_len(s) as i64);
        push_str(&mut p, "]");
        proof {
            crate::text::lemma_chars_deep_view(&p);
            pv = pv.push(p@);
        }
        parts.push(p);
    }
    assert(parts.deep_view() == pv);
    if let Some(w) = &u.wg_peers {
        let mut p: Vec<char> = Vec::new();
        push_str(&mut p, "wg_peers[");
        push_signed_decimal(&mut p, get_display_len(w) as i64);
        push_str(&mut p, "]");
        proof {
            crate::text::lemma_chars_deep_view(&p);
            pv = pv.push(p@);
        }
        parts.push(p);
    }
    assert(parts.deep_view() == pv);
    if let Some(l) = &u.auth_log {
        let mut p: Vec<char> = Vec::new();
        match l {
            Ok(a) => {
                push_str(&mut p, "auth_log(");
                push_auth_log(&mut p, a);
                push_str(&mut p, ")");
            },
            Err(e) => {
                push_str(&mut p, "auth_log(error=");
                push_node_data_error(&mut p, e);
                push_str(&mut p, ")");
            },
        }
        proof {
            crate::text::lemma_chars_deep_view(&p);
            pv = pv.push(p@);
        }
        parts.push(p);
    }
    assert(parts.deep_view() == pv);
    assert(pv == node_update_parts(u@));
    parts
}

fn push_node_update(out: &mut Vec<char>, u: &NodeUpdate)
    requires
        node_update_displayable(u@),
    ensures
        final(out)@ == old(out)@ + node_update_text(u@),
{
    push_str(out, "NodeUpdate(");
    let parts = node_update_part_list(u);
    push_joined(out, &parts, ", ");
    push_str(out, ")");
}

/// Rendering of a [`Command`].
pub open spec fn command_text(c: CommandView) -> Seq<char> {
    match c {
        CommandView::NodeState => "Command::NodeState"@,
        CommandView::Execute { command_label, stream } => "Command::Execute(command_label=\""@
            + command_label + "\", stream="@ + bool_text(stream) + ")"@,
    }
}

fn push_command(out: &mut Vec<char>, c: &Command)
    ensures
        final(out)@ == old(out)@ + command_text(c@),
{
    match c {
        Command::NodeState => push_str(out, "Command::NodeState"),
        Command::Execute { command_label, stream } => {
            push_str(out, "Command::Execute(command_label=\"");
            push_str(out, command_label.as_str());
            push_str(out, "\", stream=");
            push_bool(out, *stream);
            push_str(out, ")");
        },
    }
}

/// Rendering of a [`ResultStatus`].
pub open spec fn result_status_text(s: ResultStatus) -> Seq<char> {
    match s {
        ResultStatus::Pending => "pending"@,
        ResultStatus::Timeout => "timeout"@,
        ResultStatus::Success => "success"@,
        ResultStatus::Failure => "failure"@,
    }
}

fn push_result_status(out: &mut Vec<char>, s: ResultStatus)
    ensures
        final(out)@ == old(out)@ + result_status_text(s),
{
    match s {
        ResultStatus::Pending => push_str(out, "pending"),
        ResultStatus::Timeout => push_str(out, "timeout"),
        ResultStatus::Success => push_str(out, "success"),
        ResultStatus::Failure => push_str(out, "failure"),
    }
}

/// Rendering of a [`Response`].
pub open spec fn response_text(r: ResponseView) -> Seq<char> {
    match r {
        ResponseView::KeepAlive => "Response::KeepAlive"@,
        ResponseView::Connect { hostname } => "Response::Connect(hostname=\""@ + hostname
            + "\")"@,
        ResponseView::NodeState(s) => "Response::"@ + node_state_text(s),
        ResponseView::NodeUpdate(u) => "Response::"@ + node_update_text(u),
        ResponseView::Result { status, output } => "Response::Result(status=\""@
            + result_status_text(status) + "\", output="@ + debug_text(output) + ")"@,
        ResponseView::ResultStream { status, line } => "Response::ResultStream(status=\""@
            + result_status_text(status) + "\", line="@ + debug_text(line) + ")"@,
    }
}

fn push_response(out: &mut Vec<char>, r: &Response)
    requires
        response_displayable(r@),
    ensures
        final(out)@ == old(out)@ + response_text(r@),
{
    match r {
        Response::KeepAlive => push_str(out, "Response::KeepAlive"),
        Response::Connect { hostname } => {
            push_str(out, "Response::Connect(hostname=\"");
            push_str(out, hostname.as_str());
            push_str(out, "\")");
        },
        Response::NodeState(s) => {
            push_str(out, "Response::");
            push_node_state(out, s);
        },
        Response::NodeUpdate(u) => {
            push_str(out, "Response::");
            push_node_update(out, u);
        },
        Response::Result { status, output } => {
            push_str(out, "Response::Result(status=\"");
            push_result_status(out, *status);
            push_str(out, "\", output=");
            let d = debug_string(output.as_str());
            push_str(out, d.as_str());
            push_str(out, ")");
        },
        Response::ResultStream { status, line } => {
            push_str(out, "Response::ResultStream(status=\"");
            push_result_status(out, *status);
            push_str(out, "\", line=");
            let d = debug_string(line.as_str());
            push_str(out, d.as_str());
            push_str(out, ")");
        },
    }
}

/// Rendering of a [`Node`].
pub open spec fn node_text(n: NodeView) -> Seq<char> {
    "Node(serial="@ + decimal(n.serial as nat) + ", hostname=\""@ + n.hostname
        + "\", address=\""@ + n.address + "\", sessions["@ + signed_decimal(
        display_len(n.sessions) as int,
    ) + "], wg_peers["@ + signed_decimal(display_len(n.wg_peers) as int)
        + "], last_update=\""@ + timestamp_utc_text(n.last_state_update) + "\")"@
}

fn push_node(out: &mut Vec<char>, n: &Node)
    requires
        node_displayable(n@),
    ensures
        final(out)@ == old(out)@ + node_text(n@),
{
    push_str(out, "Node(serial=");
    push_decimal(out, n.serial as u64);
    push_str(out, ", hostname=\"");
    push_str(out, n.hostname.as_str());
    push_str(out, "\", address=\"");
    push_str(out, n.address.as_str());
    push_str(out, "\", sessions[");
    push_signed_decimal(out, get_display_len(&n.sessions) as i64);
    push_str(out, "], wg_peers[");
    push_signed_decimal(out, get_display_len(&n.wg_peers) as i64);
    push_str(out, "], last_update=\"");
    let t = timestamp_utc(&n.last_state_update);
    push_str(out, t.as_str());
    push_str(out, "\")");
}

/// Rendering of a [`ClientCommand`].
pub open spec fn client_command_text(c: ClientCommandView) -> Seq<char> {
    match c {
        ClientCommandView::Subscribe => "ClientCommand::Subscribe"@,
        ClientCommandView::ListNodes => "ClientCommand::ListNodes"@,
        ClientCommandView::FindNode { query } => "ClientCommand::FindNode(query=\""@ + query
            + "\")"@,
        ClientCommandView::RawCommand { node_serial, command, expire_time } =>
            "ClientCommand::RawCommand(node_serial="@ + decimal(node_serial as nat)
            + ", command="@ + command_text(command) + ", expire_time=\""@ + timestamp_utc_text(
            expire_time,
        ) + "\")"@,
    }
}

/// Rendering of a [`ClientResponse`].
pub open spec fn client_response_text(r: ClientResponseView) -> Seq<char> {
    match r {
        ClientResponseView::NodeUpdate { node_serial, data } =>
            "ClientResponse::NodeUpdate(node_serial="@ + decimal(node_serial as nat) + ", data="@
            + node_update_text(data) + ")"@,
        ClientResponseView::Nodes(nodes) => "ClientResponse::Nodes(len="@ + decimal(nodes.len())
            + ")"@,
        ClientResponseView::Node(n) => "ClientResponse::"@ + node_text(n),
        ClientResponseView::RawResponse(r) => "ClientResponse::RawResponse(response="@
            + response_text(r) + ")"@,
        ClientResponseView::Error(e) => "ClientResponse::Error(error="@ + debug_text(e) + ")"@,
    }
}

/// Rendering of a [`HubConfig`].
pub open spec fn hub_config_text(c: HubConfig) -> Seq<char> {
    "disconnect_grace_period="@ + decimal(c.disconnect_grace_period as nat)
        + ", assume_hostname_unique="@ + bool_text(c.assume_hostname_unique)
}

/// Rendering of a [`NodeConfig`].
pub open spec fn node_config_text(c: NodeConfig) -> Seq<char> {
    "reconnect="@ + bool_text(c.reconnect) + ", sessions="@ + bool_text(c.enable_sessions)
        + ", wg_peers="@ + bool_text(c.enable_wg_peers) + ", auth_log="@ + bool_text(
        c.enable_auth_log,
    )
}

impl NodeDataError {
    /// Renders the error for logs.
    pub fn to_display_string(&self) -> (r: String)
        ensures
            r@ == node_data_error_text(self@),
    {
        let mut out: Vec<char> = Vec::new();
        push_node_data_error(&mut out, self);
        string_from_chars(&out)
    }
}

impl NodeState {
    /// Renders the state for logs.
    pub fn to_display_string(&self) -> (r: String)
        ensures
            r@ == node_state_text(self@),
    {
        let mut out: Vec<char> = Vec::new();
        push_node_state(&mut out, self);
        string_from_chars(&out)
    }
}

impl NodeUpdate {
    /// Renders the update for logs.
    pub fn to_display_string(&self) -> (r: String)
        requires
            node_update_displayable(self@),
        ensures
            r@ == node_update_text(self@),
    {
        let mut out: Vec<char> = Vec::new();
        push_node_update(&mut out, self);
        string_from_chars(&out)
    }
}

impl Session {
    /// Renders the session for logs.
    pub fn to_display_string(&self) -> (r: String)
        requires
            session_displayable(self@),
        ensures
            r@ == session_text(self@),
    {
        let mut out: Vec<char> = Vec::new();
        push_session(&mut out, self);
        string_from_chars(&out)
    }
}

impl WgPeer {
    /// Renders the peer for logs.
    pub fn to_display_string(&self) -> (r: String)
        requires
            wg_peer_displayable(self@),
        ensures
            r@ == wg_peer_text(self@),
    {
        let mut out: Vec<char> = Vec::new();
        push_wg_peer(&mut out, self);
        string_from_chars(&out)
    }
}

impl AuthLog {
    /// Renders the entry for logs.
    pub fn to_display_string(&self) -> (r: String)
        requires
            auth_log_displayable(self@),
        ensures
            r@ == auth_log_text(self@),
    {
        let mut out: Vec<char> = Vec::new();
        push_auth_log(&mut out, self);
        string_from_chars(&out)
    }
}

impl AuthLogDetail {
    /// Renders the detail for logs.
    pub fn to_display_string(&self) -> (r: String)
        ensures
            r@ == auth_log_detail_text(self@),
    {
        let mut out: Vec<char> = Vec::new();
        push_auth_log_detail(&mut out, self);
        string_from_chars(&out)
    }
}

impl Command {
    /// Renders the command for logs.
    pub fn to_display_string(&self) -> (r: String)
        ensures
            r@ == command_text(self@),
    {
        let mut out: Vec<char> = Vec::new();
        push_command(&mut out, self);
        string_from_chars(&out)
    }
}

impl ResultStatus {
    /// Renders the status for logs.
    pub fn to_display_string(&self) -> (r: String)
        ensures
            r@ == result_status_text(*self),
    {
        let mut out: Vec<char> = Vec::new();
        push_result_status(&mut out, *self);
        string_from_chars(&out)
    }
}

impl Response {
    /// Renders the response for logs.
    pub fn to_display_string(&self) -> (r: String)
        requires
            response_displayable(self@),
        ensures
            r@ == response_text(self@),
    {
        let mut out: Vec<char> = Vec::new();
        push_response(&mut out, self);
        string_from_chars(&out)
    }
}

impl Node {
    /// Renders the node for logs.
    pub fn to_display_string(&self) -> (r: String)
        requires
            node_displayable(self@),
        ensures
            r@ == node_text(self@),
    {
        let mut out: Vec<char> = Vec::new();
        push_node(&mut out, self);
        string_from_chars(&out)
    }
}

impl ClientCommand {
    /// Renders the command for logs.
    pub fn to_display_string(&self) -> (r: String)
        requires
            client_command_displayable(self@),
        ensures
            r@ == client_command_text(self@),
    {
        let mut out: Vec<char> = Vec::new();
        match self {
            ClientCommand::Subscribe => push_str(&mut out, "ClientCommand::Subscribe"),
            ClientCommand::ListNodes => push_str(&mut out, "ClientCommand::ListNodes"),
            ClientCommand::FindNode { query } => {
                push_str(&mut out, "ClientCommand::FindNode(query=\"");
                push_str(&mut out, query.as_str());
                push_str(&mut out, "\")");
            },
            ClientCommand::RawCommand { node_serial, command, expire_time } => {
                push_str(&mut out, "ClientCommand::RawCommand(node_serial=");
                push_decimal(&mut out, *node_serial as u64);
                push_str(&mut out, ", command=");
                push_command(&mut out, command);
                push_str(&mut out, ", expire_time=\"");
                let t = timestamp_utc(expire_time);
                push_str(&mut out, t.as_str());
                push_str(&mut out, "\")");
            },
        }
        string_from_chars(&out)
    }
}

impl ClientResponse {
    /// Renders the response for logs.
    pub fn to_display_string(&self) -> (r: String)
        requires
            client_response_displayable(self@),
        ensures
            r@ == client_response_text(self@),
    {
        let mut out: Vec<char> = Vec::new();
        match self {
            ClientResponse::NodeUpdate { node_serial, data } => {
                push_str(&mut out, "ClientResponse::NodeUpdate(node_serial=");
                push_decimal(&mut out, *node_serial as u64);
                push_str(&mut out, ", data=");
                push_node_update(&mut out, data);
                push_str(&mut out, ")");
            },
            ClientResponse::Nodes(nodes) => {
                push_str(&mut out, "ClientResponse::Nodes(len=");
                push_decimal(&mut out, nodes.len() as u64);
                push_str(&mut out, ")");
            },
            ClientResponse::Node(n) => {
                push_str(&mut out, "ClientResponse::");
                push_node(&mut out, n);
            },
            ClientResponse::RawResponse(r) => {
                push_str(&mut out, "ClientResponse::RawResponse(response=");
                push_response(&mut out, r);
                push_str(&mut out, ")");
            },
            ClientResponse::Error(e) => {
                push_str(&mut out, "ClientResponse::Error(error=");
                let d = debug_string(e.as_str());
                push_str(&mut out, d.as_str());
                push_str(&mut out, ")");
            },
        }
        string_from_chars(&out)
    }
}

impl HubConfig {
    /// Renders the configuration for logs.
    pub fn to_display_string(&self) -> (r: String)
        ensures
            r@ == hub_config_text(*self),
    {
        let mut out: Vec<char> = Vec::new();
        push_str(&mut out, "disconnect_grace_period=");
        push_decimal(&mut out, self.disconnect_grace_period);
        push_str(&mut out, ", assume_hostname_unique=");
        push_bool(&mut out, self.assume_hostname_unique);
        string_from_chars(&out)
    }
}

impl NodeConfig {
    /// Renders the configuration for logs.
    pub fn to_display_string(&self) -> (r: String)
        ensures
            r@ == node_config_text(*self),
    {
        let mut out: Vec<char> = Vec::new();
        push_str(&mut out, "reconnect=");
        push_bool(&mut out, self.reconnect);
        push_str(&mut out, ", sessions=");
        push_bool(&mut out, self.enable_sessions);
        push_str(&mut out, ", wg_peers=");
        push_bool(&mut out, self.enable_wg_peers);
        push_str(&mut out, ", auth_log=");
        push_bool(&mut out, self.enable_auth_log);
        string_from_chars(&out)
    }
}

/// Whether the login time of a session can be rendered (`chrono` renders
/// the times of years -262143 to 262142; rendering panics past them).
pub open spec fn session_displayable(s: SessionView) -> bool {
    s.login.renderable()
}

/// Whether the handshake time of a peer, if any, can be rendered.
pub open spec fn wg_peer_displayable(p: WgPeerView) -> bool {
    match p.latest_handshake {
        Some(t) => t.renderable(),
        None => true,
    }
}

/// Whether the time of an auth log entry can be rendered.
pub open spec fn auth_log_displayable(a: AuthLogView) -> bool {
    a.time.renderable()
}

/// Whether the auth log entry of an update, if any, can be rendered.
pub open spec fn node_update_displayable(u: NodeUpdateView) -> bool {
    match u.auth_log {
        Some(Ok(l)) => auth_log_displayable(l),
        _ => true,
    }
}

/// Whether the times a response shows can be rendered.
pub open spec fn response_displayable(r: ResponseView) -> bool {
    match r {
        ResponseView::NodeUpdate(u) => node_update_displayable(u),
        _ => true,
    }
}

/// Whether the last update time of a node can be rendered.
pub open spec fn node_displayable(n: NodeView) -> bool {
    n.last_state_update.renderable()
}

/// Whether the expiry a client command shows, if any, can be rendered.
pub open spec fn client_command_displayable(c: ClientCommandView) -> bool {
    match c {
        ClientCommandView::RawCommand { expire_time, .. } => expire_time.renderable(),
        _ => true,
    }
}

/// Whether the times an answer of the hub shows can be rendered.
pub open spec fn client_response_displayable(r: ClientResponseView) -> bool {
    match r {
        ClientResponseView::NodeUpdate { data, .. } => node_update_displayable(data),
        ClientResponseView::Node(n) => node_displayable(n),
        ClientResponseView::RawResponse(x) => response_displayable(x),
        _ => true,
    }
}

impl Session {
    /// Whether the session can be rendered (see [`session_displayable`]).
    pub fn displayable(&self) -> (r: bool)
        ensures
            r == session_displayable(self@),
    {
        self.login.is_renderable()
    }
}

impl WgPeer {
    /// Whether the peer can be rendered (see [`wg_peer_displayable`]).
    pub fn displayable(&self) -> (r: bool)
        ensures
            r == wg_peer_displayable(self@),
    {
        match &self.latest_handshake {
            Some(t) => t.is_renderable(),
            None => true,
        }
    }
}

impl AuthLog {
    /// Whether the entry can be rendered (see [`auth_log_displayable`]).
    pub fn displayable(&self) -> (r: bool)
        ensures
            r == auth_log_displayable(self@),
    {
        self.time.is_renderable()
    }
}

impl NodeUpdate {
    /// Whether the update can be rendered (see [`node_update_displayable`]).
    pub fn displayable(&self) -> (r: bool)
        ensures
            r == node_update_displayable(self@),
    {
        match &self.auth_log {
            Some(Ok(l)) => l.displayable(),
            _ => true,
        }
    }
}

impl Response {
    /// Whether the response can be rendered (see [`response_displayable`]).
    pub fn displayable(&self) -> (r: bool)
        ensures
            r == response_displayable(self@),
    {
        match self {
            Response::NodeUpdate(u) => u.displayable(),
            _ => true,
        }
    }
}

impl Node {
    /// Whether the node can be rendered (see [`node_displayable`]).
    pub fn displayable(&self) -> (r: bool)
        ensures
            r == node_displayable(self@),
    {
        self.last_state_update.is_renderable()
    }
}

impl ClientCommand {
    /// Whether the command can be rendered (see
    /// [`client_command_displayable`]).
    pub fn displayable(&self) -> (r: bool)
        ensures
            r == client_command_displayable(self@),
    {
        match self {
            ClientCommand::RawCommand { expire_time, .. } => expire_time.is_renderable(),
            _ => true,
        }
    }
}

impl ClientResponse {
    /// Whether the answer can be rendered (see
    /// [`client_response_displayable`]).
    pub fn displayable(&self) -> (r: bool)
        ensures
            r == client_response_displayable(self@),
    {
        match self {
            ClientResponse::NodeUpdate { data, .. } => data.displayable(),
            ClientResponse::Node(n) => n.displayable(),
            ClientResponse::RawResponse(x) => x.displayable(),
            _ => true,
        }
    }
}

/// Whether every login time of `sessions` can be rendered.
pub open spec fn sessions_displayable(sessions: Seq<SessionView>) -> bool {
    forall|i: int| 0 <= i < sessions.len() ==> session_displayable(#[trigger] sessions[i])
}

/// Whether every handshake time of `peers` can be rendered.
pub open spec fn wg_peers_displayable(peers: Seq<WgPeerView>) -> bool {
    forall|i: int| 0 <= i < peers.len() ==> wg_peer_displayable(#[trigger] peers[i])
}

/// Whether the login and handshake times a node holds can be rendered.
pub open spec fn node_times_displayable(n: NodeView) -> bool {
    &&& match n.sessions {
        Ok(v) => sessions_displayable(v),
        Err(_) => true,
    }
    &&& match n.wg_peers {
        Ok(v) => wg_peers_displayable(v),
        Err(_) => true,
    }
}

/// Whether every login time of `sessions` can be rendered.
pub fn sessions_all_displayable(sessions: &Vec<Session>) -> (r: bool)
    ensures
        r == sessions_displayable(crate::models::node::session_list_view(sessions@)),
{
    let ghost sv = crate::models::node::session_list_view(sessions@);
    let mut i: usize = 0;
    while i < sessions.len()
        invariant
            i <= sessions@.len(),
            sv == crate::models::node::session_list_view(sessions@),
            forall|j: int| 0 <= j < i ==> session_displayable(#[trigger] sv[j]),
        decreases sessions@.len() - i,
    {
        if !sessions[i].displayable() {
            assert(!session_displayable(sv[i as int]));
            return false;
        }
        i = i + 1;
    }
    true
}

/// Whether every handshake time of `peers` can be rendered.
pub fn wg_peers_all_displayable(peers: &Vec<WgPeer>) -> (r: bool)
    ensures
        r == wg_peers_displayable(crate::models::node::wg_peer_list_view(peers@)),
{
    let ghost pv = crate::models::node::wg_peer_list_view(peers@);
    let mut i: usize = 0;
    while i < peers.len()
        invariant
            i <= peers@.len(),
            pv == crate::models::node::wg_peer_list_view(peers@),
            forall|j: int| 0 <= j < i ==> wg_peer_displayable(#[trigger] pv[j]),
        decreases peers@.len() - i,
    {
        if !peers[i].displayable() {
            assert(!wg_peer_displayable(pv[i as int]));
            return false;
        }
        i = i + 1;
    }
    true
}

impl Node {
    /// Whether the login and handshake times the node holds can be rendered
    /// (see [`node_times_displayable`]).
    pub fn times_displayable(&self) -> (r: bool)
        ensures
            r == node_times_displayable(self@),
    {
        let s = match &self.sessions {
            Ok(v) => sessions_all_displayable(v),
            Err(_) => true,
        };
        let p = match &self.wg_peers {
            Ok(v) => wg_peers_all_displayable(v),
            Err(_) => true,
        };
        s && p
    }
}

} // verus!
