//! Telegram bot: the HTML messages it sends and how it reads the messages
//! of its user.
use vstd::prelude::*;

use crate::clock::{Zone, timestamp_zoned_text};
use crate::display::node_data_error_text;
use crate::integrations::{pid_of, pid_ok, pid_text};
use crate::models::hub::{Node, NodeView};
use crate::models::node::{
    AuthLogDetail, AuthLogDetailView, AuthLogView, NodeDataError, NodeDataErrorView, NodeUpdate,
    NodeUpdateView, Session, SessionView, WgPeer, WgPeerView, opt_str_view,
};
use crate::models::packet::ResultStatus;
use crate::node::exec::{AllowlistSource, AllowlistSourceView, ALLOWLIST_NOT_SET};
use crate::search::{first_index, lemma_first_index_is, lemma_first_index_none};
use crate::text::{
    chars_of, decimal, is_white_space, pad_right, push_chars, push_decimal, push_padded, push_str,
    string_from_chars, trim, trim_chars, utf8_len, utf8_len_of, words, split_words,
};

verus! {

/// `s` in a `<code>` element.
pub open spec fn code(s: Seq<char>) -> Seq<char> {
    "<code>"@ + s + "</code>"@
}

/// First line of a message about a node: its hostname in bold and its
/// address in code.
pub open spec fn node_heading(n: NodeView) -> Seq<char> {
    "<b>"@ + n.hostname + "</b> (<code>"@ + n.address + "</code>)\n"@
}

fn push_node_heading(out: &mut Vec<char>, n: &Node)
    ensures
        final(out)@ == old(out)@ + node_heading(n@),
{
    push_str(out, "<b>");
    push_str(out, n.hostname.as_str());
    push_str(out, "</b> (<code>");
    push_str(out, n.address.as_str());
    push_str(out, "</code>)\n");
}

/// `host:port`.
pub open spec fn origin_text(host: Seq<char>, port: u16) -> Seq<char> {
    host + ":"@ + decimal(port as nat)
}

/// Whether the process id of an auth log entry can be shown, where its
/// detail needs one.
pub open spec fn auth_log_pid_ok(a: AuthLogView) -> bool {
    match a.detail {
        AuthLogDetailView::SuOpen(_) | AuthLogDetailView::SuFail(_) | AuthLogDetailView::SuClose(
            _,
        ) => pid_ok(a.process),
        _ => true,
    }
}

/// Whether every process id an update needs can be shown.
pub open spec fn update_pid_ok(u: NodeUpdateView) -> bool {
    match u.auth_log {
        Some(Ok(a)) => auth_log_pid_ok(a),
        _ => true,
    }
}

/// Whether every process id that `data` needs can be shown.
pub fn update_pid_usable(data: &NodeUpdate) -> (r: bool)
    ensures
        r == update_pid_ok(data@),
{
    match &data.auth_log {
        Some(Ok(a)) => match &a.detail {
            AuthLogDetail::SuOpen(_) | AuthLogDetail::SuFail(_) | AuthLogDetail::SuClose(_) =>
                crate::integrations::has_pid(a.process.as_str()),
            _ => true,
        },
        _ => true,
    }
}

/// The line that reports an auth log entry.
pub open spec fn auth_log_line(a: AuthLogView) -> Seq<char> {
    match a.detail {
        AuthLogDetailView::SshConnect(host, port, method) => "[SSH] "@ + code(a.user)
            + " connected from "@ + code(origin_text(host, port)) + " using "@ + method + ".\n"@,
        AuthLogDetailView::SshFailPassword(host, port) =>
            "[SSH] <b>FAILED</b> password login attempt for "@ + code(a.user) + " from "@ + code(
            origin_text(host, port),
        ) + ".\n"@,
        AuthLogDetailView::SshDisconnect(host, port) => "[SSH] "@ + code(a.user)
            + " disconnected from "@ + code(origin_text(host, port)) + ".\n"@,
        AuthLogDetailView::SuOpen(t) => "[SU] "@ + code(a.user) + " opened session for "@ + code(
            t,
        ) + " (pid="@ + code(pid_text(a.process)) + ").\n"@,
        AuthLogDetailView::SuFail(t) => "[SU] "@ + code(a.user) + " FAILED to open session for "@
            + code(t) + " (pid="@ + code(pid_text(a.process)) + ").\n"@,
        AuthLogDetailView::SuClose(t) => "[SU] A session for "@ + code(t) + " was closed (pid="@
            + code(pid_text(a.process)) + ").\n"@,
    }
}

/// The message about an update of a node: only auth log entries (or their
/// errors) are worth a message.
pub open spec fn spec_update_message(n: NodeView, u: NodeUpdateView) -> Option<Seq<char>> {
    match u.auth_log {
        None => None,
        Some(Ok(a)) => Some(node_heading(n) + auth_log_line(a)),
        Some(Err(e)) => Some(node_heading(n) + "[ERROR] "@ + node_data_error_text(e)),
    }
}

fn push_code_str(out: &mut Vec<char>, s: &str)
    ensures
        final(out)@ == old(out)@ + code(s@),
{
    push_str(out, "<code>");
    push_str(out, s);
    push_str(out, "</code>");
}

fn push_origin_code(out: &mut Vec<char>, host: &String, port: u16)
    ensures
        final(out)@ == old(out)@ + code(origin_text(host@, port)),
{
    push_str(out, "<code>");
    push_str(out, host.as_str());
    push_str(out, ":");
    push_decimal(out, port as u64);
    push_str(out, "</code>");
}

fn push_auth_log_line(out: &mut Vec<char>, a: &crate::models::node::AuthLog)
    requires
        auth_log_pid_ok(a@),
    ensures
        final(out)@ == old(out)@ + auth_log_line(a@),
{
    match &a.detail {
        AuthLogDetail::SshConnect((host, port), method) => {
            push_str(out, "[SSH] ");
            push_code_str(out, a.user.as_str());
            push_str(out, " connected from ");
            push_origin_code(out, host, *port);
            push_str(out, " using ");
            push_str(out, method.as_str());
            push_str(out, ".\n");
        },
        AuthLogDetail::SshFailPassword((host, port)) => {
            push_str(out, "[SSH] <b>FAILED</b> password login attempt for ");
            push_code_str(out, a.user.as_str());
            push_str(out, " from ");
            push_origin_code(out, host, *port);
            push_str(out, ".\n");
        },
        AuthLogDetail::SshDisconnect((host, port)) => {
            push_str(out, "[SSH] ");
            push_code_str(out, a.user.as_str());
            push_str(out, " disconnected from ");
            push_origin_code(out, host, *port);
            push_str(out, ".\n");
        },
        AuthLogDetail::SuOpen(t) => {
            push_str(out, "[SU] ");
            push_code_str(out, a.user.as_str());
            push_str(out, " opened session for ");
            push_code_str(out, t.as_str());
            push_str(out, " (pid=");
            let pid = pid_of(a.process.as_str());
            push_code_str(out, pid.as_str());
            push_str(out, ").\n");
        },
        AuthLogDetail::SuFail(t) => {
            push_str(out, "[SU] ");
            push_code_str(out, a.user.as_str());
            push_str(out, " FAILED to open session for ");
            push_code_str(out, t.as_str());
            push_str(out, " (pid=");
            let pid = pid_of(a.process.as_str());
            push_code_str(out, pid.as_str());
            push_str(out, ").\n");
        },
        AuthLogDetail::SuClose(t) => {
            push_str(out, "[SU] A session for ");
            push_code_str(out, t.as_str());
            push_str(out, " was closed (pid=");
            let pid = pid_of(a.process.as_str());
            push_code_str(out, pid.as_str());
            push_str(out, ").\n");
        },
    }
}

/// Returns the message about an update of `node`, or `None` when the
/// update is not worth notifying the user (it carries no auth log entry).
pub fn parse_node_update(node: &Node, data: &NodeUpdate) -> (r: Option<String>)
    requires
        update_pid_ok(data@),
    ensures
        crate::models::node::opt_str_view(r) == spec_update_message(node@, data@),
{
    match &data.auth_log {
        None => None,
        Some(res) => {
            let mut out: Vec<char> = Vec::new();
            push_node_heading(&mut out, node);
            match res {
                Ok(a) => push_auth_log_line(&mut out, a),
                Err(e) => {
                    push_str(&mut out, "[ERROR] ");
                    let t = e.to_display_string();
                    push_str(&mut out, t.as_str());
                },
            }
            Some(string_from_chars(&out))
        },
    }
}

/// A ✅ for a connected node, a ❌ for a disconnected one.
pub open spec fn connected_mark(connected: bool) -> Seq<char> {
    if connected {
        "✅"@
    } else {
        "❌"@
    }
}

/// The line shown for an attribute that could not be collected (none for
/// one that is not monitored).
pub open spec fn data_error_line(e: NodeDataErrorView, attr: Seq<char>) -> Seq<char> {
    match e {
        NodeDataErrorView::Initializing => attr + ": Initializing\n"@,
        NodeDataErrorView::NotMonitored => seq![],
        NodeDataErrorView::Message(m) => attr + ": "@ + m + "\n"@,
    }
}

fn push_data_error_line(out: &mut Vec<char>, e: &NodeDataError, attr: &str)
    ensures
        final(out)@ == old(out)@ + data_error_line(e@, attr@),
{
    match e {
        NodeDataError::Initializing => {
            push_str(out, attr);
            push_str(out, ": Initializing\n");
        },
        NodeDataError::NotMonitored => {},
        NodeDataError::Message(m) => {
            push_str(out, attr);
            push_str(out, ": ");
            push_str(out, m.as_str());
            push_str(out, "\n");
        },
    }
}

/// The largest UTF-8 length of a user name among `sessions` (0 for none).
pub open spec fn max_user_len(sessions: Seq<SessionView>) -> nat
    decreases sessions.len(),
{
    if sessions.len() == 0 {
        0
    } else {
        let m = max_user_len(sessions.drop_last());
        let u = utf8_len(sessions.last().user);
        if u > m {
            u
        } else {
            m
        }
    }
}

/// Where a session comes from, in parentheses (`(/)` for a local one).
pub open spec fn from_text(from: Option<Seq<char>>) -> Seq<char> {
    match from {
        Some(f) => "("@ + f + ")"@,
        None => "(/)"@,
    }
}

/// The line of a session: user padded to `width`, login time (hours and
/// minutes in `zone`) padded to 7, and origin.
pub open spec fn session_line(zone: Seq<char>, width: nat, s: SessionView) -> Seq<char> {
    "  "@ + code(pad_right(s.user, width)) + code(
        pad_right(timestamp_zoned_text(zone, s.login, "%H:%M"@), 7),
    ) + code(from_text(s.from)) + "\n"@
}

/// The lines of `sessions`, in order.
pub open spec fn session_lines(zone: Seq<char>, width: nat, sessions: Seq<SessionView>) -> Seq<
    char,
>
    decreases sessions.len(),
{
    if sessions.len() == 0 {
        seq![]
    } else {
        session_lines(zone, width, sessions.drop_last()) + session_line(
            zone,
            width,
            sessions.last(),
        )
    }
}

/// The line of a WireGuard peer: interface, endpoint (if known) and latest
/// handshake (if any, in `zone`).
pub open spec fn wg_peer_line(zone: Seq<char>, p: WgPeerView) -> Seq<char> {
    "  "@ + code(p.interface) + match p.endpoint {
        Some(e) => "  "@ + code(e),
        None => seq![],
    } + match p.latest_handshake {
        Some(t) => "  "@ + code(timestamp_zoned_text(zone, t, "%F %T"@)),
        None => seq![],
    } + "\n"@
}

/// The lines of `peers`, in order.
pub open spec fn wg_peer_lines(zone: Seq<char>, peers: Seq<WgPeerView>) -> Seq<char>
    decreases peers.len(),
{
    if peers.len() == 0 {
        seq![]
    } else {
        wg_peer_lines(zone, peers.drop_last()) + wg_peer_line(zone, peers.last())
    }
}

/// The sessions part of a node message.
pub open spec fn sessions_part(zone: Seq<char>, s: Result<Seq<SessionView>, NodeDataErrorView>) -> Seq<
    char,
> {
    match s {
        Ok(v) => if v.len() > 0 {
            "sessions:\n"@ + session_lines(zone, max_user_len(v) + 2, v)
        } else {
            seq![]
        },
        Err(e) => data_error_line(e, "sessions"@),
    }
}

/// The WireGuard part of a node message.
pub open spec fn wg_peers_part(zone: Seq<char>, p: Result<Seq<WgPeerView>, NodeDataErrorView>) -> Seq<
    char,
> {
    match p {
        Ok(v) => if v.len() > 0 {
            "wg peers:\n"@ + wg_peer_lines(zone, v)
        } else {
            seq![]
        },
        Err(e) => data_error_line(e, "wg peers"@),
    }
}

/// The message about a node, with times shown in `zone`.
pub open spec fn spec_node_message(zone: Seq<char>, n: NodeView) -> Seq<char> {
    connected_mark(n.connected) + " "@ + node_heading(n) + sessions_part(zone, n.sessions)
        + wg_peers_part(zone, n.wg_peers)
}

pub fn user_width(sessions: &Vec<Session>) -> (w: u128)
    ensures
        w == max_user_len(crate::models::node::session_list_view(sessions@)) + 2,
{
    let ghost sv = crate::models::node::session_list_view(sessions@);
    let mut m: u128 = 0;
    let mut i: usize = 0;
    while i < sessions.len()
        invariant
            i <= sessions@.len(),
            sv == crate::models::node::session_list_view(sessions@),
            m == max_user_len(sv.take(i as int)),
            m <= 4 * usize::MAX,
        decreases sessions@.len() - i,
    {
        proof {
            assert(sv.take(i + 1).drop_last() == sv.take(i as int));
            assert(sv.take(i + 1).last() == sessions@[i as int]@);
        }
        let u = utf8_len_of(sessions[i].user.as_str());
        if u > m {
            m = u;
        }
        i = i + 1;
    }
    assert(sv.take(sessions@.len() as int) == sv);
    m + 2
}

#[verifier::rlimit(30)]
fn push_session_line(out: &mut Vec<char>, zone: &Zone, width: u128, s: &Session)
    requires
        crate::display::session_displayable(s@),
    ensures
        final(out)@ == old(out)@ + session_line(zone.spec_name(), width as nat, s@),
{
    push_str(out, "  ");
    push_str(out, "<code>");
    push_padded(out, s.user.as_str(), width);
    push_str(out, "</code>");
    push_str(out, "<code>");
    let login = zone.render(&s.login, "%H:%M");
    push_padded(out, login.as_str(), 7);
    push_str(out, "</code>");
    push_str(out, "<code>");
    match &s.from {
        Some(f) => {
            push_str(out, "(");
            push_str(out, f.as_str());
            push_str(out, ")");
        },
        None => push_str(out, "(/)"),
    }
    push_str(out, "</code>");
    push_str(out, "\n");
}

fn push_session_lines(out: &mut Vec<char>, zone: &Zone, width: u128, sessions: &Vec<Session>)
    requires
        crate::display::sessions_displayable(crate::models::node::session_list_view(sessions@)),
    ensures
        final(out)@ == old(out)@ + session_lines(
            zone.spec_name(),
            width as nat,
            crate::models::node::session_list_view(sessions@),
        ),
{
    let ghost start = out@;
    let ghost sv = crate::models::node::session_list_view(sessions@);
    let ghost z = zone.spec_name();
    let mut i: usize = 0;
    while i < sessions.len()
        invariant
            i <= sessions@.len(),
            sv == crate::models::node::session_list_view(sessions@),
            z == zone.spec_name(),
            crate::display::sessions_displayable(sv),
            out@ == start + session_lines(z, width as nat, sv.take(i as int)),
        decreases sessions@.len() - i,
    {
        let s = &sessions[i];
        proof {
            assert(sv.take(i + 1).drop_last() == sv.take(i as int));
            assert(sv.take(i + 1).last() == s@);
        }
        push_session_line(out, zone, width, s);
        i = i + 1;
    }
    assert(sv.take(sessions@.len() as int) == sv);
}

fn push_wg_peer_line(out: &mut Vec<char>, zone: &Zone, p: &WgPeer)
    requires
        crate::display::wg_peer_displayable(p@),
    ensures
        final(out)@ == old(out)@ + wg_peer_line(zone.spec_name(), p@),
{
    push_str(out, "  ");
    push_code_str(out, p.interface.as_str());
    if let Some(e) = &p.endpoint {
        push_str(out, "  ");
        push_code_str(out, e.as_str());
    }
    if let Some(t) = &p.latest_handshake {
        push_str(out, "  ");
        let shown = zone.render(t, "%F %T");
        push_code_str(out, shown.as_str());
    }
    push_str(out, "\n");
}

fn push_wg_peer_lines(out: &mut Vec<char>, zone: &Zone, peers: &Vec<WgPeer>)
    requires
        crate::display::wg_peers_displayable(crate::models::node::wg_peer_list_view(peers@)),
    ensures
        final(out)@ == old(out)@ + wg_peer_lines(
            zone.spec_name(),
            crate::models::node::wg_peer_list_view(peers@),
        ),
{
    let ghost start = out@;
    let ghost pv = crate::models::node::wg_peer_list_view(peers@);
    let ghost z = zone.spec_name();
    let mut i: usize = 0;
    while i < peers.len()
        invariant
            i <= peers@.len(),
            pv == crate::models::node::wg_peer_list_view(peers@),
            z == zone.spec_name(),
            crate::display::wg_peers_displayable(pv),
            out@ == start + wg_peer_lines(z, pv.take(i as int)),
        decreases peers@.len() - i,
    {
        let p = &peers[i];
        proof {
            assert(pv.take(i + 1).drop_last() == pv.take(i as int));
            assert(pv.take(i + 1).last() == p@);
        }
        push_wg_peer_line(out, zone, p);
        i = i + 1;
    }
    assert(pv.take(peers@.len() as int) == pv);
}

fn push_sessions_part(out: &mut Vec<char>, tz: &Zone, s: &crate::models::node::Sessions)
    requires
        crate::models::node::sessions_view(*s) matches Ok(v) ==> crate::display::sessions_displayable(v),
    ensures
        final(out)@ == old(out)@ + sessions_part(
            tz.spec_name(),
            crate::models::node::sessions_view(*s),
        ),
{
    match s {
        Ok(sessions) => {
            if sessions.len() > 0 {
                push_str(out, "sessions:\n");
                let width = user_width(sessions);
                push_session_lines(out, tz, width, sessions);
            }
        },
        Err(e) => push_data_error_line(out, e, "sessions"),
    }
}

fn push_wg_peers_part(out: &mut Vec<char>, tz: &Zone, p: &crate::models::node::WgPeers)
    requires
        crate::models::node::wg_peers_view(*p) matches Ok(v) ==> crate::display::wg_peers_displayable(v),
    ensures
        final(out)@ == old(out)@ + wg_peers_part(
            tz.spec_name(),
            crate::models::node::wg_peers_view(*p),
        ),
{
    match p {
        Ok(peers) => {
            if peers.len() > 0 {
                push_str(out, "wg peers:\n");
                push_wg_peer_lines(out, tz, peers);
            }
        },
        Err(e) => push_data_error_line(out, e, "wg peers"),
    }
}

fn push_node_message(out: &mut Vec<char>, tz: &Zone, node: &Node)
    requires
        crate::display::node_times_displayable(node@),
    ensures
        final(out)@ == old(out)@ + spec_node_message(tz.spec_name(), node@),
{
    if node.connected {
        push_str(out, "✅");
    } else {
        push_str(out, "❌");
    }
    push_str(out, " ");
    push_node_heading(out, node);
    push_sessions_part(out, tz, &node.sessions);
    push_wg_peers_part(out, tz, &node.wg_peers);
}

/// Returns the message about a node, with times shown in `tz`.
pub fn parse_node(tz: &Zone, node: &Node) -> (r: String)
    requires
        crate::display::node_times_displayable(node@),
    ensures
        r@ == spec_node_message(tz.spec_name(), node@),
{
    let mut out: Vec<char> = Vec::new();
    push_node_message(&mut out, tz, node);
    string_from_chars(&out)
}

/// The messages about `nodes`, each followed by a newline, in order.
pub open spec fn node_messages(zone: Seq<char>, nodes: Seq<NodeView>) -> Seq<char>
    decreases nodes.len(),
{
    if nodes.len() == 0 {
        seq![]
    } else {
        node_messages(zone, nodes.drop_last()) + spec_node_message(zone, nodes.last()) + "\n"@
    }
}

/// The message listing `nodes`: their messages, trimmed; `None` when that
/// leaves nothing.
pub open spec fn spec_node_list_message(zone: Seq<char>, nodes: Seq<NodeView>) -> Option<Seq<char>> {
    let t = trim(node_messages(zone, nodes));
    if t.len() == 0 {
        None
    } else {
        Some(t)
    }
}

/// Returns the message listing `nodes`, or `None` when there is nothing to
/// list.
pub fn parse_node_list(tz: &Zone, nodes: &Vec<Node>) -> (r: Option<String>)
    requires
        forall|i: int| 0 <= i < nodes@.len() ==> crate::display::node_times_displayable(#[trigger] nodes@[i]@),
    ensures
        crate::models::node::opt_str_view(r) == spec_node_list_message(
            tz.spec_name(),
            crate::models::hub::node_list_view(nodes@),
        ),
{
    let ghost nv = crate::models::hub::node_list_view(nodes@);
    let ghost z = tz.spec_name();
    let mut out: Vec<char> = Vec::new();
    let mut i: usize = 0;
    while i < nodes.len()
        invariant
            i <= nodes@.len(),
            nv == crate::models::hub::node_list_view(nodes@),
            z == tz.spec_name(),
            forall|j: int| 0 <= j < nodes@.len() ==> crate::display::node_times_displayable(
                #[trigger] nodes@[j]@,
            ),
            out@ == node_messages(z, nv.take(i as int)),
        decreases nodes@.len() - i,
    {
        proof {
            assert(nv.take(i + 1).drop_last() == nv.take(i as int));
            assert(nv.take(i + 1).last() == nodes@[i as int]@);
        }
        push_node_message(&mut out, tz, &nodes[i]);
        push_str(&mut out, "\n");
        i = i + 1;
    }
    assert(nv.take(nodes@.len() as int) == nv);
    let t = trim_chars(&out);
    if t.len() == 0 {
        None
    } else {
        Some(string_from_chars(&t))
    }
}

/// The text of a command result: `No output` in italics when it is blank,
/// else the output in code on a line of its own.
pub open spec fn output_text(output: Seq<char>) -> Seq<char> {
    if trim(output).len() == 0 {
        "<i>No output</i>"@
    } else {
        "\n<code>"@ + output + "</code>"@
    }
}

/// The message about the result of a command run on a node; a pending
/// status (which a complete result never has) adds nothing to the heading.
pub open spec fn spec_result_message(n: NodeView, status: ResultStatus, output: Seq<char>) -> Seq<
    char,
> {
    node_heading(n) + match status {
        ResultStatus::Timeout => "⏰ Timeout: "@ + output_text(output),
        ResultStatus::Success => "✅ Success: "@ + output_text(output),
        ResultStatus::Failure => "❌ Failure: "@ + output_text(output),
        ResultStatus::Pending => seq![],
    }
}

/// Returns the message about the result of a command run on `node`.
pub fn parse_result(node: &Node, result: &(ResultStatus, String)) -> (r: String)
    ensures
        r@ == spec_result_message(node@, result.0, result.1@),
{
    let (status, output) = result;
    let mut out: Vec<char> = Vec::new();
    push_node_heading(&mut out, node);
    let oc = chars_of(output.as_str());
    let blank = trim_chars(&oc).len() == 0;
    let mut shown: Vec<char> = Vec::new();
    if blank {
        push_str(&mut shown, "<i>No output</i>");
    } else {
        push_str(&mut shown, "\n<code>");
        push_str(&mut shown, output.as_str());
        push_str(&mut shown, "</code>");
    }
    match status {
        ResultStatus::Timeout => {
            push_str(&mut out, "⏰ Timeout: ");
            push_chars(&mut out, &shown);
        },
        ResultStatus::Success => {
            push_str(&mut out, "✅ Success: ");
            push_chars(&mut out, &shown);
        },
        ResultStatus::Failure => {
            push_str(&mut out, "❌ Failure: ");
            push_chars(&mut out, &shown);
        },
        ResultStatus::Pending => {},
    }
    string_from_chars(&out)
}

/// What the bot does about a message of its user.
#[derive(Debug, PartialEq)]
pub enum BotRequest {
    /// List all nodes (`list` or `-`).
    ListNodes,
    /// Show the node matching `query`.
    ShowNode { query: String },
    /// Run the allowed command `label` on the node matching `node` (`-` for
    /// every connected node).
    Execute { node: String, label: String },
    /// Answer with this text.
    Reply(String),
}

/// Mathematical view of a [`BotRequest`].
pub enum BotRequestView {
    ListNodes,
    ShowNode { query: Seq<char> },
    Execute { node: Seq<char>, label: Seq<char> },
    Reply(Seq<char>),
}

impl View for BotRequest {
    type V = BotRequestView;

    open spec fn view(&self) -> BotRequestView {
        match self {
            BotRequest::ListNodes => BotRequestView::ListNodes,
            BotRequest::ShowNode { query } => BotRequestView::ShowNode { query: query@ },
            BotRequest::Execute { node, label } => BotRequestView::Execute {
                node: node@,
                label: label@,
            },
            BotRequest::Reply(t) => BotRequestView::Reply(t@),
        }
    }
}

/// Reply when remote execution is not enabled.
pub const EXEC_NOT_ENABLED: &'static str = "Remote command execution is not enabled";

/// What the bot does about `message`, split into whitespace-separated
/// words: one word `list` or `-` lists the nodes, another single word
/// shows a node, more words run the command named by the others (joined
/// by single spaces) on the node named by the first, when execution is
/// enabled.
pub open spec fn spec_bot_request(enable_exec: bool, message: Seq<char>) -> BotRequestView {
    let w = words(message);
    if w.len() == 0 {
        BotRequestView::Reply("Unknown command: <code>"@ + message + "</code>"@)
    } else if w.len() == 1 {
        if w[0] == "list"@ || w[0] == "-"@ {
            BotRequestView::ListNodes
        } else {
            BotRequestView::ShowNode { query: w[0] }
        }
    } else if !enable_exec {
        BotRequestView::Reply(EXEC_NOT_ENABLED@)
    } else {
        BotRequestView::Execute {
            node: w[0],
            label: crate::display::join_with(w.skip(1), " "@),
        }
    }
}

/// Handles a message from the user: decides what the bot does about it.
pub fn handle_message(enable_exec: bool, message: &str) -> (r: BotRequest)
    ensures
        r@ == spec_bot_request(enable_exec, message@),
{
    let chars = chars_of(message);
    let w = split_words(&chars);
    if w.len() == 0 {
        let mut out: Vec<char> = Vec::new();
        push_str(&mut out, "Unknown command: <code>");
        push_str(&mut out, message);
        push_str(&mut out, "</code>");
        return BotRequest::Reply(string_from_chars(&out));
    }
    if w.len() == 1 {
        if crate::text::word_is(&w, 0, "list") || crate::text::word_is(&w, 0, "-") {
            return BotRequest::ListNodes;
        }
        return BotRequest::ShowNode { query: crate::text::word_string(&w, 0) };
    }
    if !enable_exec {
        return BotRequest::Reply(crate::text::owned(EXEC_NOT_ENABLED));
    }
    let node = crate::text::word_string(&w, 0);
    let mut rest: Vec<Vec<char>> = Vec::new();
    let mut i: usize = 1;
    while i < w.len()
        invariant
            1 <= i <= w@.len(),
            rest.deep_view() == w.deep_view().subrange(1, i as int),
        decreases w@.len() - i,
    {
        let piece = crate::text::chars_range(&w[i], 0, w[i].len());
        proof {
            crate::text::lemma_chars_deep_view(&piece);
            crate::text::lemma_chars_deep_view(&w@[i as int]);
            assert(w@[i as int]@.subrange(0, w@[i as int]@.len() as int) == w@[i as int]@);
        }
        let ghost old_rest = rest.deep_view();
        rest.push(piece);
        assert(rest.deep_view() =~= old_rest.push(w.deep_view()[i as int]));
        assert(w.deep_view().subrange(1, i + 1) =~= w.deep_view().subrange(1, i as int).push(
            w.deep_view()[i as int],
        ));
        i = i + 1;
    }
    assert(w.deep_view().skip(1) == w.deep_view().subrange(1, w@.len() as int));
    let mut label: Vec<char> = Vec::new();
    crate::display::push_joined(&mut label, &rest, " ");
    BotRequest::Execute { node, label: string_from_chars(&label) }
}

/// Whether some line of `ls` is exactly `label`.
pub open spec fn lists_label(ls: Seq<Seq<char>>, label: Seq<char>) -> bool {
    exists|i: int| 0 <= i < ls.len() && ls[i] == label
}

/// Whether `label` may be run, by the bot's own allowlist: a file of
/// allowed labels, one per line.
pub open spec fn spec_check_allowlist(label: Seq<char>, source: AllowlistSourceView) -> Result<
    (),
    Seq<char>,
> {
    match source {
        AllowlistSourceView::NotSet => Err(ALLOWLIST_NOT_SET@),
        AllowlistSourceView::Unreadable { file, error } => Err(
            crate::node::exec::unreadable_message(file, error),
        ),
        AllowlistSourceView::Lines(ls) => if lists_label(ls, label) {
            Ok(())
        } else {
            Err(crate::node::exec::not_allowed_message(label))
        },
    }
}

/// Checks `label` against the bot's allowlist: `Ok` when some line is
/// exactly `label`, else the reason it may not be run.
pub fn check_allowlist(label: &str, source: &AllowlistSource) -> (r: Result<(), String>)
    ensures
        match spec_check_allowlist(label@, source@) {
            Ok(_) => r is Ok,
            Err(m) => r matches Err(e) && e@ == m,
        },
{
    match source {
        AllowlistSource::NotSet => Err(crate::text::owned(ALLOWLIST_NOT_SET)),
        AllowlistSource::Unreadable { file, error } => {
            let mut m: Vec<char> = Vec::new();
            push_str(&mut m, "Unable to read '");
            push_str(&mut m, file.as_str());
            push_str(&mut m, "' (COMMAND_ALLOWLIST_FILE): ");
            push_str(&mut m, error.as_str());
            Err(string_from_chars(&m))
        },
        AllowlistSource::Lines(ls) => {
            let lc = chars_of(label);
            let mut i: usize = 0;
            while i < ls.len()
                invariant
                    i <= ls@.len(),
                    lc@ == label@,
                    source@ == AllowlistSourceView::Lines(ls.deep_view()),
                    forall|j: int| 0 <= j < i ==> ls.deep_view()[j] != label@,
                decreases ls@.len() - i,
            {
                let line = chars_of(ls[i].as_str());
                assert(ls.deep_view()[i as int] == ls@[i as int]@);
                if crate::text::chars_equal(&line, &lc) {
                    assert(ls.deep_view()[i as int] == label@);
                    return Ok(());
                }
                i = i + 1;
            }
            let mut m: Vec<char> = Vec::new();
            push_str(&mut m, "'");
            push_str(&mut m, label);
            push_str(&mut m, "' is not an allowed command");
            Err(string_from_chars(&m))
        },
    }
}

proof fn lemma_trim_start_keeps(s: Seq<char>, i: int)
    requires
        0 <= i < s.len(),
        !is_white_space(s[i]),
    ensures
        exists|j: int| 0 <= j < crate::text::trim_start(s).len() && !is_white_space(#[trigger] crate::text::trim_start(s)[j]),
    decreases s.len(),
{
    if s.len() > 0 && is_white_space(s[0]) {
        assert(i > 0);
        assert(s.skip(1)[i - 1] == s[i]);
        lemma_trim_start_keeps(s.skip(1), i - 1);
        assert(crate::text::trim_start(s) == crate::text::trim_start(s.skip(1)));
    } else {
        assert(crate::text::trim_start(s)[i] == s[i]);
    }
}

proof fn lemma_trim_end_keeps(s: Seq<char>, i: int)
    requires
        0 <= i < s.len(),
        !is_white_space(s[i]),
    ensures
        crate::text::trim_end(s).len() > 0,
    decreases s.len(),
{
    if s.len() > 0 && is_white_space(s.last()) {
        assert(i < s.len() - 1);
        assert(s.drop_last()[i] == s[i]);
        lemma_trim_end_keeps(s.drop_last(), i);
    }
}

proof fn lemma_trim_nonempty(s: Seq<char>, i: int)
    requires
        0 <= i < s.len(),
        !is_white_space(s[i]),
    ensures
        trim(s).len() > 0,
{
    lemma_trim_start_keeps(s, i);
    let t = crate::text::trim_start(s);
    let j = choose|j: int| 0 <= j < t.len() && !is_white_space(#[trigger] t[j]);
    lemma_trim_end_keeps(t, j);
}

/// A node list message is left out exactly when there is no node to list:
/// the message of a node never is blank.
pub proof fn lemma_node_list_message_empty(zone: Seq<char>, nodes: Seq<NodeView>)
    ensures
        spec_node_list_message(zone, nodes) is None <==> nodes.len() == 0,
{
    let m = node_messages(zone, nodes);
    if nodes.len() == 0 {
        assert(m == Seq::<char>::empty());
        assert(trim(m) == Seq::<char>::empty());
    } else {
        let prev = node_messages(zone, nodes.drop_last());
        let last = spec_node_message(zone, nodes.last());
        reveal_strlit("✅");
        reveal_strlit("❌");
        assert(last[0] == connected_mark(nodes.last().connected)[0]);
        assert(m[prev.len() as int] == last[0]);
        lemma_trim_nonempty(m, prev.len() as int);
    }
}

/// Whether `part` occurs in `text`.
pub open spec fn occurs_in(part: Seq<char>, text: Seq<char>) -> bool {
    exists|i: int| 0 <= i <= text.len() - part.len() && #[trigger] text.subrange(i, i + part.len()) == part
}

/// A failed `su` is reported as a failure: its message says the attempt
/// FAILED, and it is never the message of the opened session with the same
/// user, target and process.
pub proof fn lemma_su_failure_reported(n: NodeView, u: NodeUpdateView, a: AuthLogView, target: Seq<char>)
    requires
        u.auth_log == Some(Ok::<AuthLogView, NodeDataErrorView>(a)),
        a.detail == AuthLogDetailView::SuFail(target),
    ensures
        spec_update_message(n, u) matches Some(m) && occurs_in(" FAILED to open session for "@, m),
        ({
            let opened = AuthLogView { detail: AuthLogDetailView::SuOpen(target), ..a };
            let v = NodeUpdateView { auth_log: Some(Ok(opened)), ..u };
            spec_update_message(n, u) != spec_update_message(n, v)
        }),
{
    let failed = " FAILED to open session for "@;
    let open = " opened session for "@;
    reveal_strlit(" FAILED to open session for ");
    reveal_strlit(" opened session for ");
    let pre = node_heading(n) + "[SU] "@ + code(a.user);
    let m = spec_update_message(n, u)->0;
    let tail = code(target) + " (pid="@ + code(pid_text(a.process)) + ").\n"@;
    assert(m =~= pre + failed + tail);
    let i = pre.len() as int;
    assert(m.subrange(i, i + failed.len()) =~= failed);
    let opened = AuthLogView { detail: AuthLogDetailView::SuOpen(target), ..a };
    let v = NodeUpdateView { auth_log: Some(Ok(opened)), ..u };
    let m2 = spec_update_message(n, v)->0;
    assert(m2 =~= pre + open + tail);
    assert(m[i + 1] == failed[1]);
    assert(m2[i + 1] == open[1]);
}

/// A failed SSH password login is reported as a failure: its message
/// says, in bold, that it FAILED.
pub proof fn lemma_ssh_password_failure_reported(n: NodeView, u: NodeUpdateView, a: AuthLogView, host: Seq<char>, port: u16)
    requires
        u.auth_log == Some(Ok::<AuthLogView, NodeDataErrorView>(a)),
        a.detail == AuthLogDetailView::SshFailPassword(host, port),
    ensures
        spec_update_message(n, u) matches Some(m) && occurs_in("<b>FAILED</b>"@, m),
{
    let lead = "[SSH] <b>FAILED</b> password login attempt for "@;
    let word = "<b>FAILED</b>"@;
    reveal_strlit("[SSH] <b>FAILED</b> password login attempt for ");
    reveal_strlit("<b>FAILED</b>");
    let m = spec_update_message(n, u)->0;
    let h = node_heading(n);
    let tail = code(a.user) + " from "@ + code(origin_text(host, port)) + ".\n"@;
    assert(m =~= h + lead + tail);
    let i = h.len() as int + 6;
    assert(lead.subrange(6, 6 + word.len() as int) =~= word);
    assert(m.subrange(i, i + word.len() as int) =~= word);
}

} // verus!
