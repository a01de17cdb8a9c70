//! The `secmon` command line: what its arguments ask for, and what the
//! terminal client shows.
use vstd::prelude::*;

use crate::display::{join_with, response_text, client_response_text};
use crate::models::NodeConfig;
use crate::models::hub::{ClientResponse, ClientResponseView, Node, NodeView};
use crate::models::packet::{Command, CommandView, Response, ResponseView, ResultStatus};
use crate::text::{chars_of, owned, push_str, split_words, string_from_chars, word_is, word_string, words};

verus! {

/// What the program is launched as.
#[derive(Debug, PartialEq)]
pub enum LaunchMode {
    /// Too few arguments: print the usage and fail.
    Usage,
    /// Print the usage.
    Help,
    /// Run the hub daemon.
    Hub,
    /// Run a node daemon with this configuration.
    Node(NodeConfig),
    /// Run a client command (the arguments after the program name, joined
    /// by spaces).
    Client(String),
}

/// Mathematical view of a [`LaunchMode`].
pub enum LaunchModeView {
    Usage,
    Help,
    Hub,
    Node(NodeConfig),
    Client(Seq<char>),
}

impl View for LaunchMode {
    type V = LaunchModeView;

    open spec fn view(&self) -> LaunchModeView {
        match self {
            LaunchMode::Usage => LaunchModeView::Usage,
            LaunchMode::Help => LaunchModeView::Help,
            LaunchMode::Hub => LaunchModeView::Hub,
            LaunchMode::Node(c) => LaunchModeView::Node(*c),
            LaunchMode::Client(s) => LaunchModeView::Client(s@),
        }
    }
}

/// Whether some argument is exactly `a`.
pub open spec fn has_arg(args: Seq<Seq<char>>, a: Seq<char>) -> bool {
    exists|i: int| 0 <= i < args.len() && args[i] == a
}

/// The node configuration that the arguments select: `who`, `wg` and
/// `auth` enable what is monitored, `--reconnect` reconnecting.
pub open spec fn spec_node_config(args: Seq<Seq<char>>) -> NodeConfig {
    NodeConfig {
        reconnect: has_arg(args, "--reconnect"@),
        enable_sessions: has_arg(args, "who"@),
        enable_wg_peers: has_arg(args, "wg"@),
        enable_auth_log: has_arg(args, "auth"@),
    }
}

/// What the arguments (the program name first) launch.
pub open spec fn spec_launch_mode(args: Seq<Seq<char>>) -> LaunchModeView {
    if args.len() < 2 {
        LaunchModeView::Usage
    } else if args[1] == "hub"@ {
        LaunchModeView::Hub
    } else if args[1] == "node"@ {
        LaunchModeView::Node(spec_node_config(args))
    } else if args[1] == "help"@ {
        LaunchModeView::Help
    } else {
        LaunchModeView::Client(join_with(args.skip(1), " "@))
    }
}

/// Whether some argument is exactly `a`.
pub fn contains_arg(args: &Vec<String>, a: &str) -> (r: bool)
    ensures
        r == has_arg(args.deep_view(), a@),
{
    let ac = chars_of(a);
    let mut i: usize = 0;
    while i < args.len()
        invariant
            i <= args@.len(),
            ac@ == a@,
            forall|j: int| 0 <= j < i ==> args.deep_view()[j] != a@,
        decreases args@.len() - i,
    {
        let c = chars_of(args[i].as_str());
        assert(args.deep_view()[i as int] == args@[i as int]@);
        if crate::text::chars_equal(&c, &ac) {
            return true;
        }
        i = i + 1;
    }
    false
}

/// Returns the node configuration that the arguments select.
pub fn node_config_from_args(args: &Vec<String>) -> (c: NodeConfig)
    ensures
        c == spec_node_config(args.deep_view()),
{
    NodeConfig {
        reconnect: contains_arg(args, "--reconnect"),
        enable_sessions: contains_arg(args, "who"),
        enable_wg_peers: contains_arg(args, "wg"),
        enable_auth_log: contains_arg(args, "auth"),
    }
}

fn strings_to_chars(v: &Vec<String>, from: usize) -> (r: Vec<Vec<char>>)
    requires
        from <= v@.len(),
    ensures
        r.deep_view() == v.deep_view().skip(from as int),
{
    let mut r: Vec<Vec<char>> = Vec::new();
    let mut i: usize = from;
    while i < v.len()
        invariant
            from <= i <= v@.len(),
            r.deep_view() == v.deep_view().subrange(from as int, i as int),
        decreases v@.len() - i,
    {
        let c = chars_of(v[i].as_str());
        proof {
            crate::text::lemma_chars_deep_view(&c);
        }
        let ghost old_r = r.deep_view();
        r.push(c);
        assert(r.deep_view() =~= old_r.push(v.deep_view()[i as int]));
        assert(v.deep_view().subrange(from as int, i + 1) =~= v.deep_view().subrange(
            from as int,
            i as int,
        ).push(v.deep_view()[i as int]));
        i = i + 1;
    }
    assert(v.deep_view().skip(from as int) == v.deep_view().subrange(from as int, v@.len() as int));
    r
}

/// Returns what the arguments (the program name first) launch.
pub fn launch_mode(args: &Vec<String>) -> (m: LaunchMode)
    ensures
        m@ == spec_launch_mode(args.deep_view()),
{
    if args.len() < 2 {
        return LaunchMode::Usage;
    }
    let first = chars_of(args[1].as_str());
    assert(args.deep_view()[1] == args@[1]@);
    if crate::text::chars_equal_str(&first, "hub") {
        LaunchMode::Hub
    } else if crate::text::chars_equal_str(&first, "node") {
        LaunchMode::Node(node_config_from_args(args))
    } else if crate::text::chars_equal_str(&first, "help") {
        LaunchMode::Help
    } else {
        let rest = strings_to_chars(args, 1);
        let mut out: Vec<char> = Vec::new();
        crate::display::push_joined(&mut out, &rest, " ");
        LaunchMode::Client(string_from_chars(&out))
    }
}

/// What a client command asks of the hub.
#[derive(Debug, PartialEq)]
pub enum ClientAction {
    /// Print node updates as they come.
    Subscribe,
    /// List the nodes, sorted by address when asked.
    List { sorted: bool },
    /// Show the node matching `node`.
    Show { node: String },
    /// Run `command` on the node matching `node` (`-`: every connected
    /// node).
    Execute { node: String, command: Command },
}

/// Mathematical view of a [`ClientAction`].
pub enum ClientActionView {
    Subscribe,
    List { sorted: bool },
    Show { node: Seq<char> },
    Execute { node: Seq<char>, command: CommandView },
}

impl View for ClientAction {
    type V = ClientActionView;

    open spec fn view(&self) -> ClientActionView {
        match self {
            ClientAction::Subscribe => ClientActionView::Subscribe,
            ClientAction::List { sorted } => ClientActionView::List { sorted: *sorted },
            ClientAction::Show { node } => ClientActionView::Show { node: node@ },
            ClientAction::Execute { node, command } => ClientActionView::Execute {
                node: node@,
                command: command@,
            },
        }
    }
}

/// Error for a client command without any word.
pub const INVALID_COMMAND: &'static str = "Invalid command; Use 'secmon help' for help";

/// What a client command asks, by its whitespace-separated words:
/// `subscribe ...`, `list [sorted]` or `-` alone (list the nodes), a node
/// alone (show it), or a node followed by the label of a command to stream
/// from it (the label's words joined by single spaces).
pub open spec fn spec_client_action(command: Seq<char>) -> Result<ClientActionView, Seq<char>> {
    let w = words(command);
    if w.len() == 0 {
        Err(INVALID_COMMAND@)
    } else if w[0] == "subscribe"@ {
        Ok(ClientActionView::Subscribe)
    } else if w[0] == "list"@ {
        Ok(ClientActionView::List { sorted: has_arg(w.skip(1), "sorted"@) })
    } else if w.len() == 1 && w[0] == "-"@ {
        Ok(ClientActionView::List { sorted: false })
    } else if w.len() == 1 {
        Ok(ClientActionView::Show { node: w[0] })
    } else {
        Ok(
            ClientActionView::Execute {
                node: w[0],
                command: CommandView::Execute {
                    command_label: join_with(w.skip(1), " "@),
                    stream: true,
                },
            },
        )
    }
}

fn words_after_first(w: &Vec<Vec<char>>) -> (r: Vec<Vec<char>>)
    requires
        w@.len() >= 1,
    ensures
        r.deep_view() == w.deep_view().skip(1),
{
    let mut r: Vec<Vec<char>> = Vec::new();
    let mut i: usize = 1;
    while i < w.len()
        invariant
            1 <= i <= w@.len(),
            r.deep_view() == w.deep_view().subrange(1, i as int),
        decreases w@.len() - i,
    {
        let piece = crate::text::chars_range(&w[i], 0, w[i].len());
        proof {
            crate::text::lemma_chars_deep_view(&piece);
            crate::text::lemma_chars_deep_view(&w@[i as int]);
            assert(w@[i as int]@.subrange(0, w@[i as int]@.len() as int) == w@[i as int]@);
        }
        let ghost old_r = r.deep_view();
        r.push(piece);
        assert(r.deep_view() =~= old_r.push(w.deep_view()[i as int]));
        assert(w.deep_view().subrange(1, i + 1) =~= w.deep_view().subrange(1, i as int).push(
            w.deep_view()[i as int],
        ));
        i = i + 1;
    }
    assert(w.deep_view().skip(1) == w.deep_view().subrange(1, w@.len() as int));
    r
}

fn has_word(w: &Vec<Vec<char>>, a: &str) -> (r: bool)
    ensures
        r == has_arg(w.deep_view(), a@),
{
    let mut i: usize = 0;
    while i < w.len()
        invariant
            i <= w@.len(),
            forall|j: int| 0 <= j < i ==> w.deep_view()[j] != a@,
        decreases w@.len() - i,
    {
        if word_is(w, i, a) {
            return true;
        }
        i = i + 1;
    }
    false
}

/// Returns what a client command asks of the hub, or the error for an
/// empty command.
pub fn parse_client_command(command: &str) -> (r: Result<ClientAction, String>)
    ensures
        match spec_client_action(command@) {
            Ok(a) => r matches Ok(x) && x@ == a,
            Err(e) => r matches Err(x) && x@ == e,
        },
{
    let chars = chars_of(command);
    let w = split_words(&chars);
    if w.len() == 0 {
        return Err(owned(INVALID_COMMAND));
    }
    if word_is(&w, 0, "subscribe") {
        return Ok(ClientAction::Subscribe);
    }
    let rest = words_after_first(&w);
    if word_is(&w, 0, "list") {
        return Ok(ClientAction::List { sorted: has_word(&rest, "sorted") });
    }
    if w.len() == 1 {
        if word_is(&w, 0, "-") {
            return Ok(ClientAction::List { sorted: false });
        }
        return Ok(ClientAction::Show { node: word_string(&w, 0) });
    }
    let mut label: Vec<char> = Vec::new();
    crate::display::push_joined(&mut label, &rest, " ");
    Ok(
        ClientAction::Execute {
            node: word_string(&w, 0),
            command: Command::Execute { command_label: string_from_chars(&label), stream: true },
        },
    )
}

/// What the client shows for an answer of the hub while a command runs.
#[derive(Debug, PartialEq)]
pub enum ExecEvent {
    /// A line of output; more answers follow.
    Line(String),
    /// The command finished with this status.
    Done(ResultStatus),
    /// The node answered something other than a streamed result (as
    /// rendered); the client stops waiting.
    InvalidNodeResponse(String),
    /// The hub reported this error; the client fails.
    HubError(String),
    /// The hub answered something unexpected (as rendered).
    InvalidHubResponse(String),
}

/// Mathematical view of an [`ExecEvent`].
pub enum ExecEventView {
    Line(Seq<char>),
    Done(ResultStatus),
    InvalidNodeResponse(Seq<char>),
    HubError(Seq<char>),
    InvalidHubResponse(Seq<char>),
}

impl View for ExecEvent {
    type V = ExecEventView;

    open spec fn view(&self) -> ExecEventView {
        match self {
            ExecEvent::Line(l) => ExecEventView::Line(l@),
            ExecEvent::Done(s) => ExecEventView::Done(*s),
            ExecEvent::InvalidNodeResponse(t) => ExecEventView::InvalidNodeResponse(t@),
            ExecEvent::HubError(t) => ExecEventView::HubError(t@),
            ExecEvent::InvalidHubResponse(t) => ExecEventView::InvalidHubResponse(t@),
        }
    }
}

/// What the client shows for `r`: a pending streamed line is printed and
/// more follow; another streamed result ends the run with its status.
pub open spec fn spec_exec_event(r: ClientResponseView) -> ExecEventView {
    match r {
        ClientResponseView::RawResponse(raw) => match raw {
            ResponseView::ResultStream { status: ResultStatus::Pending, line } => ExecEventView::Line(
                line,
            ),
            ResponseView::ResultStream { status, .. } => ExecEventView::Done(status),
            _ => ExecEventView::InvalidNodeResponse(response_text(raw)),
        },
        ClientResponseView::Error(e) => ExecEventView::HubError(e),
        _ => ExecEventView::InvalidHubResponse(client_response_text(r)),
    }
}

/// Returns what the client shows for an answer of the hub while a command
/// runs; only a `Line` is followed by more answers.
pub fn exec_event(r: &ClientResponse) -> (e: ExecEvent)
    requires
        crate::display::client_response_displayable(r@),
    ensures
        e@ == spec_exec_event(r@),
        (e is Line) == (r@ matches ClientResponseView::RawResponse(raw)
            && crate::models::packet::spec_is_streaming_response(raw)),
{
    match r {
        ClientResponse::RawResponse(raw) => match raw {
            Response::ResultStream { status: ResultStatus::Pending, line } => ExecEvent::Line(
                line.clone(),
            ),
            Response::ResultStream { status, .. } => ExecEvent::Done(*status),
            _ => ExecEvent::InvalidNodeResponse(raw.to_display_string()),
        },
        ClientResponse::Error(e) => ExecEvent::HubError(e.clone()),
        _ => ExecEvent::InvalidHubResponse(r.to_display_string()),
    }
}

/// Returns the path of the hub's client socket for the user `uid`: under
/// `/run` for root, under the user's runtime directory otherwise.
pub fn get_socket_path(uid: u32) -> (r: String)
    ensures
        r@ == (if uid == 0 {
            "/run/secmon.sock"@
        } else {
            "/run/user/"@ + crate::text::decimal(uid as nat) + "/secmon.sock"@
        }),
{
    if uid == 0 {
        owned("/run/secmon.sock")
    } else {
        let mut out: Vec<char> = Vec::new();
        push_str(&mut out, "/run/user/");
        crate::text::push_decimal(&mut out, uid as u64);
        push_str(&mut out, "/secmon.sock");
        string_from_chars(&out)
    }
}

/// How a piece of terminal text is shown.
#[derive(Debug, Clone, Copy, PartialEq, Eq, Structural)]
pub enum Style {
    Plain,
    Bold,
    Green,
    GreenBold,
    Red,
    YellowBold,
}

/// A piece of a terminal line, with its style.
#[derive(Debug, PartialEq)]
pub struct Span {
    pub style: Style,
    pub text: String,
}

/// Mathematical view of a [`Span`].
pub struct SpanView {
    pub style: Style,
    pub text: Seq<char>,
}

impl View for Span {
    type V = SpanView;

    open spec fn view(&self) -> SpanView {
        SpanView { style: self.style, text: self.text@ }
    }
}

/// The view of a line.
pub open spec fn line_view(l: Seq<Span>) -> Seq<SpanView> {
    l.map_values(|s: Span| s@)
}

/// The view of lines.
pub open spec fn lines_view(ls: Seq<Vec<Span>>) -> Seq<Seq<SpanView>> {
    ls.map_values(|l: Vec<Span>| line_view(l@))
}

/// Times of a node rendered for the terminal (in the machine's time zone):
/// its last state update, the login of each of its sessions and the latest
/// handshake of each of its WireGuard peers, in order.
#[derive(Debug, PartialEq)]
pub struct ListingTimes {
    pub last_state_update: String,
    pub logins: Vec<String>,
    pub handshakes: Vec<Option<String>>,
}

/// A plain span.
pub open spec fn plain(t: Seq<char>) -> SpanView {
    SpanView { style: Style::Plain, text: t }
}

/// A styled span.
pub open spec fn styled(style: Style, t: Seq<char>) -> SpanView {
    SpanView { style, text: t }
}

/// A labelled detail line: the label in bold after an indent, then its
/// value.
pub open spec fn detail_line(label: Seq<char>, value: Seq<char>) -> Seq<SpanView> {
    seq![plain("  "@), styled(Style::Bold, label), plain(": "@ + value)]
}

/// The lines that head the listing of a node.
pub open spec fn heading_lines(n: NodeView, last_update: Seq<char>) -> Seq<Seq<SpanView>> {
    seq![
        seq![
            styled(Style::GreenBold, "node"@),
            plain(": "@),
            styled(Style::Green, n.hostname),
            plain(" ("@),
            if n.connected {
                styled(Style::Green, "connected"@)
            } else {
                styled(Style::Red, "disconnected"@)
            },
            plain(")"@),
        ],
        detail_line("serial"@, crate::text::decimal(n.serial as nat)),
        detail_line("address"@, n.address),
        detail_line("last state update"@, last_update),
    ]
}

/// The lines for an attribute that could not be collected, after an empty
/// line (none for one that is not monitored).
pub open spec fn error_lines(e: crate::models::node::NodeDataErrorView, attr: Seq<char>) -> Seq<Seq<SpanView>> {
    match e {
        crate::models::node::NodeDataErrorView::Initializing => seq![
            seq![],
            seq![styled(Style::YellowBold, attr), plain(": Initializing"@)],
        ],
        crate::models::node::NodeDataErrorView::NotMonitored => seq![],
        crate::models::node::NodeDataErrorView::Message(m) => seq![
            seq![],
            seq![styled(Style::YellowBold, attr), plain(": "@ + m)],
        ],
    }
}

/// The line of a session: user padded to `width`, login padded to 7, and
/// origin.
pub open spec fn session_row(width: nat, s: crate::models::node::SessionView, login: Seq<char>) -> Seq<SpanView> {
    seq![plain("  "@ + crate::text::pad_right(s.user, width) + crate::text::pad_right(login, 7)
        + crate::integrations::telegram::from_text(s.from))]
}

/// The lines of `sessions`, with their rendered `logins`.
pub open spec fn session_rows(width: nat, sessions: Seq<crate::models::node::SessionView>, logins: Seq<Seq<char>>) -> Seq<Seq<SpanView>> {
    Seq::new(sessions.len(), |i: int| session_row(width, sessions[i], logins[i]))
}

/// The lines of the sessions part of a listing.
pub open spec fn session_lines(s: Result<Seq<crate::models::node::SessionView>, crate::models::node::NodeDataErrorView>, logins: Seq<Seq<char>>) -> Seq<Seq<SpanView>> {
    match s {
        Ok(v) => if v.len() > 0 {
            seq![seq![], seq![styled(Style::YellowBold, "sessions"@), plain(":"@)]] + session_rows(
                crate::integrations::telegram::max_user_len(v) + 2,
                v,
                logins,
            )
        } else {
            seq![]
        },
        Err(e) => error_lines(e, "sessions"@),
    }
}

/// The lines of a WireGuard peer, with its rendered latest handshake.
pub open spec fn wg_peer_rows(p: crate::models::node::WgPeerView, handshake: Option<Seq<char>>) -> Seq<Seq<SpanView>> {
    seq![
        seq![],
        seq![styled(Style::YellowBold, "wg peer"@), plain(": "@ + p.peer)],
        detail_line("interface"@, p.interface),
    ] + match p.endpoint {
        Some(e) => seq![detail_line("endpoint"@, e)],
        None => seq![],
    } + match (p.latest_handshake, handshake) {
        (Some(_), Some(h)) => seq![detail_line("latest handshake"@, h)],
        _ => seq![],
    }
}

/// The lines of `peers`, with their rendered handshakes.
pub open spec fn wg_peers_rows(peers: Seq<crate::models::node::WgPeerView>, handshakes: Seq<Option<Seq<char>>>) -> Seq<Seq<SpanView>>
    decreases peers.len(),
{
    if peers.len() == 0 {
        seq![]
    } else {
        wg_peers_rows(peers.drop_last(), handshakes) + wg_peer_rows(peers.last(), handshakes[peers.len() - 1])
    }
}

/// The lines of the WireGuard part of a listing.
pub open spec fn wg_lines(p: Result<Seq<crate::models::node::WgPeerView>, crate::models::node::NodeDataErrorView>, handshakes: Seq<Option<Seq<char>>>) -> Seq<Seq<SpanView>> {
    match p {
        Ok(v) => wg_peers_rows(v, handshakes),
        Err(e) => error_lines(e, "wg peers"@),
    }
}

/// The rendered times, as texts.
pub open spec fn times_logins(t: &ListingTimes) -> Seq<Seq<char>> {
    t.logins.deep_view()
}

/// The rendered handshakes, as texts.
pub open spec fn times_handshakes(t: &ListingTimes) -> Seq<Option<Seq<char>>> {
    t.handshakes.deep_view()
}

/// Whether `times` has a rendering for each session and peer of `n`.
pub open spec fn times_fit(n: NodeView, times: &ListingTimes) -> bool {
    &&& (n.sessions matches Ok(v) ==> times.logins@.len() == v.len())
    &&& (n.wg_peers matches Ok(v) ==> times.handshakes@.len() == v.len())
}

/// Whether `times` has a rendering for each session and peer of `node`.
pub fn listing_times_fit(node: &Node, times: &ListingTimes) -> (r: bool)
    ensures
        r == times_fit(node@, times),
{
    let a = match &node.sessions {
        Ok(v) => times.logins.len() == v.len(),
        Err(_) => true,
    };
    let b = match &node.wg_peers {
        Ok(v) => times.handshakes.len() == v.len(),
        Err(_) => true,
    };
    a && b
}

/// The listing of a node for the terminal.
pub open spec fn spec_node_listing(n: NodeView, times: &ListingTimes) -> Seq<Seq<SpanView>> {
    heading_lines(n, times.last_state_update@) + session_lines(n.sessions, times_logins(times))
        + wg_lines(n.wg_peers, times_handshakes(times))
}

fn span(style: Style, text: String) -> (r: Span)
    ensures
        r@ == styled(style, text@),
{
    Span { style, text }
}

fn span_str(style: Style, text: &str) -> (r: Span)
    ensures
        r@ == styled(style, text@),
{
    Span { style, text: owned(text) }
}

fn push_line(lines: &mut Vec<Vec<Span>>, l: Vec<Span>)
    ensures
        lines_view(final(lines)@) == lines_view(old(lines)@).push(line_view(l@)),
{
    let ghost before = lines_view(lines@);
    lines.push(l);
    assert(lines_view(lines@) =~= before.push(line_view(l@)));
}

fn detail(label: &str, value: String) -> (r: Vec<Span>)
    ensures
        line_view(r@) == detail_line(label@, value@),
{
    let mut l: Vec<Span> = Vec::new();
    l.push(span_str(Style::Plain, "  "));
    l.push(span_str(Style::Bold, label));
    let mut v: Vec<char> = Vec::new();
    push_str(&mut v, ": ");
    push_str(&mut v, value.as_str());
    l.push(span(Style::Plain, string_from_chars(&v)));
    assert(line_view(l@) =~= detail_line(label@, value@));
    l
}

fn push_error_lines(lines: &mut Vec<Vec<Span>>, e: &crate::models::node::NodeDataError, attr: &str)
    ensures
        lines_view(final(lines)@) == lines_view(old(lines)@) + error_lines(e@, attr@),
{
    let ghost before = lines_view(lines@);
    match e {
        crate::models::node::NodeDataError::NotMonitored => {
            assert(lines_view(lines@) =~= before + error_lines(e@, attr@));
        },
        crate::models::node::NodeDataError::Initializing => {
            push_line(lines, Vec::new());
            let mut l: Vec<Span> = Vec::new();
            l.push(span_str(Style::YellowBold, attr));
            l.push(span_str(Style::Plain, ": Initializing"));
            assert(line_view(l@) =~= seq![styled(Style::YellowBold, attr@), plain(": Initializing"@)]);
            push_line(lines, l);
            assert(line_view(Seq::<Span>::empty()) =~= Seq::<SpanView>::empty());
            assert(lines_view(lines@) =~= before + error_lines(e@, attr@));
        },
        crate::models::node::NodeDataError::Message(m) => {
            push_line(lines, Vec::new());
            let mut l: Vec<Span> = Vec::new();
            l.push(span_str(Style::YellowBold, attr));
            let mut v: Vec<char> = Vec::new();
            push_str(&mut v, ": ");
            push_str(&mut v, m.as_str());
            l.push(span(Style::Plain, string_from_chars(&v)));
            assert(line_view(l@) =~= seq![styled(Style::YellowBold, attr@), plain(": "@ + m@)]);
            push_line(lines, l);
            assert(line_view(Seq::<Span>::empty()) =~= Seq::<SpanView>::empty());
            assert(lines_view(lines@) =~= before + error_lines(e@, attr@));
        },
    }
}

fn push_heading_lines(lines: &mut Vec<Vec<Span>>, n: &Node, last_update: &String)
    ensures
        lines_view(final(lines)@) == lines_view(old(lines)@) + heading_lines(n@, last_update@),
{
    let ghost before = lines_view(lines@);
    let mut l: Vec<Span> = Vec::new();
    l.push(span_str(Style::GreenBold, "node"));
    l.push(span_str(Style::Plain, ": "));
    l.push(span(Style::Green, n.hostname.clone()));
    l.push(span_str(Style::Plain, " ("));
    if n.connected {
        l.push(span_str(Style::Green, "connected"));
    } else {
        l.push(span_str(Style::Red, "disconnected"));
    }
    l.push(span_str(Style::Plain, ")"));
    assert(line_view(l@) =~= heading_lines(n@, last_update@)[0]);
    push_line(lines, l);
    push_line(lines, detail("serial", crate::text::decimal_string(n.serial as u64)));
    push_line(lines, detail("address", n.address.clone()));
    push_line(lines, detail("last state update", last_update.clone()));
    assert(lines_view(lines@) =~= before + heading_lines(n@, last_update@));
}

fn push_session_lines(lines: &mut Vec<Vec<Span>>, s: &crate::models::node::Sessions, logins: &Vec<String>)
    requires
        s matches Ok(v) ==> logins@.len() == v@.len(),
    ensures
        lines_view(final(lines)@) == lines_view(old(lines)@) + session_lines(
            crate::models::node::sessions_view(*s),
            logins.deep_view(),
        ),
{
    let ghost before = lines_view(lines@);
    match s {
        Err(e) => push_error_lines(lines, e, "sessions"),
        Ok(v) => {
            if v.len() == 0 {
                assert(lines_view(lines@) =~= before + session_lines(
                    crate::models::node::sessions_view(*s),
                    logins.deep_view(),
                ));
                return;
            }
            push_line(lines, Vec::new());
            let mut h: Vec<Span> = Vec::new();
            h.push(span_str(Style::YellowBold, "sessions"));
            h.push(span_str(Style::Plain, ":"));
            assert(line_view(h@) =~= seq![styled(Style::YellowBold, "sessions"@), plain(":"@)]);
            push_line(lines, h);
            assert(line_view(Seq::<Span>::empty()) =~= Seq::<SpanView>::empty());
            let ghost sv = crate::models::node::session_list_view(v@);
            let ghost mid = lines_view(lines@);
            let width = crate::integrations::telegram::user_width(v);
            let mut i: usize = 0;
            while i < v.len()
                invariant
                    i <= v@.len(),
                    logins@.len() == v@.len(),
                    sv == crate::models::node::session_list_view(v@),
                    width == crate::integrations::telegram::max_user_len(sv) + 2,
                    lines_view(lines@) == mid + session_rows(width as nat, sv, logins.deep_view()).take(i as int),
                decreases v@.len() - i,
            {
                let ss = &v[i];
                let mut t: Vec<char> = Vec::new();
                push_str(&mut t, "  ");
                crate::text::push_padded(&mut t, ss.user.as_str(), width);
                crate::text::push_padded(&mut t, logins[i].as_str(), 7);
                match &ss.from {
                    Some(f) => {
                        push_str(&mut t, "(");
                        push_str(&mut t, f.as_str());
                        push_str(&mut t, ")");
                    },
                    None => push_str(&mut t, "(/)"),
                }
                assert(t@ == "  "@ + crate::text::pad_right(ss.user@, width as nat) + crate::text::pad_right(logins@[i as int]@, 7) + crate::integrations::telegram::from_text(ss@.from));
                let mut l: Vec<Span> = Vec::new();
                l.push(span(Style::Plain, string_from_chars(&t)));
                proof {
                    assert(logins.deep_view()[i as int] == logins@[i as int]@);
                    assert(sv[i as int] == ss@);
                    assert(line_view(l@) =~= session_row(width as nat, sv[i as int], logins.deep_view()[i as int]));
                    assert(session_rows(width as nat, sv, logins.deep_view()).take(i + 1) =~= session_rows(width as nat, sv, logins.deep_view()).take(i as int).push(line_view(l@)));
                }
                push_line(lines, l);
                i = i + 1;
            }
            assert(session_rows(width as nat, sv, logins.deep_view()).take(v@.len() as int) =~= session_rows(width as nat, sv, logins.deep_view()));
            assert(lines_view(lines@) =~= before + session_lines(
                crate::models::node::sessions_view(*s),
                logins.deep_view(),
            ));
        },
    }
}

fn push_wg_peer_rows(lines: &mut Vec<Vec<Span>>, p: &crate::models::node::WgPeer, handshake: &Option<String>)
    ensures
        lines_view(final(lines)@) == lines_view(old(lines)@) + wg_peer_rows(p@, crate::models::node::opt_str_view(*handshake)),
{
    let ghost before = lines_view(lines@);
    push_line(lines, Vec::new());
    let mut h: Vec<Span> = Vec::new();
    h.push(span_str(Style::YellowBold, "wg peer"));
    let mut t: Vec<char> = Vec::new();
    push_str(&mut t, ": ");
    push_str(&mut t, p.peer.as_str());
    h.push(span(Style::Plain, string_from_chars(&t)));
    assert(line_view(h@) =~= seq![styled(Style::YellowBold, "wg peer"@), plain(": "@ + p.peer@)]);
    push_line(lines, h);
    push_line(lines, detail("interface", p.interface.clone()));
    assert(line_view(Seq::<Span>::empty()) =~= Seq::<SpanView>::empty());
    let ghost first = lines_view(lines@);
    if let Some(e) = &p.endpoint {
        push_line(lines, detail("endpoint", e.clone()));
    }
    let ghost second = lines_view(lines@);
    match (&p.latest_handshake, handshake) {
        (Some(_), Some(hs)) => push_line(lines, detail("latest handshake", hs.clone())),
        _ => {},
    }
    assert(lines_view(lines@) =~= before + wg_peer_rows(p@, crate::models::node::opt_str_view(*handshake)));
}

fn push_wg_lines(lines: &mut Vec<Vec<Span>>, p: &crate::models::node::WgPeers, handshakes: &Vec<Option<String>>)
    requires
        p matches Ok(v) ==> handshakes@.len() == v@.len(),
    ensures
        lines_view(final(lines)@) == lines_view(old(lines)@) + wg_lines(
            crate::models::node::wg_peers_view(*p),
            handshakes.deep_view(),
        ),
{
    let ghost before = lines_view(lines@);
    match p {
        Err(e) => push_error_lines(lines, e, "wg peers"),
        Ok(v) => {
            let ghost pv = crate::models::node::wg_peer_list_view(v@);
            let ghost hv = handshakes.deep_view();
            let mut i: usize = 0;
            while i < v.len()
                invariant
                    i <= v@.len(),
                    handshakes@.len() == v@.len(),
                    pv == crate::models::node::wg_peer_list_view(v@),
                    hv == handshakes.deep_view(),
                    lines_view(lines@) == before + wg_peers_rows(pv.take(i as int), hv),
                decreases v@.len() - i,
            {
                proof {
                    assert(pv.take(i + 1).drop_last() == pv.take(i as int));
                    assert(pv.take(i + 1).last() == v@[i as int]@);
                    assert(hv[i as int] == crate::models::node::opt_str_view(handshakes@[i as int]));
                }
                push_wg_peer_rows(lines, &v[i], &handshakes[i]);
                i = i + 1;
            }
            assert(pv.take(v@.len() as int) == pv);
        },
    }
}

/// Returns the listing of a node for the terminal, with its times as
/// rendered in `times`.
pub fn node_listing(node: &Node, times: &ListingTimes) -> (r: Vec<Vec<Span>>)
    requires
        times_fit(node@, times),
    ensures
        lines_view(r@) == spec_node_listing(node@, times),
{
    let mut lines: Vec<Vec<Span>> = Vec::new();
    assert(lines_view(lines@) =~= Seq::<Seq<SpanView>>::empty());
    push_heading_lines(&mut lines, node, &times.last_state_update);
    push_session_lines(&mut lines, &node.sessions, &times.logins);
    push_wg_lines(&mut lines, &node.wg_peers, &times.handshakes);
    lines
}

/// The listing of `nodes` for the terminal: the listing of each node with
/// its rendered `times`, in order, consecutive listings separated by one
/// empty line; nothing for no nodes.
pub open spec fn spec_node_list_listing(nodes: Seq<NodeView>, times: Seq<ListingTimes>) -> Seq<
    Seq<SpanView>,
>
    decreases nodes.len(),
{
    if nodes.len() == 0 {
        seq![]
    } else if nodes.len() == 1 {
        spec_node_listing(nodes[0], &times[0])
    } else {
        spec_node_list_listing(nodes.drop_last(), times) + seq![seq![]] + spec_node_listing(
            nodes.last(),
            &times[nodes.len() - 1],
        )
    }
}

/// Appends the lines of `block` to `lines`.
fn append_lines(lines: &mut Vec<Vec<Span>>, block: Vec<Vec<Span>>)
    ensures
        lines_view(final(lines)@) == lines_view(old(lines)@) + lines_view(block@),
{
    let ghost a = lines@;
    let ghost b = block@;
    let mut block = block;
    lines.append(&mut block);
    assert(lines@ == a + b);
    assert(lines_view(lines@) =~= lines_view(a) + lines_view(b));
}

/// Returns the listing of `nodes` for the terminal, `times[i]` holding the
/// rendered times of `nodes[i]`: the nodes' listings in order, with one
/// empty line between consecutive ones.
pub fn node_list_listing(nodes: &Vec<Node>, times: &Vec<ListingTimes>) -> (r: Vec<Vec<Span>>)
    requires
        times@.len() == nodes@.len(),
        forall|i: int| 0 <= i < nodes@.len() ==> times_fit(#[trigger] nodes@[i]@, &times@[i]),
    ensures
        lines_view(r@) == spec_node_list_listing(
            crate::models::hub::node_list_view(nodes@),
            times@,
        ),
{
    let ghost nv = crate::models::hub::node_list_view(nodes@);
    let mut lines: Vec<Vec<Span>> = Vec::new();
    assert(lines_view(lines@) =~= Seq::<Seq<SpanView>>::empty());
    assert(nv.take(0) =~= Seq::<NodeView>::empty());
    let mut i: usize = 0;
    while i < nodes.len()
        invariant
            i <= nodes@.len(),
            times@.len() == nodes@.len(),
            nv == crate::models::hub::node_list_view(nodes@),
            forall|j: int| 0 <= j < nodes@.len() ==> times_fit(#[trigger] nodes@[j]@, &times@[j]),
            lines_view(lines@) == spec_node_list_listing(nv.take(i as int), times@),
        decreases nodes@.len() - i,
    {
        let ghost before = lines_view(lines@);
        if i > 0 {
            push_line(&mut lines, Vec::new());
            assert(line_view(Seq::<Span>::empty()) =~= Seq::<SpanView>::empty());
        }
        assert(times_fit(nodes@[i as int]@, &times@[i as int]));
        let block = node_listing(&nodes[i], &times[i]);
        append_lines(&mut lines, block);
        proof {
            let t = nv.take(i + 1);
            assert(t.drop_last() =~= nv.take(i as int));
            assert(t.last() == nodes@[i as int]@);
            if i == 0 {
                assert(t[0] == nodes@[0]@);
                assert(lines_view(lines@) =~= spec_node_list_listing(t, times@));
            } else {
                assert(lines_view(lines@) =~= spec_node_list_listing(t, times@));
            }
        }
        i = i + 1;
    }
    assert(nv.take(nodes@.len() as int) =~= nv);
    lines
}

/// Renders the times of `node` in the machine's time zone for its
/// listing: its last state update as date and time, each login as hours
/// and minutes, and each latest handshake, where there is one, as date and
/// time.
pub fn listing_times(node: &Node) -> (r: ListingTimes)
    requires
        crate::display::node_displayable(node@),
        crate::display::node_times_displayable(node@),
    ensures
        times_fit(node@, &r),
        node@.wg_peers matches Ok(v) ==> forall|i: int|
            0 <= i < v.len() ==> (#[trigger] r.handshakes@[i] is Some) == (
            v[i].latest_handshake is Some),
        crate::clock::date_time_shape(r.last_state_update@),
        forall|i: int|
            0 <= i < r.logins@.len() ==> crate::clock::hour_minute_shape(#[trigger] r.logins@[i]@),
        forall|i: int|
            0 <= i < r.handshakes@.len() ==> (#[trigger] r.handshakes@[i] matches Some(h)
                ==> crate::clock::date_time_shape(h@)),
{
    let last_state_update = crate::clock::timestamp_local(&node.last_state_update, "%F %T");
    let mut logins: Vec<String> = Vec::new();
    if let Ok(v) = &node.sessions {
        let ghost sv = crate::models::node::session_list_view(v@);
        let mut i: usize = 0;
        while i < v.len()
            invariant
                i <= v@.len(),
                logins@.len() == i,
                sv == crate::models::node::session_list_view(v@),
                crate::display::sessions_displayable(sv),
                forall|j: int|
                    0 <= j < i ==> crate::clock::hour_minute_shape(#[trigger] logins@[j]@),
            decreases v@.len() - i,
        {
            assert(crate::display::session_displayable(sv[i as int]));
            logins.push(crate::clock::timestamp_local(&v[i].login, "%H:%M"));
            i = i + 1;
        }
    }
    let mut handshakes: Vec<Option<String>> = Vec::new();
    if let Ok(v) = &node.wg_peers {
        let ghost pv = crate::models::node::wg_peer_list_view(v@);
        let mut i: usize = 0;
        while i < v.len()
            invariant
                i <= v@.len(),
                handshakes@.len() == i,
                pv == crate::models::node::wg_peer_list_view(v@),
                crate::display::wg_peers_displayable(pv),
                forall|j: int|
                    0 <= j < i ==> (#[trigger] handshakes@[j] is Some) == (
                    pv[j].latest_handshake is Some),
                forall|j: int|
                    0 <= j < i ==> (#[trigger] handshakes@[j] matches Some(h)
                        ==> crate::clock::date_time_shape(h@)),
            decreases v@.len() - i,
        {
            assert(crate::display::wg_peer_displayable(pv[i as int]));
            let h = match &v[i].latest_handshake {
                Some(t) => Some(crate::clock::timestamp_local(t, "%F %T")),
                None => None,
            };
            handshakes.push(h);
            i = i + 1;
        }
    }
    ListingTimes { last_state_update, logins, handshakes }
}

/// A node launched with some arguments monitors sessions exactly when one
/// of them is `who`, WireGuard peers exactly when one is `wg`, the auth log
/// exactly when one is `auth`, and reconnects exactly when one is
/// `--reconnect`.
pub proof fn lemma_node_config_follows_args(args: Seq<Seq<char>>)
    requires
        args.len() >= 2,
        args[1] == "node"@,
    ensures
        spec_launch_mode(args) matches LaunchModeView::Node(c) && c.enable_sessions == (exists|i: int|
            0 <= i < args.len() && args[i] == "who"@) && c.enable_wg_peers == (exists|i: int|
            0 <= i < args.len() && args[i] == "wg"@) && c.enable_auth_log == (exists|i: int|
            0 <= i < args.len() && args[i] == "auth"@) && c.reconnect == (exists|i: int|
            0 <= i < args.len() && args[i] == "--reconnect"@),
{
    reveal_strlit("hub");
    reveal_strlit("node");
    assert("node"@.len() != "hub"@.len());
    assert(spec_launch_mode(args) == LaunchModeView::Node(spec_node_config(args)));
}

/// Fewer than one argument after the program name shows the usage;
/// `hub` launches the hub, `help` the help; any other first argument is a
/// client command made of all the arguments after the program name.
pub proof fn lemma_launch_modes(args: Seq<Seq<char>>)
    ensures
        args.len() < 2 ==> spec_launch_mode(args) is Usage,
        args.len() >= 2 && args[1] == "hub"@ ==> spec_launch_mode(args) is Hub,
        args.len() >= 2 && args[1] == "help"@ ==> spec_launch_mode(args) is Help,
        args.len() >= 2 && args[1] != "hub"@ && args[1] != "node"@ && args[1] != "help"@
            ==> spec_launch_mode(args) == LaunchModeView::Client(join_with(args.skip(1), " "@)),
{
    reveal_strlit("hub");
    reveal_strlit("node");
    reveal_strlit("help");
    assert("node"@[0] != "help"@[0]);
    assert("hub"@.len() != "help"@.len());
}

} // verus!
