//! Data a node collects and reports: user sessions, WireGuard peers and
//! authentication log events, with their mathematical views.
use vstd::prelude::*;

verus! {

/// Smallest number of seconds of a timestamp that `chrono` can render as a
/// calendar date (-262143-01-01T00:00:00Z).
pub const MIN_RENDERABLE_SECS: i64 = -8334601315200;

/// Largest number of seconds of a timestamp that `chrono` can render as a
/// calendar date (+262142-12-31T23:59:59Z).
pub const MAX_RENDERABLE_SECS: i64 = 8210266876799;

/// A point in time, as a system clock holds it: whole seconds since the
/// UNIX epoch (rounded down, any `i64`) and the nanoseconds past them.
#[derive(Clone, Copy, PartialEq, Eq, Structural, Debug)]
pub struct Timestamp {
    secs: i64,
    nanos: u32,
}

impl Timestamp {
    #[verifier::type_invariant]
    spec fn in_range(self) -> bool {
        self.nanos < 1_000_000_000
    }

    /// Whole seconds since the epoch.
    pub closed spec fn spec_secs(self) -> i64 {
        self.secs
    }

    /// Nanoseconds past `spec_secs`.
    pub closed spec fn spec_nanos(self) -> u32 {
        self.nanos
    }

    /// Whether `secs` and `nanos` describe a representable timestamp.
    pub open spec fn valid(secs: i64, nanos: u32) -> bool {
        nanos < 1_000_000_000
    }

    /// Whether `chrono` can render the timestamp as a calendar date.
    pub open spec fn renderable(self) -> bool {
        MIN_RENDERABLE_SECS <= self.spec_secs() <= MAX_RENDERABLE_SECS
    }

    /// Whether `chrono` can render the timestamp as a calendar date.
    pub fn is_renderable(&self) -> (r: bool)
        ensures
            r == self.renderable(),
    {
        MIN_RENDERABLE_SECS <= self.secs && self.secs <= MAX_RENDERABLE_SECS
    }

    /// The timestamp `secs` seconds and `nanos` nanoseconds after the epoch.
    pub closed spec fn spec_new(secs: i64, nanos: u32) -> Timestamp {
        Timestamp { secs, nanos }
    }

    /// The timestamp `secs` seconds and `nanos` nanoseconds after the epoch,
    /// if it is representable.
    pub fn new(secs: i64, nanos: u32) -> (r: Option<Timestamp>)
        ensures
            r is Some <==> Timestamp::valid(secs, nanos),
            r matches Some(t) ==> t == Timestamp::spec_new(secs, nanos) && t.spec_secs() == secs
                && t.spec_nanos() == nanos,
    {
        if nanos < 1_000_000_000 {
            Some(Timestamp { secs, nanos })
        } else {
            None
        }
    }

    /// The instant `secs` seconds and `nanos` nanoseconds after the epoch,
    /// where nanoseconds past a whole second (a leap second, at most
    /// 1,999,999,999) carry into the seconds, as converting a `chrono`
    /// date and time into a `SystemTime` does; `None` past that.
    pub open spec fn spec_carried(secs: i64, nanos: u32) -> Option<Timestamp> {
        if nanos < 1_000_000_000 {
            Some(Timestamp::spec_new(secs, nanos))
        } else if nanos < 2_000_000_000 && secs < i64::MAX {
            Some(Timestamp::spec_new((secs + 1) as i64, (nanos - 1_000_000_000) as u32))
        } else {
            None
        }
    }

    /// The instant `secs` seconds and `nanos` nanoseconds after the epoch,
    /// nanoseconds past a whole second carried into the seconds.
    pub fn carried(secs: i64, nanos: u32) -> (r: Option<Timestamp>)
        ensures
            r == Timestamp::spec_carried(secs, nanos),
    {
        if nanos < 1_000_000_000 {
            Some(Timestamp { secs, nanos })
        } else if nanos < 2_000_000_000 && secs < i64::MAX {
            Some(Timestamp { secs: secs + 1, nanos: nanos - 1_000_000_000 })
        } else {
            None
        }
    }

    /// The UNIX epoch.
    pub closed spec fn spec_epoch() -> Timestamp {
        Timestamp { secs: 0, nanos: 0 }
    }

    /// The UNIX epoch itself.
    pub fn epoch() -> (r: Timestamp)
        ensures
            r == Timestamp::spec_epoch(),
            r.spec_secs() == 0 && r.spec_nanos() == 0,
    {
        Timestamp { secs: 0, nanos: 0 }
    }

    /// Whole seconds since the epoch.
    pub fn secs(&self) -> (r: i64)
        ensures
            r == self.spec_secs(),
            Timestamp::valid(r, self.spec_nanos()),
    {
        proof {
            use_type_invariant(self);
        }
        self.secs
    }

    /// Nanoseconds past `secs`.
    pub fn nanos(&self) -> (r: u32)
        ensures
            r == self.spec_nanos(),
            Timestamp::valid(self.spec_secs(), r),
    {
        proof {
            use_type_invariant(self);
        }
        self.nanos
    }

    /// Whether `self` is strictly later than `other`.
    pub fn is_after(&self, other: &Timestamp) -> (r: bool)
        ensures
            r == (self.spec_secs() > other.spec_secs() || (self.spec_secs() == other.spec_secs()
                && self.spec_nanos() > other.spec_nanos())),
    {
        self.secs > other.secs || (self.secs == other.secs && self.nanos > other.nanos)
    }
}

/// Error info for an attribute of node data.
#[derive(Debug, PartialEq)]
pub enum NodeDataError {
    /// The hub has not received the first update from the node.
    Initializing,
    /// The node is not monitoring the attribute.
    NotMonitored,
    /// Generic error message on collecting information.
    Message(String),
}

/// Mathematical view of a [`NodeDataError`].
pub enum NodeDataErrorView {
    Initializing,
    NotMonitored,
    Message(Seq<char>),
}

impl View for NodeDataError {
    type V = NodeDataErrorView;

    open spec fn view(&self) -> NodeDataErrorView {
        match self {
            NodeDataError::Initializing => NodeDataErrorView::Initializing,
            NodeDataError::NotMonitored => NodeDataErrorView::NotMonitored,
            NodeDataError::Message(m) => NodeDataErrorView::Message(m@),
        }
    }
}

impl Clone for NodeDataError {
    fn clone(&self) -> (r: Self)
        ensures
            r@ == self@,
    {
        match self {
            NodeDataError::Initializing => NodeDataError::Initializing,
            NodeDataError::NotMonitored => NodeDataError::NotMonitored,
            NodeDataError::Message(m) => NodeDataError::Message(m.clone()),
        }
    }
}

/// The view of an optional string.
pub open spec fn opt_str_view(o: Option<String>) -> Option<Seq<char>> {
    match o {
        Some(s) => Some(s@),
        None => None,
    }
}

/// User session (stored state).
#[derive(Debug, PartialEq)]
pub struct Session {
    /// Name of the user of the session.
    pub user: String,
    /// Remote origin of the session (`None` for a local session).
    pub from: Option<String>,
    /// Login time of the session.
    pub login: Timestamp,
}

/// Mathematical view of a [`Session`].
pub struct SessionView {
    pub user: Seq<char>,
    pub from: Option<Seq<char>>,
    pub login: Timestamp,
}

impl View for Session {
    type V = SessionView;

    open spec fn view(&self) -> SessionView {
        SessionView { user: self.user@, from: opt_str_view(self.from), login: self.login }
    }
}

impl Clone for Session {
    fn clone(&self) -> (r: Self)
        ensures
            r@ == self@,
    {
        Session { user: self.user.clone(), from: clone_opt_string(&self.from), login: self.login }
    }
}

/// WireGuard peer (stored state).
#[derive(Debug, PartialEq)]
pub struct WgPeer {
    /// WireGuard interface.
    pub interface: String,
    /// WireGuard peer (public key).
    pub peer: String,
    /// Endpoint of the peer (connecting IP and port).
    pub endpoint: Option<String>,
    /// Last handshake with the peer (last connection time).
    pub latest_handshake: Option<Timestamp>,
}

/// Mathematical view of a [`WgPeer`].
pub struct WgPeerView {
    pub interface: Seq<char>,
    pub peer: Seq<char>,
    pub endpoint: Option<Seq<char>>,
    pub latest_handshake: Option<Timestamp>,
}

impl View for WgPeer {
    type V = WgPeerView;

    open spec fn view(&self) -> WgPeerView {
        WgPeerView {
            interface: self.interface@,
            peer: self.peer@,
            endpoint: opt_str_view(self.endpoint),
            latest_handshake: self.latest_handshake,
        }
    }
}

impl Clone for WgPeer {
    fn clone(&self) -> (r: Self)
        ensures
            r@ == self@,
    {
        WgPeer {
            interface: self.interface.clone(),
            peer: self.peer.clone(),
            endpoint: clone_opt_string(&self.endpoint),
            latest_handshake: self.latest_handshake,
        }
    }
}

/// Sessions of a node, or why they are not available.
pub type Sessions = Result<Vec<Session>, NodeDataError>;

/// WireGuard peers of a node, or why they are not available.
pub type WgPeers = Result<Vec<WgPeer>, NodeDataError>;

/// View of a list of sessions.
pub open spec fn session_list_view(v: Seq<Session>) -> Seq<SessionView> {
    v.map_values(|s: Session| s@)
}

/// View of a list of WireGuard peers.
pub open spec fn wg_peer_list_view(v: Seq<WgPeer>) -> Seq<WgPeerView> {
    v.map_values(|p: WgPeer| p@)
}

/// View of [`Sessions`].
pub open spec fn sessions_view(s: Sessions) -> Result<Seq<SessionView>, NodeDataErrorView> {
    match s {
        Ok(v) => Ok(session_list_view(v@)),
        Err(e) => Err(e@),
    }
}

/// View of [`WgPeers`].
pub open spec fn wg_peers_view(s: WgPeers) -> Result<Seq<WgPeerView>, NodeDataErrorView> {
    match s {
        Ok(v) => Ok(wg_peer_list_view(v@)),
        Err(e) => Err(e@),
    }
}

/// Full tracked and stored state of a node, excluding tracked-only data.
#[derive(Debug, PartialEq)]
pub struct NodeState {
    pub sessions: Sessions,
    pub wg_peers: WgPeers,
}

/// Mathematical view of a [`NodeState`].
pub struct NodeStateView {
    pub sessions: Result<Seq<SessionView>, NodeDataErrorView>,
    pub wg_peers: Result<Seq<WgPeerView>, NodeDataErrorView>,
}

impl View for NodeState {
    type V = NodeStateView;

    open spec fn view(&self) -> NodeStateView {
        NodeStateView { sessions: sessions_view(self.sessions), wg_peers: wg_peers_view(self.wg_peers) }
    }
}

impl Clone for NodeState {
    fn clone(&self) -> (r: Self)
        ensures
            r@ == self@,
    {
        NodeState { sessions: clone_sessions(&self.sessions), wg_peers: clone_wg_peers(&self.wg_peers) }
    }
}

/// Origin of an SSH connection: host and port.
pub type AuthOrigin = (String, u16);

/// Detail of an auth log entry.
#[derive(Debug, PartialEq)]
pub enum AuthLogDetail {
    /// SSH connection accepted, with the login method (`publickey`, `password`).
    SshConnect(AuthOrigin, String),
    /// SSH password login failed.
    SshFailPassword(AuthOrigin),
    /// SSH connection closed.
    SshDisconnect(AuthOrigin),
    /// SU session opened for the target user.
    SuOpen(String),
    /// SU session failed for the target user.
    SuFail(String),
    /// SU session closed for the target user (the acting user is not known).
    SuClose(String),
}

/// Mathematical view of an [`AuthLogDetail`].
pub enum AuthLogDetailView {
    SshConnect(Seq<char>, u16, Seq<char>),
    SshFailPassword(Seq<char>, u16),
    SshDisconnect(Seq<char>, u16),
    SuOpen(Seq<char>),
    SuFail(Seq<char>),
    SuClose(Seq<char>),
}

impl View for AuthLogDetail {
    type V = AuthLogDetailView;

    open spec fn view(&self) -> AuthLogDetailView {
        match self {
            AuthLogDetail::SshConnect((h, p), m) => AuthLogDetailView::SshConnect(h@, *p, m@),
            AuthLogDetail::SshFailPassword((h, p)) => AuthLogDetailView::SshFailPassword(h@, *p),
            AuthLogDetail::SshDisconnect((h, p)) => AuthLogDetailView::SshDisconnect(h@, *p),
            AuthLogDetail::SuOpen(t) => AuthLogDetailView::SuOpen(t@),
            AuthLogDetail::SuFail(t) => AuthLogDetailView::SuFail(t@),
            AuthLogDetail::SuClose(t) => AuthLogDetailView::SuClose(t@),
        }
    }
}

impl Clone for AuthLogDetail {
    fn clone(&self) -> (r: Self)
        ensures
            r@ == self@,
    {
        match self {
            AuthLogDetail::SshConnect((h, p), m) => AuthLogDetail::SshConnect(
                (h.clone(), *p),
                m.clone(),
            ),
            AuthLogDetail::SshFailPassword((h, p)) => AuthLogDetail::SshFailPassword(
                (h.clone(), *p),
            ),
            AuthLogDetail::SshDisconnect((h, p)) => AuthLogDetail::SshDisconnect((h.clone(), *p)),
            AuthLogDetail::SuOpen(t) => AuthLogDetail::SuOpen(t.clone()),
            AuthLogDetail::SuFail(t) => AuthLogDetail::SuFail(t.clone()),
            AuthLogDetail::SuClose(t) => AuthLogDetail::SuClose(t.clone()),
        }
    }
}

/// Auth log entry (tracked only; not stored).
#[derive(Debug, PartialEq)]
pub struct AuthLog {
    /// Time of the entry.
    pub time: Timestamp,
    /// Process of the entry, such as `sshd[1234]`.
    pub process: String,
    /// User of the entry.
    pub user: String,
    /// Detail of the entry.
    pub detail: AuthLogDetail,
}

/// Mathematical view of an [`AuthLog`].
pub struct AuthLogView {
    pub time: Timestamp,
    pub process: Seq<char>,
    pub user: Seq<char>,
    pub detail: AuthLogDetailView,
}

impl View for AuthLog {
    type V = AuthLogView;

    open spec fn view(&self) -> AuthLogView {
        AuthLogView {
            time: self.time,
            process: self.process@,
            user: self.user@,
            detail: self.detail@,
        }
    }
}

impl Clone for AuthLog {
    fn clone(&self) -> (r: Self)
        ensures
            r@ == self@,
    {
        AuthLog {
            time: self.time,
            process: self.process.clone(),
            user: self.user.clone(),
            detail: self.detail.clone(),
        }
    }
}

/// An auth log entry, or the error met while collecting entries.
pub type AuthLogUpdate = Result<AuthLog, NodeDataError>;

/// View of an [`AuthLogUpdate`].
pub open spec fn auth_log_update_view(u: AuthLogUpdate) -> Result<AuthLogView, NodeDataErrorView> {
    match u {
        Ok(l) => Ok(l@),
        Err(e) => Err(e@),
    }
}

/// Atomic update from a node on tracked state, including tracked-only data.
/// An attribute is `Some` exactly when it changed.
#[derive(Debug, PartialEq)]
pub struct NodeUpdate {
    pub sessions: Option<Sessions>,
    pub wg_peers: Option<WgPeers>,
    pub auth_log: Option<AuthLogUpdate>,
}

/// Mathematical view of a [`NodeUpdate`].
pub struct NodeUpdateView {
    pub sessions: Option<Result<Seq<SessionView>, NodeDataErrorView>>,
    pub wg_peers: Option<Result<Seq<WgPeerView>, NodeDataErrorView>>,
    pub auth_log: Option<Result<AuthLogView, NodeDataErrorView>>,
}

impl View for NodeUpdate {
    type V = NodeUpdateView;

    open spec fn view(&self) -> NodeUpdateView {
        NodeUpdateView {
            sessions: match self.sessions {
                Some(s) => Some(sessions_view(s)),
                None => None,
            },
            wg_peers: match self.wg_peers {
                Some(w) => Some(wg_peers_view(w)),
                None => None,
            },
            auth_log: match self.auth_log {
                Some(a) => Some(auth_log_update_view(a)),
                None => None,
            },
        }
    }
}

impl Clone for NodeUpdate {
    fn clone(&self) -> (r: Self)
        ensures
            r@ == self@,
    {
        NodeUpdate {
            sessions: match &self.sessions {
                Some(s) => Some(clone_sessions(s)),
                None => None,
            },
            wg_peers: match &self.wg_peers {
                Some(w) => Some(clone_wg_peers(w)),
                None => None,
            },
            auth_log: match &self.auth_log {
                Some(Ok(l)) => Some(Ok(l.clone())),
                Some(Err(e)) => Some(Err(e.clone())),
                None => None,
            },
        }
    }
}

/// A copy of an optional string.
pub fn clone_opt_string(o: &Option<String>) -> (r: Option<String>)
    ensures
        opt_str_view(r) == opt_str_view(*o),
{
    match o {
        Some(s) => Some(s.clone()),
        None => None,
    }
}

/// A copy of a list of sessions.
pub fn clone_session_list(v: &Vec<Session>) -> (r: Vec<Session>)
    ensures
        session_list_view(r@) == session_list_view(v@),
{
    let mut r: Vec<Session> = Vec::new();
    let mut i: usize = 0;
    while i < v.len()
        invariant
            i <= v@.len(),
            r@.len() == i,
            forall|k: int| 0 <= k < i ==> #[trigger] r@[k]@ == v@[k]@,
        decreases v@.len() - i,
    {
        r.push(v[i].clone());
        i = i + 1;
    }
    assert(session_list_view(r@) =~= session_list_view(v@));
    r
}

/// A copy of a list of WireGuard peers.
pub fn clone_wg_peer_list(v: &Vec<WgPeer>) -> (r: Vec<WgPeer>)
    ensures
        wg_peer_list_view(r@) == wg_peer_list_view(v@),
{
    let mut r: Vec<WgPeer> = Vec::new();
    let mut i: usize = 0;
    while i < v.len()
        invariant
            i <= v@.len(),
            r@.len() == i,
            forall|k: int| 0 <= k < i ==> #[trigger] r@[k]@ == v@[k]@,
        decreases v@.len() - i,
    {
        r.push(v[i].clone());
        i = i + 1;
    }
    assert(wg_peer_list_view(r@) =~= wg_peer_list_view(v@));
    r
}

/// A copy of [`Sessions`].
pub fn clone_sessions(s: &Sessions) -> (r: Sessions)
    ensures
        sessions_view(r) == sessions_view(*s),
{
    match s {
        Ok(v) => Ok(clone_session_list(v)),
        Err(e) => Err(e.clone()),
    }
}

/// A copy of [`WgPeers`].
pub fn clone_wg_peers(s: &WgPeers) -> (r: WgPeers)
    ensures
        wg_peers_view(r) == wg_peers_view(*s),
{
    match s {
        Ok(v) => Ok(clone_wg_peer_list(v)),
        Err(e) => Err(e.clone()),
    }
}

/// Whether two optional strings are equal.
pub fn opt_string_eq(a: &Option<String>, b: &Option<String>) -> (r: bool)
    ensures
        r == (opt_str_view(*a) == opt_str_view(*b)),
{
    match (a, b) {
        (Some(x), Some(y)) => *x == *y,
        (None, None) => true,
        _ => false,
    }
}

/// Whether two data errors are equal.
pub fn data_error_eq(a: &NodeDataError, b: &NodeDataError) -> (r: bool)
    ensures
        r == (a@ == b@),
{
    match (a, b) {
        (NodeDataError::Initializing, NodeDataError::Initializing) => true,
        (NodeDataError::NotMonitored, NodeDataError::NotMonitored) => true,
        (NodeDataError::Message(x), NodeDataError::Message(y)) => *x == *y,
        _ => false,
    }
}

/// Whether two sessions are equal.
pub fn session_eq(a: &Session, b: &Session) -> (r: bool)
    ensures
        r == (a@ == b@),
{
    a.user == b.user && opt_string_eq(&a.from, &b.from) && a.login == b.login
}

/// Whether two WireGuard peers are equal.
pub fn wg_peer_eq(a: &WgPeer, b: &WgPeer) -> (r: bool)
    ensures
        r == (a@ == b@),
{
    a.interface == b.interface && a.peer == b.peer && opt_string_eq(&a.endpoint, &b.endpoint)
        && a.latest_handshake == b.latest_handshake
}

/// Whether two lists of sessions are equal.
pub fn session_list_eq(a: &Vec<Session>, b: &Vec<Session>) -> (r: bool)
    ensures
        r == (session_list_view(a@) == session_list_view(b@)),
{
    if a.len() != b.len() {
        assert(session_list_view(a@).len() != session_list_view(b@).len());
        return false;
    }
    let mut i: usize = 0;
    while i < a.len()
        invariant
            a@.len() == b@.len(),
            i <= a@.len(),
            forall|k: int| 0 <= k < i ==> #[trigger] a@[k]@ == b@[k]@,
        decreases a@.len() - i,
    {
        if !session_eq(&a[i], &b[i]) {
            assert(session_list_view(a@)[i as int] != session_list_view(b@)[i as int]);
            return false;
        }
        i = i + 1;
    }
    assert(session_list_view(a@) =~= session_list_view(b@));
    true
}

/// Whether two lists of WireGuard peers are equal.
pub fn wg_peer_list_eq(a: &Vec<WgPeer>, b: &Vec<WgPeer>) -> (r: bool)
    ensures
        r == (wg_peer_list_view(a@) == wg_peer_list_view(b@)),
{
    if a.len() != b.len() {
        assert(wg_peer_list_view(a@).len() != wg_peer_list_view(b@).len());
        return false;
    }
    let mut i: usize = 0;
    while i < a.len()
        invariant
            a@.len() == b@.len(),
            i <= a@.len(),
            forall|k: int| 0 <= k < i ==> #[trigger] a@[k]@ == b@[k]@,
        decreases a@.len() - i,
    {
        if !wg_peer_eq(&a[i], &b[i]) {
            assert(wg_peer_list_view(a@)[i as int] != wg_peer_list_view(b@)[i as int]);
            return false;
        }
        i = i + 1;
    }
    assert(wg_peer_list_view(a@) =~= wg_peer_list_view(b@));
    true
}

/// Whether two [`Sessions`] values are equal.
pub fn sessions_eq(a: &Sessions, b: &Sessions) -> (r: bool)
    ensures
        r == (sessions_view(*a) == sessions_view(*b)),
{
    match (a, b) {
        (Ok(x), Ok(y)) => session_list_eq(x, y),
        (Err(x), Err(y)) => data_error_eq(x, y),
        _ => false,
    }
}

/// Whether two [`WgPeers`] values are equal.
pub fn wg_peers_eq(a: &WgPeers, b: &WgPeers) -> (r: bool)
    ensures
        r == (wg_peers_view(*a) == wg_peers_view(*b)),
{
    match (a, b) {
        (Ok(x), Ok(y)) => wg_peer_list_eq(x, y),
        (Err(x), Err(y)) => data_error_eq(x, y),
        _ => false,
    }
}

} // verus!
