//! Node-side decisions: what the node stores of freshly collected data and
//! which atomic update it reports to the hub.
use vstd::prelude::*;

use crate::models::NodeConfig;
use crate::models::node::{
    NodeDataError, NodeDataErrorView, NodeState, NodeStateView, NodeUpdate, NodeUpdateView,
    Session, SessionView, WgPeer, WgPeerView, clone_sessions, clone_wg_peers, session_list_view,
    sessions_eq, sessions_view, wg_peer_list_view, wg_peers_eq, wg_peers_view,
};

verus! {

/// What the node records for an attribute: `NotMonitored` when the
/// attribute is disabled (the fetched value is then not consulted), the
/// collected list, or the collection error as a message.
pub open spec fn monitored_sessions(enabled: bool, fetched: Result<Vec<Session>, String>) -> Result<
    Seq<SessionView>,
    NodeDataErrorView,
> {
    if !enabled {
        Err(NodeDataErrorView::NotMonitored)
    } else {
        match fetched {
            Ok(v) => Ok(session_list_view(v@)),
            Err(e) => Err(NodeDataErrorView::Message(e@)),
        }
    }
}

/// Same as [`monitored_sessions`], for WireGuard peers.
pub open spec fn monitored_wg_peers(enabled: bool, fetched: Result<Vec<WgPeer>, String>) -> Result<
    Seq<WgPeerView>,
    NodeDataErrorView,
> {
    if !enabled {
        Err(NodeDataErrorView::NotMonitored)
    } else {
        match fetched {
            Ok(v) => Ok(wg_peer_list_view(v@)),
            Err(e) => Err(NodeDataErrorView::Message(e@)),
        }
    }
}

/// The atomic update reported when the stored state `old` is replaced by
/// the freshly collected `sessions` and `wg_peers`: an attribute is present
/// exactly when it changed, with its new value; auth log entries are not
/// part of it.
pub open spec fn spec_node_update(
    old: NodeStateView,
    sessions: Result<Seq<SessionView>, NodeDataErrorView>,
    wg_peers: Result<Seq<WgPeerView>, NodeDataErrorView>,
) -> NodeUpdateView {
    NodeUpdateView {
        sessions: if sessions != old.sessions {
            Some(sessions)
        } else {
            None
        },
        wg_peers: if wg_peers != old.wg_peers {
            Some(wg_peers)
        } else {
            None
        },
        auth_log: None,
    }
}

fn monitored_sessions_value(enabled: bool, fetched: Result<Vec<Session>, String>) -> (r: Result<
    Vec<Session>,
    NodeDataError,
>)
    ensures
        sessions_view(r) == monitored_sessions(enabled, fetched),
{
    if !enabled {
        Err(NodeDataError::NotMonitored)
    } else {
        match fetched {
            Ok(v) => Ok(v),
            Err(e) => Err(NodeDataError::Message(e)),
        }
    }
}

fn monitored_wg_peers_value(enabled: bool, fetched: Result<Vec<WgPeer>, String>) -> (r: Result<
    Vec<WgPeer>,
    NodeDataError,
>)
    ensures
        wg_peers_view(r) == monitored_wg_peers(enabled, fetched),
{
    if !enabled {
        Err(NodeDataError::NotMonitored)
    } else {
        match fetched {
            Ok(v) => Ok(v),
            Err(e) => Err(NodeDataError::Message(e)),
        }
    }
}

/// Updates the stored `node_state` with freshly collected data (the
/// fetched value of a disabled attribute is not consulted).
///
/// Returns whether some attribute changed, and the atomic update that
/// carries exactly the changed attributes.
pub fn update_node_state(
    node_config: NodeConfig,
    node_state: &mut NodeState,
    sessions: Result<Vec<Session>, String>,
    wg_peers: Result<Vec<WgPeer>, String>,
) -> (r: (bool, NodeUpdate))
    ensures
        final(node_state)@ == (NodeStateView {
            sessions: monitored_sessions(node_config.enable_sessions, sessions),
            wg_peers: monitored_wg_peers(node_config.enable_wg_peers, wg_peers),
        }),
        r.1@ == spec_node_update(
            old(node_state)@,
            monitored_sessions(node_config.enable_sessions, sessions),
            monitored_wg_peers(node_config.enable_wg_peers, wg_peers),
        ),
        r.0 == (monitored_sessions(node_config.enable_sessions, sessions) != old(
            node_state,
        )@.sessions || monitored_wg_peers(node_config.enable_wg_peers, wg_peers) != old(
            node_state,
        )@.wg_peers),
{
    let new_sessions = monitored_sessions_value(node_config.enable_sessions, sessions);
    let new_wg_peers = monitored_wg_peers_value(node_config.enable_wg_peers, wg_peers);
    let mut data = NodeUpdate { sessions: None, wg_peers: None, auth_log: None };
    let mut updated: bool = false;
    if !sessions_eq(&new_sessions, &node_state.sessions) {
        node_state.sessions = clone_sessions(&new_sessions);
        data.sessions = Some(new_sessions);
        updated = true;
    }
    if !wg_peers_eq(&new_wg_peers, &node_state.wg_peers) {
        node_state.wg_peers = clone_wg_peers(&new_wg_peers);
        data.wg_peers = Some(new_wg_peers);
        updated = true;
    }
    (updated, data)
}

/// A node reports only what changed: collecting the same data again right
/// after an update reports nothing, and the stored state stays as it is.
pub proof fn lemma_unchanged_data_reports_nothing(
    config: NodeConfig,
    stored: NodeStateView,
    sessions: Result<Vec<Session>, String>,
    wg_peers: Result<Vec<WgPeer>, String>,
)
    ensures
        ({
            let s = monitored_sessions(config.enable_sessions, sessions);
            let w = monitored_wg_peers(config.enable_wg_peers, wg_peers);
            let after = NodeStateView { sessions: s, wg_peers: w };
            spec_node_update(after, s, w) == (NodeUpdateView {
                sessions: None,
                wg_peers: None,
                auth_log: None,
            })
        }),
{
}

/// The state a node starts with, before its first collection.
pub fn initial_node_state() -> (r: NodeState)
    ensures
        r@ == (NodeStateView {
            sessions: Err(NodeDataErrorView::Initializing),
            wg_peers: Err(NodeDataErrorView::Initializing),
        }),
{
    NodeState { sessions: Err(NodeDataError::Initializing), wg_peers: Err(NodeDataError::Initializing) }
}

/// An update carrying a single auth log entry (or the error met while
/// reading the auth log), as streamed by the auth log watcher.
pub fn auth_log_update(entry: crate::models::node::AuthLogUpdate) -> (r: NodeUpdate)
    ensures
        r@ == (NodeUpdateView {
            sessions: None,
            wg_peers: None,
            auth_log: Some(crate::models::node::auth_log_update_view(entry)),
        }),
{
    NodeUpdate { sessions: None, wg_peers: None, auth_log: Some(entry) }
}

/// The arguments of the `journalctl` run that watches the auth log:
/// follow new entries only, with ISO timestamps, quietly; with the auth
/// log enabled, only the entries of `sshd`, `sshd-session` and `su`.
pub open spec fn spec_journalctl_args(config: NodeConfig) -> Seq<Seq<char>> {
    seq!["-f"@, "-n"@, "0"@, "-o"@, "short-iso"@, "-q"@] + if config.enable_auth_log {
        seq!["-t"@, "sshd"@, "-t"@, "sshd-session"@, "-t"@, "su"@]
    } else {
        seq![]
    }
}

fn push_arg(args: &mut Vec<String>, a: &str)
    ensures
        final(args).deep_view() == old(args).deep_view().push(a@),
{
    let ghost before = args.deep_view();
    args.push(crate::text::owned(a));
    assert(args.deep_view() =~= before.push(a@));
}

/// Returns the arguments of the `journalctl` run that watches the auth log.
pub fn journalctl_args(config: NodeConfig) -> (r: Vec<String>)
    ensures
        r.deep_view() == spec_journalctl_args(config),
{
    let mut args: Vec<String> = Vec::new();
    push_arg(&mut args, "-f");
    push_arg(&mut args, "-n");
    push_arg(&mut args, "0");
    push_arg(&mut args, "-o");
    push_arg(&mut args, "short-iso");
    push_arg(&mut args, "-q");
    if config.enable_auth_log {
        push_arg(&mut args, "-t");
        push_arg(&mut args, "sshd");
        push_arg(&mut args, "-t");
        push_arg(&mut args, "sshd-session");
        push_arg(&mut args, "-t");
        push_arg(&mut args, "su");
    }
    assert(args.deep_view() =~= spec_journalctl_args(config));
    args
}

/// The update reporting what `journalctl` printed on its error output once
/// it ended: none when that is blank.
pub open spec fn spec_journal_stderr_update(stderr: Seq<char>) -> Option<NodeUpdateView> {
    if crate::text::trim(stderr).len() == 0 {
        None
    } else {
        Some(
            NodeUpdateView {
                sessions: None,
                wg_peers: None,
                auth_log: Some(
                    Err(NodeDataErrorView::Message("Error executing journalctl: "@ + stderr)),
                ),
            },
        )
    }
}

/// Returns the update reporting what `journalctl` printed on its error
/// output once it ended, if anything.
pub fn journal_stderr_update(stderr: &str) -> (r: Option<NodeUpdate>)
    ensures
        match r {
            Some(u) => spec_journal_stderr_update(stderr@) == Some(u@),
            None => spec_journal_stderr_update(stderr@) is None,
        },
{
    let c = crate::text::chars_of(stderr);
    if crate::text::trim_chars(&c).len() == 0 {
        return None;
    }
    let mut m: Vec<char> = Vec::new();
    crate::text::push_str(&mut m, "Error executing journalctl: ");
    crate::text::push_str(&mut m, stderr);
    Some(
        NodeUpdate {
            sessions: None,
            wg_peers: None,
            auth_log: Some(Err(NodeDataError::Message(crate::text::string_from_chars(&m)))),
        },
    )
}

/// Returns the update reporting that watching the auth log failed with
/// `error`.
pub fn journal_failure_update(error: &str) -> (r: NodeUpdate)
    ensures
        r@ == (NodeUpdateView {
            sessions: None,
            wg_peers: None,
            auth_log: Some(
                Err(NodeDataErrorView::Message("Error processing journalctl data: "@ + error@)),
            ),
        }),
{
    let mut m: Vec<char> = Vec::new();
    crate::text::push_str(&mut m, "Error processing journalctl data: ");
    crate::text::push_str(&mut m, error);
    NodeUpdate {
        sessions: None,
        wg_peers: None,
        auth_log: Some(Err(NodeDataError::Message(crate::text::string_from_chars(&m)))),
    }
}

} // verus!
