//! The data model shared by nodes, the hub and clients.
use vstd::prelude::*;

pub mod hub;
pub mod node;
pub mod packet;

verus! {

/// Default port of the hub, for hub and node alike.
pub const DEFAULT_PORT: u16 = 9992;

/// Hub configuration.
#[derive(Debug, Clone, Copy, PartialEq, Eq, Structural)]
pub struct HubConfig {
    /// Seconds after which a remote command execution times out.
    pub remote_exec_timeout: u64,
    /// Seconds after which a disconnected node is removed, if not replaced.
    pub disconnect_grace_period: u64,
    /// Whether a reconnecting node replaces a node of the same hostname.
    pub assume_hostname_unique: bool,
}

/// Node configuration.
#[derive(Debug, Clone, Copy, PartialEq, Eq, Structural)]
pub struct NodeConfig {
    /// Whether to reconnect when the connection to the hub is lost.
    pub reconnect: bool,
    /// Whether user sessions (`who`) are monitored.
    pub enable_sessions: bool,
    /// Whether WireGuard peers (`wg`) are monitored.
    pub enable_wg_peers: bool,
    /// Whether the auth log (`journalctl`) is monitored.
    pub enable_auth_log: bool,
}

} // verus!
