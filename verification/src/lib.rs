//! Monitoring of security-relevant state (user sessions, WireGuard peers,
//! authentication log events) across nodes, collected by a hub and served
//! to clients and chat integrations.
pub mod text;
pub mod models;
pub mod node;
pub mod search;
pub mod hub;
pub mod clock;
pub mod numbers;
pub mod display;
pub mod integrations;
pub mod cli;
pub mod relay;
pub mod framing;
pub mod address_sort;
