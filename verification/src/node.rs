//! The node side: collecting data and answering the hub.
pub mod handler;
pub mod data;
pub mod exec;
