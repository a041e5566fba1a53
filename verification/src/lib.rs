//! Verified core of a desktop client for an ACP agent that speaks
//! line-delimited JSON-RPC over stdio.

pub mod cli;
pub mod client;
pub mod commands;
pub mod events;
pub mod json;
pub mod laws;
pub mod pending;
pub mod rpc;
pub mod session_update;
pub mod text;
