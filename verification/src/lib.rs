//! Core of a WebSocket connection gateway: identifiers, the pending-approval
//! table, the connection registry and the per-connection lifecycle.

pub mod id;
pub mod log;
pub mod api;
pub mod error;
pub mod event;
pub mod frame;
pub mod order;
pub mod registry;
pub mod commands;
pub mod config;
pub mod server;
pub mod state;
pub mod v1;
pub mod handshake;
pub mod ws;
