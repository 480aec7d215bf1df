//! The first protocol version: its messages, its games and its connections.

pub mod game;
pub mod messages;
pub mod ws;
