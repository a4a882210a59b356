//! Real-time connection registry and message fan-out engine.
//!
//! The library tracks live client connections, routes messages either to a
//! specific user's connections or to every connection, and models the
//! bounded broadcast channels that carry them, including the lag-drop
//! policy applied to slow consumers.

pub mod api;
pub mod ai_trading_service;
pub mod auth_service;
pub mod channel;
pub mod config;
pub mod errors;
pub mod laws;
pub mod lifecycle;
pub mod message;
pub mod mt5_service;
pub mod notification_service;
pub mod stripe_service;
pub mod websocket_manager;

use vstd::prelude::*;

verus! {

/// Capacity of each connection's private outbound queue.
pub const PRIVATE_CHANNEL_CAPACITY: usize = 100;

/// Capacity of the global broadcast channel shared by all connections.
pub const GLOBAL_CHANNEL_CAPACITY: usize = 1000;

} // verus!
