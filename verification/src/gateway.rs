//! The gateway: one long-lived connection that streams events, kept alive
//! by heartbeats and picked up again after a break.

pub mod connection;
pub mod endpoint;
pub mod framer;
pub mod inbound;
pub mod manager;
pub mod outbound;
pub mod session;
pub mod token;

pub use manager::GatewayManager;
