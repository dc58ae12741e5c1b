//! An HTTP client: a pool of connections, the managers that run them, and the rules for both.
//!
//! Nothing here waits or touches the network. What has to wait is a state machine, which is handed
//! what happened and says what to do next.
pub mod client;
pub mod common;
pub mod error;
pub mod laws;
pub mod trusted;

pub use client::{Builder, Client, ClientGlobalConfig, ConnectionConfig, Proto};
