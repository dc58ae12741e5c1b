//! What each operation is for, over all its inputs.
//!
//! A law speaks of the calls of an operation: whatever such a call may return, and whatever it may
//! leave behind, stands in the stated relation to what it was given.
pub mod body;
pub mod client;
pub mod connector;
pub mod idle;
pub mod manager;
pub mod message;
pub mod pool;
pub mod reuse;
pub mod stream_task;
pub mod transaction;
