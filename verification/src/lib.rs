//! Task lifecycle engine for a chat-driven download companion.
//!
//! Inbound chat messages are parsed into download tasks, the tasks are
//! submitted to a remote download-job service, and the remote job states are
//! reconciled back onto the local tasks until every task reaches a terminal
//! state.  Network transports stay outside this crate; everything here works
//! on plain values and is verified.

pub mod conf;
pub mod discord;
pub mod download_station;
pub mod schemas;
pub mod task;
pub mod text;
pub mod time;
pub mod urlenc;

