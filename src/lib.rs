//! A bridge that exposes a web search backend and a page fetcher through a
//! JSON-RPC style method-call protocol whose results are delivered on a
//! separate streaming channel.
//!
//! This crate holds the decisions of the bridge: how a call is routed, how a
//! tool call turns into a backend request and how its outcome is shaped, how a
//! fetched page is reduced to bounded text, and when a result delivery is
//! retried or given up. Network, timers and the streaming transport are left
//! to the caller, which feeds their outcomes back into these functions.
pub mod delivery;
pub mod error;
pub mod extract;
pub mod mcp;
pub mod state;
pub mod text;
pub mod tools;
