//! Verified core of the FavCRM command-line client: how commands become MCP
//! tool calls, how JSON-RPC replies are framed and unpacked, how credentials
//! are resolved, and how results are rendered.

pub mod json;
pub mod text;
pub mod client;
pub mod output;
pub mod commands;
pub mod config;
pub mod metadata;
