//! A verified core for the Slight agent gateway: agent kinds, the gateway
//! wire contract, session journals, and the decisions the host makes on them.

pub mod text;
pub mod kinds;
pub mod content;
pub mod metadata;
pub mod ids;
pub mod json;
pub mod session_types;
pub mod journal;
pub mod agent_events;
pub mod session_state;
pub mod session_manager;
pub mod error_code;
pub mod protocol;
pub mod command_name;
pub mod gateway;
pub mod matrix;
pub mod process;
pub mod env;
pub mod paths;
pub mod stdio;
pub mod launch;
pub mod opencode;
pub mod codex;
pub mod claude_code;
pub mod normalize;
pub mod fake;
pub mod legacy;
pub mod transport;
pub mod time;
pub mod dto;
pub mod admin;
pub mod commands;
pub mod traits;
pub mod store_error;
pub mod registry;
pub mod routing;
pub mod worker;
pub mod connection;
pub mod cli;
pub mod host;
pub mod acp_client;
pub mod jsonrpc;
pub mod listing;
pub mod store;
pub mod wire_agent;
pub mod gateway_client;
pub mod events;
pub mod gate;
pub mod samples;
