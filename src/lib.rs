//! Session engine of the agent terminal daemon: the session registry and its
//! lifecycle rules, the control-plane protocol values, hook-event mapping,
//! scrollback accounting, and the environment shaping of spawned terminals.

pub mod text;
pub mod time;
pub mod types;
pub mod error;
pub mod protocol;
pub mod notification;
pub mod persistence;
pub mod session;
pub mod paths;
pub mod shell;
pub mod env;
pub mod reader;
pub mod status;
pub mod agents;
