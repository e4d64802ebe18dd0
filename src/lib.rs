//! Debug-session negotiation for a Scala language server: translating generic
//! debug configurations, filling in defaults, tracking workspace readiness and
//! deriving the connection endpoint from the server's answers.

pub mod config;
pub mod debugger;
pub mod error;
pub mod extension;
pub mod hex;
pub mod labels;
pub mod path;
pub mod port;
pub mod registry;
pub mod session;
pub mod text;
