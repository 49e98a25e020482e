//! Session credential lifecycle and CLI orchestration for an access-gateway
//! desktop client: parsing of the gateway CLI's output, token expiry and
//! refresh decisions, and the shared table of connections and their health.

pub mod text;
pub mod json;
pub mod model;
pub mod error;
pub mod cli;
pub mod parser;
pub mod session;
pub mod tokens;
pub mod refresh;
pub mod registry;
pub mod settings;
pub mod rdp;
pub mod config;
pub mod logger;
pub mod laws;
