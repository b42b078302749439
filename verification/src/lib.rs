//! A gateway that puts one HTTP surface in front of a changing set of
//! tool-providing backends: local subprocesses and remote services.
//!
//! This crate is the core of that gateway: the endpoint registry, the
//! lifecycle rules of the endpoint manager, the session worker's state
//! machine, path routing, tool filtering and the bridge's conversions. Each
//! function states what it returns and changes, and Verus checks the
//! statement against the code.

pub mod config;
pub mod endpoint;
pub mod error;
pub mod routing;
pub mod text;
pub mod mcp;
