//! The protocol side of the gateway: the data of tool discovery and
//! invocation, the session worker's state machine, and the bridge that
//! puts the uniform wire shape in front of a local endpoint.

pub mod bridge;
pub mod client;
pub mod json;
pub mod runtime;
pub mod types;

pub use self::types::{ToolCallRequest, ToolCallResponse, ToolContent, ToolDefinition};
