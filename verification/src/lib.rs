//! A Model Context Protocol (MCP) library: JSON-RPC 2.0 messages and their
//! JSON form, message framing for the transports, pagination cursors, and
//! the decisions that MCP clients and servers take on what they receive.
//!
//! The asynchronous runtime around it (transports, sessions, the HTTP
//! server, handler registries) is built on top of these pieces.

pub mod client;
pub mod decimal;
pub mod declaration;
pub mod error;
pub mod fields;
pub mod http;
pub mod json;
pub mod pagination;
pub mod prompts;
pub mod protocol;
pub mod server;
pub mod transport;
pub mod types;

pub use error::McpError;
pub use protocol::{
    JsonRpcBase, McpMessage, Notification, Request, RequestId, Response, ResponseError,
};
pub use types::{
    ClientCapabilities, ClientInfo, ClientRootsCapability, InitializeRequestParams,
    InitializeResult, InputSchema, Resource, ServerCapabilities, ServerInfo,
    ServerPromptsCapability, ServerResourcesCapability, ServerToolsCapability, Tool,
    ToolOutputContentBlock, ToolsCallRequestParams, ToolsCallResult, ToolsListRequestParams,
    ToolsListResult,
};
