//! The library's error type and the text that describes each error.

use crate::decimal::{decimal_text, i64_decimal};
use vstd::prelude::*;

verus! {

#[verifier::external_type_specification]
#[verifier::external_body]
pub struct ExIoError(std::io::Error);

#[verifier::external_type_specification]
#[verifier::external_body]
pub struct ExRecvError(tokio::sync::oneshot::error::RecvError);

/// Everything that can go wrong in the protocol layer.
#[derive(Debug)]
pub enum McpError {
    Serialization(serde_json::Error),
    ParseJson(String),
    InvalidMessage(String),
    UnexpectedMessageType(String),
    Io(std::io::Error),
    ProtocolError(String),
    AuthError(String),
    UnsupportedProtocolVersion { requested: String, supported: Vec<String> },
    RequestTimeout,
    OneshotSend(String),
    OneshotRecv(tokio::sync::oneshot::error::RecvError),
    NetworkError(String),
    ToolNotFound(String),
    ServerError { code: i32, message: String, data: Option<serde_json::Value> },
}

/// The text that `{:?}` gives for a list of strings.
pub uninterp spec fn debug_text_of_strings(items: Seq<Seq<char>>) -> Seq<char>;

/// Formats a list of strings with `{:?}` (`["a", "b"]`, with Rust escapes).
#[verifier::external_body]
fn debug_strings(items: &Vec<String>) -> (r: String)
    ensures
        r@ == debug_text_of_strings(items@.map_values(|s: String| s@)),
{
    format!("{:?}", items)
}

impl McpError {
    /// The text with which each kind of error starts.
    pub open spec fn display_prefix(self) -> Seq<char> {
        match self {
            McpError::Serialization(_) => "Json serialization error: "@,
            McpError::ParseJson(_) => "Failed to parse JSON message: "@,
            McpError::InvalidMessage(_) => "Invalid JSON-RPC 2.0 message: "@,
            McpError::UnexpectedMessageType(_) => "Received unexpected message type: "@,
            McpError::Io(_) => "IO error: "@,
            McpError::ProtocolError(_) => "Protocol error: "@,
            McpError::AuthError(_) => "Authentication error: "@,
            McpError::UnsupportedProtocolVersion { .. } => "Unsupported protocol version: requested "@,
            McpError::RequestTimeout => "Request timed out"@,
            McpError::OneshotSend(_) => "Oneshot channel send error: "@,
            McpError::OneshotRecv(_) => "Oneshot channel receive error: "@,
            McpError::NetworkError(_) => "Network error: "@,
            McpError::ToolNotFound(_) => "Tool not found: "@,
            McpError::ServerError { .. } => "Server error "@,
        }
    }

    /// The whole text of an error, where it is made of the library's own strings.
    pub open spec fn display_known(self) -> Option<Seq<char>> {
        match self {
            McpError::ParseJson(m) => Some(self.display_prefix() + m@),
            McpError::InvalidMessage(m) => Some(self.display_prefix() + m@),
            McpError::UnexpectedMessageType(m) => Some(self.display_prefix() + m@),
            McpError::ProtocolError(m) => Some(self.display_prefix() + m@),
            McpError::AuthError(m) => Some(self.display_prefix() + m@),
            McpError::UnsupportedProtocolVersion { requested, supported } => Some(
                self.display_prefix() + requested@ + ", supported versions: "@
                    + debug_text_of_strings(supported@.map_values(|s: String| s@)),
            ),
            McpError::RequestTimeout => Some(self.display_prefix()),
            McpError::OneshotSend(m) => Some(self.display_prefix() + m@),
            McpError::NetworkError(m) => Some(self.display_prefix() + m@),
            McpError::ToolNotFound(m) => Some(self.display_prefix() + m@),
            McpError::ServerError { code, message, .. } => Some(
                self.display_prefix() + decimal_text(code as int) + ": "@ + message@,
            ),
            _ => None,
        }
    }

    /// Whether a text is this error's description.
    pub open spec fn displays_as(self, text: Seq<char>) -> bool {
        &&& self.display_prefix().is_prefix_of(text)
        &&& (self.display_known() matches Some(t) ==> text == t)
    }

    /// The human-readable description of the error (what `Display` shows).
    pub fn display_text(&self) -> (r: String)
        ensures
            self.display_prefix().is_prefix_of(r@),
            self.display_known() matches Some(t) ==> r@ == t,
    {
        let mut text: String;
        match self {
            McpError::Serialization(e) => {
                text = "Json serialization error: ".to_string();
                let detail = e.to_string();
                text.append(detail.as_str());
            },
            McpError::ParseJson(m) => {
                text = "Failed to parse JSON message: ".to_string();
                text.append(m.as_str());
            },
            McpError::InvalidMessage(m) => {
                text = "Invalid JSON-RPC 2.0 message: ".to_string();
                text.append(m.as_str());
            },
            McpError::UnexpectedMessageType(m) => {
                text = "Received unexpected message type: ".to_string();
                text.append(m.as_str());
            },
            McpError::Io(e) => {
                text = "IO error: ".to_string();
                let detail = e.to_string();
                text.append(detail.as_str());
            },
            McpError::ProtocolError(m) => {
                text = "Protocol error: ".to_string();
                text.append(m.as_str());
            },
            McpError::AuthError(m) => {
                text = "Authentication error: ".to_string();
                text.append(m.as_str());
            },
            McpError::UnsupportedProtocolVersion { requested, supported } => {
                text = "Unsupported protocol version: requested ".to_string();
                text.append(requested.as_str());
                text.append(", supported versions: ");
                let listed = debug_strings(supported);
                text.append(listed.as_str());
            },
            McpError::RequestTimeout => {
                text = "Request timed out".to_string();
            },
            McpError::OneshotSend(m) => {
                text = "Oneshot channel send error: ".to_string();
                text.append(m.as_str());
            },
            McpError::OneshotRecv(e) => {
                text = "Oneshot channel receive error: ".to_string();
                let detail = e.to_string();
                text.append(detail.as_str());
            },
            McpError::NetworkError(m) => {
                text = "Network error: ".to_string();
                text.append(m.as_str());
            },
            McpError::ToolNotFound(m) => {
                text = "Tool not found: ".to_string();
                text.append(m.as_str());
            },
            McpError::ServerError { code, message, .. } => {
                text = "Server error ".to_string();
                let number = i64_decimal(*code as i64);
                text.append(number.as_str());
                text.append(": ");
                text.append(message.as_str());
            },
        }
        text
    }
}

/// Each error is described as its kind followed by what it carries: a
/// description starts with the kind's words, holds the carried text right
/// after them, and is exactly that where the whole text is the library's own.
pub proof fn law_error_descriptions(err: McpError, text: Seq<char>)
    ensures
        err matches McpError::ParseJson(m) ==> (err.displays_as(text) <==> text
            == "Failed to parse JSON message: "@ + m@),
        err matches McpError::InvalidMessage(m) ==> (err.displays_as(text) <==> text
            == "Invalid JSON-RPC 2.0 message: "@ + m@),
        err matches McpError::UnexpectedMessageType(m) ==> (err.displays_as(text) <==> text
            == "Received unexpected message type: "@ + m@),
        err matches McpError::ProtocolError(m) ==> (err.displays_as(text) <==> text
            == "Protocol error: "@ + m@),
        err matches McpError::AuthError(m) ==> (err.displays_as(text) <==> text
            == "Authentication error: "@ + m@),
        err is RequestTimeout ==> (err.displays_as(text) <==> text == "Request timed out"@),
        err matches McpError::OneshotSend(m) ==> (err.displays_as(text) <==> text
            == "Oneshot channel send error: "@ + m@),
        err matches McpError::NetworkError(m) ==> (err.displays_as(text) <==> text
            == "Network error: "@ + m@),
        err matches McpError::ToolNotFound(m) ==> (err.displays_as(text) <==> text
            == "Tool not found: "@ + m@),
        err matches McpError::UnsupportedProtocolVersion { requested, supported } ==> (
        err.displays_as(text) <==> text == "Unsupported protocol version: requested "@
            + requested@ + ", supported versions: "@ + debug_text_of_strings(
            supported@.map_values(|s: String| s@),
        )),
        err matches McpError::ServerError { code, message, .. } ==> (err.displays_as(text) <==> text
            == "Server error "@ + decimal_text(code as int) + ": "@ + message@),
        err is Serialization ==> (err.displays_as(text) <==> "Json serialization error: "@.is_prefix_of(
            text,
        )),
        err is Io ==> (err.displays_as(text) <==> "IO error: "@.is_prefix_of(text)),
        err is OneshotRecv ==> (err.displays_as(text) <==> "Oneshot channel receive error: "@.is_prefix_of(
            text,
        )),
{
    match err {
        McpError::UnsupportedProtocolVersion { requested, supported } => {
            let t = "Unsupported protocol version: requested "@ + requested@ + ", supported versions: "@
                + debug_text_of_strings(supported@.map_values(|s: String| s@));
            assert(t =~= "Unsupported protocol version: requested "@ + (requested@
                + ", supported versions: "@ + debug_text_of_strings(
                supported@.map_values(|s: String| s@),
            )));
        },
        McpError::ServerError { code, message, .. } => {
            let t = "Server error "@ + decimal_text(code as int) + ": "@ + message@;
            assert(t =~= "Server error "@ + (decimal_text(code as int) + ": "@ + message@));
        },
        _ => {},
    }
}

} // verus!
