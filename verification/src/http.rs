//! What the HTTP front end of a server decides: which session a POST goes to,
//! what status it is answered with, and whether an event stream may open.
//! Sessions are named by 128-bit identifiers (UUIDs).

use crate::error::McpError;
use crate::fields::opt_json;
use crate::protocol::{response_json, McpMessage, Notification, Response};
use vstd::prelude::*;

verus! {

/// What `Uuid::parse_str` gives for a text, as a 128-bit number (`None`
/// when the text is not a UUID).
pub uninterp spec fn uuid_text_value(text: Seq<char>) -> Option<u128>;

/// Calls `Uuid::parse_str` and takes the UUID as a number (`Uuid::as_u128`).
#[verifier::external_body]
fn parse_uuid(text: &str) -> (r: Option<u128>)
    ensures
        r == uuid_text_value(text@),
{
    match uuid::Uuid::parse_str(text) {
        Ok(u) => Some(u.as_u128()),
        Err(_) => None,
    }
}

/// The session named by an `Mcp-Session-Id` header: none when the header is
/// missing or is not a UUID.
pub fn session_id_from_header(header: Option<&str>) -> (r: Option<u128>)
    ensures
        r == match header {
            Some(h) => uuid_text_value(h@),
            None => None,
        },
{
    match header {
        Some(h) => parse_uuid(h),
        None => None,
    }
}

/// Whether a message is an `initialize` request.
pub fn is_initialize_request(message: &McpMessage) -> (r: bool)
    ensures
        r == (message matches McpMessage::Request(req) && req.method@ == "initialize"@),
{
    match message {
        McpMessage::Request(req) => req.method.eq(&"initialize".to_string()),
        _ => false,
    }
}

/// Where a POSTed message goes.
pub enum PostRoute {
    /// To the session it names.
    Session(u128),
    /// To a new session, which this `initialize` request opens.
    NewSession,
    /// Nowhere: 400 Bad Request.
    BadRequest,
    /// Nowhere: 404 Not Found (the named session does not exist).
    NotFound,
}

/// A message that names a session goes to it, unless the session does not
/// exist (404) or the message is an `initialize`, which may not be repeated
/// (400). A message that names no session must be an `initialize`, which
/// opens one; anything else is refused (400).
pub fn post_route(session_id: Option<u128>, session_known: bool, message: &McpMessage) -> (r: PostRoute)
    ensures
        r == match session_id {
            Some(id) => if !session_known {
                PostRoute::NotFound
            } else if message matches McpMessage::Request(req) && req.method@ == "initialize"@ {
                PostRoute::BadRequest
            } else {
                PostRoute::Session(id)
            },
            None => if message matches McpMessage::Request(req) && req.method@ == "initialize"@ {
                PostRoute::NewSession
            } else {
                PostRoute::BadRequest
            },
        },
{
    let initialize = is_initialize_request(message);
    match session_id {
        Some(id) => {
            if !session_known {
                PostRoute::NotFound
            } else if initialize {
                PostRoute::BadRequest
            } else {
                PostRoute::Session(id)
            }
        },
        None => {
            if initialize {
                PostRoute::NewSession
            } else {
                PostRoute::BadRequest
            }
        },
    }
}

/// How a POST is answered.
pub enum PostReply {
    /// 200, with the response as a JSON body.
    Json(Response),
    /// A status with no body.
    Status(u16),
    /// The error, as the error's own HTTP answer.
    Failed(McpError),
}

/// What the session's outcome for a POSTed message turns into: a response is
/// sent back as JSON; a request that got no response times out (504); a
/// notification or a client's response is accepted (202).
pub fn post_reply(outcome: Result<Option<McpMessage>, McpError>, is_request: bool) -> (r: PostReply)
    ensures
        match outcome {
            Ok(Some(McpMessage::Response(res))) => r == PostReply::Json(res),
            Ok(None) => r == PostReply::Status(if is_request {
                504u16
            } else {
                202u16
            }),
            Ok(Some(_)) => r == PostReply::Status(500u16),
            Err(e) => r == PostReply::Failed(e),
        },
{
    match outcome {
        Ok(Some(McpMessage::Response(res))) => PostReply::Json(res),
        Ok(None) => {
            if is_request {
                PostReply::Status(504)
            } else {
                PostReply::Status(202)
            }
        },
        Ok(Some(_)) => PostReply::Status(500),
        Err(e) => PostReply::Failed(e),
    }
}

/// A response that a client POSTs is handed to its session as a
/// `client/response` notification that carries the response.
pub fn client_response_notification(response: &Response) -> (r: Notification)
    ensures
        r.method@ == "client/response"@,
        opt_json(r.params) == Some(response_json(response@)),
        r.base.jsonrpc@ == "2.0"@,
{
    Notification::new("client/response", Some(response.to_value()))
}

/// Why an event stream is refused.
pub enum SseRefusal {
    MissingHeader,
    InvalidSessionId,
    UnknownSession,
    AlreadyStreaming,
}

impl SseRefusal {
    /// The HTTP status of the refusal.
    pub fn status(&self) -> (r: u16)
        ensures
            r == match *self {
                SseRefusal::MissingHeader => 400u16,
                SseRefusal::InvalidSessionId => 400u16,
                SseRefusal::UnknownSession => 404u16,
                SseRefusal::AlreadyStreaming => 409u16,
            },
    {
        match self {
            SseRefusal::MissingHeader => 400,
            SseRefusal::InvalidSessionId => 400,
            SseRefusal::UnknownSession => 404,
            SseRefusal::AlreadyStreaming => 409,
        }
    }

    /// The body of the refusal.
    pub fn message(&self) -> (r: String)
        ensures
            r@ == match *self {
                SseRefusal::MissingHeader => "Mcp-Session-Id header is required for SSE stream"@,
                SseRefusal::InvalidSessionId => "Invalid Mcp-Session-Id format"@,
                SseRefusal::UnknownSession => "Session not found"@,
                SseRefusal::AlreadyStreaming => "SSE stream already established for this session"@,
            },
    {
        match self {
            SseRefusal::MissingHeader => "Mcp-Session-Id header is required for SSE stream".to_string(),
            SseRefusal::InvalidSessionId => "Invalid Mcp-Session-Id format".to_string(),
            SseRefusal::UnknownSession => "Session not found".to_string(),
            SseRefusal::AlreadyStreaming => "SSE stream already established for this session".to_string(),
        }
    }
}

/// The session that an event-stream request names: its `Mcp-Session-Id`
/// header must be present and be a UUID.
pub fn sse_session_id(header: Option<&str>) -> (r: Result<u128, SseRefusal>)
    ensures
        match header {
            None => r == Err::<u128, SseRefusal>(SseRefusal::MissingHeader),
            Some(h) => match uuid_text_value(h@) {
                Some(id) => r == Ok::<u128, SseRefusal>(id),
                None => r == Err::<u128, SseRefusal>(SseRefusal::InvalidSessionId),
            },
        },
{
    match header {
        None => Err(SseRefusal::MissingHeader),
        Some(h) => match parse_uuid(h) {
            Some(id) => Ok(id),
            None => Err(SseRefusal::InvalidSessionId),
        },
    }
}

/// Whether an event stream may open for a session: the session must exist
/// and must not have a stream already.
pub fn sse_admission(session_known: bool, stream_available: bool) -> (r: Result<(), SseRefusal>)
    ensures
        !session_known ==> r == Err::<(), SseRefusal>(SseRefusal::UnknownSession),
        session_known && !stream_available ==> r == Err::<(), SseRefusal>(
            SseRefusal::AlreadyStreaming,
        ),
        session_known && stream_available ==> r is Ok,
{
    if !session_known {
        Err(SseRefusal::UnknownSession)
    } else if !stream_available {
        Err(SseRefusal::AlreadyStreaming)
    } else {
        Ok(())
    }
}

} // verus!
