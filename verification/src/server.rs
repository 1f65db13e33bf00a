//! What an MCP server decides: how a session answers what it receives, how
//! the built-in methods (`initialize`, `tools/*`, `prompts/get`,
//! `resources/*`) build their answers, and how resource subscriptions change.

use crate::error::McpError;
use crate::fields::{opt_json, push_field};
use crate::json::{json_compact_text, json_doc, json_model, json_null, json_object, json_string, json_text_stable, json_to_string, parsed_json, JsonModel};
use crate::pagination::{page_items, page_matches};
use crate::prompts::{PromptMessage, PromptsGetResult};
use crate::protocol::{McpMessage, Notification, Request, RequestId, Response};
use crate::types::{
    InitializeRequestParams, InitializeResult, ServerCapabilities, ServerInfo, ServerToolsCapability,
    Tool, ToolOutputContentBlock, ToolsCallResult, ToolsListRequestParams, ToolsListResult,
};
use vstd::prelude::*;

verus! {

/// How a server listens for clients.
pub enum ServerTransportConfig {
    Stdio,
    Tcp(String),
    /// The address to listen on.
    Http(String),
}

/// The HTTP front end of a server (its listener and request handlers run
/// outside the library).
pub struct McpHttpServer;

/// The protocol version that this library speaks.
pub fn latest_supported_protocol_version() -> (r: String)
    ensures
        r@ == "2025-06-18"@,
{
    "2025-06-18".to_string()
}

/// A server always announces the tools capability: when the given
/// capabilities leave it out, it is added with `listChanged: true`.
pub fn with_tools_capability(capabilities: ServerCapabilities) -> (r: ServerCapabilities)
    ensures
        capabilities.tools is Some ==> r == capabilities,
        capabilities.tools is None ==> r == (ServerCapabilities {
            tools: Some(ServerToolsCapability { list_changed: Some(true) }),
            ..capabilities
        }),
{
    let mut c = capabilities;
    if c.tools.is_none() {
        c.tools = Some(ServerToolsCapability { list_changed: Some(true) });
    }
    c
}

/// What the server says about itself.
pub struct ServerDescription {
    pub name: String,
    pub version: Option<String>,
    pub capabilities: ServerCapabilities,
    pub instructions: Option<String>,
    /// The protocol version the server speaks.
    pub protocol_version: String,
}

/// The version a session settles on: the server's own, whatever the client
/// asked for (when they differ, the client learns the server's version from
/// the answer).
pub fn negotiated_protocol_version(requested: &String, server_version: &String) -> (r: String)
    ensures
        r@ == server_version@,
{
    if requested.eq(server_version) {
        requested.clone()
    } else {
        server_version.clone()
    }
}

/// The answer to `initialize`, and the protocol version that the session
/// settles on.
pub fn initialize_response(
    request_id: RequestId,
    params: &InitializeRequestParams,
    server: ServerDescription,
) -> (r: (Response, String))
    ensures
        r.1@ == server.protocol_version@,
        r.0.id == Some(request_id),
        r.0.error is None,
        r.0@.result == Some(
            crate::types::initialize_result_json(
                InitializeResult {
                    protocol_version: r.1,
                    capabilities: server.capabilities,
                    server_info: Some(
                        ServerInfo { name: server.name, title: None, version: server.version },
                    ),
                    instructions: server.instructions,
                },
            ),
        ),
{
    let version = negotiated_protocol_version(&params.protocol_version, &server.protocol_version);
    let result = InitializeResult {
        protocol_version: version.clone(),
        capabilities: server.capabilities,
        server_info: Some(ServerInfo { name: server.name, title: None, version: server.version }),
        instructions: server.instructions,
    };
    (Response::new_initialize_success(request_id, result), version)
}

/// The code and message with which a failing request handler is answered.
pub open spec fn handler_error_code(err: McpError) -> i32 {
    match err {
        McpError::ProtocolError(_) => -32600i32,
        McpError::ParseJson(_) => -32602i32,
        McpError::ToolNotFound(_) => -32601i32,
        _ => -32000i32,
    }
}

pub open spec fn handler_error_message_ok(err: McpError, message: Seq<char>) -> bool {
    match err {
        McpError::ProtocolError(m) => message == m@,
        McpError::ParseJson(m) => message == m@,
        McpError::ToolNotFound(m) => message == m@,
        _ => "Internal server error: "@.is_prefix_of(message) && err.displays_as(
            message.subrange(23, message.len() as int),
        ),
    }
}

/// The error response for a request whose handler failed: protocol errors
/// are -32600, parameter errors -32602, unknown tools -32601, and anything
/// else is an internal error (-32000) that carries the error's description.
pub fn handler_error_response(id: RequestId, err: McpError) -> (r: Response)
    ensures
        r.protocol.jsonrpc@ == "2.0"@,
        r.id == Some(id),
        r.result is None,
        r.error matches Some(e) && e.code == handler_error_code(err) && handler_error_message_ok(
            err,
            e.message@,
        ) && e.data is None,
{
    proof {
        reveal_strlit("Internal server error: ");
    }
    match err {
        McpError::ProtocolError(msg) => Response::new_error(Some(id), -32600, msg.as_str(), None),
        McpError::ParseJson(msg) => Response::new_error(Some(id), -32602, msg.as_str(), None),
        McpError::ToolNotFound(msg) => Response::new_error(Some(id), -32601, msg.as_str(), None),
        other => {
            let mut text = "Internal server error: ".to_string();
            let described = other.display_text();
            text.append(described.as_str());
            assert(text@.subrange(23, text@.len() as int) =~= described@);
            Response::new_error(Some(id), -32000, text.as_str(), None)
        },
    }
}

/// The answer to a request once its handler has run.
pub fn request_outcome_response(id: RequestId, outcome: Result<Response, McpError>) -> (r: Response)
    ensures
        match outcome {
            Ok(res) => r == res,
            Err(err) => r.protocol.jsonrpc@ == "2.0"@ && r.id == Some(id) && r.result is None && (
            r.error matches Some(e) && e.code == handler_error_code(err) && handler_error_message_ok(
                err,
                e.message@,
            ) && e.data is None),
        },
{
    match outcome {
        Ok(res) => res,
        Err(err) => handler_error_response(id, err),
    }
}

/// What a session does with a message it receives.
pub enum SessionAction {
    /// Run the handler registered for the request's method and answer with
    /// what it gives (see `request_outcome_response`).
    RunRequestHandler,
    /// Answer the request with this response.
    Answer(Response),
    /// Run the handler registered for the notification's method.
    RunNotificationHandler,
    /// Send this response to the client (with no identifier to answer).
    Reply(Response),
    /// Hand the response to the server-initiated request with this identifier.
    DeliverResponse(RequestId),
    /// Nothing to do.
    Ignore,
}

pub open spec fn method_not_found_text(method: Seq<char>) -> Seq<char> {
    "Method '"@ + method + "' not found"@
}

pub open spec fn request_as_notification_text(method: Seq<char>) -> Seq<char> {
    "Method '"@ + method
        + "' expects an ID and a response, but was received as a Notification (missing 'id' field)."@
}

/// Decides what a session does with a message, given whether a request
/// handler and a notification handler are registered for its method:
/// a request goes to its handler or is answered "method not found" (-32601);
/// a notification goes to its handler, or, when its method is one for
/// requests, is answered with an error (-32600) that has no identifier, or is
/// dropped; a response goes to the server-initiated request it answers, when
/// it has an identifier.
pub fn session_action(
    message: &McpMessage,
    has_request_handler: bool,
    has_notification_handler: bool,
) -> (r: SessionAction)
    ensures
        match *message {
            McpMessage::Request(req) => if has_request_handler {
                r is RunRequestHandler
            } else {
                r matches SessionAction::Answer(res) && res.protocol.jsonrpc@ == "2.0"@ && res.id == Some(
                    req.id,
                ) && res.result is None
                    && (res.error matches Some(e) && e.code == -32601 && e.message@
                    == method_not_found_text(req.method@) && e.data is None)
            },
            McpMessage::Notification(n) => if has_notification_handler {
                r is RunNotificationHandler
            } else if has_request_handler {
                r matches SessionAction::Reply(res) && res.protocol.jsonrpc@ == "2.0"@ && res.id is None
                    && res.result is None && (
                res.error matches Some(e) && e.code == -32600 && e.message@
                    == request_as_notification_text(n.method@) && e.data is None)
            } else {
                r is Ignore
            },
            McpMessage::Response(res) => match res.id {
                Some(id) => r == SessionAction::DeliverResponse(id),
                None => r is Ignore,
            },
        },
{
    match message {
        McpMessage::Request(request) => {
            if has_request_handler {
                SessionAction::RunRequestHandler
            } else {
                let mut text = "Method '".to_string();
                text.append(request.method.as_str());
                text.append("' not found");
                SessionAction::Answer(
                    Response::new_error(Some(request.id.clone()), -32601, text.as_str(), None),
                )
            }
        },
        McpMessage::Notification(notification) => {
            if has_notification_handler {
                SessionAction::RunNotificationHandler
            } else if has_request_handler {
                let mut text = "Method '".to_string();
                text.append(notification.method.as_str());
                text.append(
                    "' expects an ID and a response, but was received as a Notification (missing 'id' field).",
                );
                SessionAction::Reply(Response::new_error(None, -32600, text.as_str(), None))
            } else {
                SessionAction::Ignore
            }
        },
        McpMessage::Response(response) => match &response.id {
            Some(id) => SessionAction::DeliverResponse(id.clone()),
            None => SessionAction::Ignore,
        },
    }
}

/// Where the answer to a request goes.
pub enum AnswerRoute {
    /// To the HTTP request that waits for it.
    HttpWaiter,
    /// Out on the session's outgoing channel.
    Outgoing,
}

/// The answer to a request goes to the HTTP request that waits for it, when
/// one does; otherwise it is sent on the session's outgoing channel.
pub fn answer_route(waiter_found: bool) -> (r: AnswerRoute)
    ensures
        waiter_found ==> r is HttpWaiter,
        !waiter_found ==> r is Outgoing,
{
    if waiter_found {
        AnswerRoute::HttpWaiter
    } else {
        AnswerRoute::Outgoing
    }
}

/// The kinds of handler that a server holds one of per name.
pub enum Registration {
    RequestHandler,
    NotificationHandler,
    ToolExecutionHandler,
}

pub open spec fn already_registered_text(kind: Registration, name: Seq<char>) -> Seq<char> {
    match kind {
        Registration::RequestHandler => "Request handler for method '"@ + name
            + "' already registered."@,
        Registration::NotificationHandler => "Notification handler for method '"@ + name
            + "' already registered."@,
        Registration::ToolExecutionHandler => "Tool execution handler for '"@ + name
            + "' already registered."@,
    }
}

/// A handler may be registered under a name only once: a second one is
/// refused, with a message that names the kind of handler and the name.
pub fn registration_check(kind: Registration, name: &str, already_registered: bool) -> (r: Result<
    (),
    String,
>)
    ensures
        !already_registered ==> r is Ok,
        already_registered ==> (r matches Err(m) && m@ == already_registered_text(kind, name@)),
{
    if !already_registered {
        return Ok(());
    }
    let mut text = match kind {
        Registration::RequestHandler => "Request handler for method '".to_string(),
        Registration::NotificationHandler => "Notification handler for method '".to_string(),
        Registration::ToolExecutionHandler => "Tool execution handler for '".to_string(),
    };
    text.append(name);
    text.append("' already registered.");
    Err(text)
}

/// The answer to `tools/list`: one page of the server's tools, from the
/// request's cursor on, and the cursor of the next page (see `page_items`).
/// Its contract is `page_matches`, so following the cursors it hands out
/// walks the whole tool list (`law_page_walk`).
/// There is none when the cursor points past the end of the list, or so near
/// `usize::MAX` that the end of the page would overflow.
pub fn tools_list_result(params: &ToolsListRequestParams, tools: Vec<Tool>) -> (r: Option<
    ToolsListResult,
>)
    ensures
        page_matches(
            tools@,
            match params.cursor {
                Some(c) => Some(c@),
                None => None,
            },
            match r {
                Some(res) => Some((res.tools@, res.next_cursor)),
                None => None,
            },
        ),
{
    let cursor = match &params.cursor {
        Some(c) => Some(c.as_str()),
        None => None,
    };
    match page_items(tools, cursor) {
        Some((page, next_cursor)) => Some(ToolsListResult { tools: page, next_cursor }),
        None => None,
    }
}

/// The arguments a tool runs with: the request's, or `null` when it has none.
pub fn tool_arguments(parameters: Option<serde_json::Value>) -> (r: serde_json::Value)
    ensures
        json_model(r) == match opt_json(parameters) {
            Some(m) => m,
            None => JsonModel::Null,
        },
{
    match parameters {
        Some(v) => v,
        None => json_null(),
    }
}

/// The result of a tool call: on success one text block with serde_json's
/// compact text of the tool's output; on failure one text block and an error message that
/// describe the error.
pub fn tool_call_result(outcome: Result<serde_json::Value, McpError>) -> (r: ToolsCallResult)
    ensures
        r.content@.len() == 1,
        r.structured_content is None,
        r.metadata is None,
        match outcome {
            Ok(v) => {
                &&& !r.is_error
                &&& r.error_message is None
                &&& r.content@[0] matches ToolOutputContentBlock::Text { text } && text@
                    == json_compact_text(json_doc(v)) && (json_text_stable(json_model(v))
                    ==> parsed_json(text@) == Some(json_model(v)))
            },
            Err(e) => {
                &&& r.is_error
                &&& r.content@[0] matches ToolOutputContentBlock::Text { text }
                    && "Tool execution failed: "@.is_prefix_of(text@) && e.displays_as(
                    text@.subrange(23, text@.len() as int),
                )
                &&& r.error_message matches Some(m) && "Tool execution error: "@.is_prefix_of(m@)
                    && e.displays_as(m@.subrange(22, m@.len() as int))
            },
        },
{
    proof {
        reveal_strlit("Tool execution failed: ");
        reveal_strlit("Tool execution error: ");
    }
    match outcome {
        Ok(output_value) => {
            let text = match json_to_string(&output_value) {
                Ok(s) => s,
                Err(_) => String::new(),
            };
            let mut content: Vec<ToolOutputContentBlock> = Vec::new();
            content.push(ToolOutputContentBlock::Text { text });
            ToolsCallResult {
                content,
                is_error: false,
                error_message: None,
                structured_content: None,
                metadata: None,
            }
        },
        Err(e) => {
            let described = e.display_text();
            let mut text = "Tool execution failed: ".to_string();
            text.append(described.as_str());
            assert(text@.subrange(23, text@.len() as int) =~= described@);
            let mut message = "Tool execution error: ".to_string();
            message.append(described.as_str());
            assert(message@.subrange(22, message@.len() as int) =~= described@);
            let mut content: Vec<ToolOutputContentBlock> = Vec::new();
            content.push(ToolOutputContentBlock::Text { text });
            ToolsCallResult {
                content,
                is_error: true,
                error_message: Some(message),
                structured_content: None,
                metadata: None,
            }
        },
    }
}

/// The error for a `tools/call` that names no registered tool.
pub fn tool_not_found(tool_name: &String) -> (r: McpError)
    ensures
        r matches McpError::ToolNotFound(m) && m@ == "Tool '"@ + tool_name@
            + "' not found or execution handler not registered."@,
{
    let mut text = "Tool '".to_string();
    text.append(tool_name.as_str());
    text.append("' not found or execution handler not registered.");
    McpError::ToolNotFound(text)
}

/// The result of `prompts/get` when the prompt's handler gave messages.
pub fn prompt_result(prompt_name: &String, messages: Vec<PromptMessage>) -> (r: PromptsGetResult)
    ensures
        r.description matches Some(d) && d@ == "Result of prompt: "@ + prompt_name@,
        r.messages == messages,
{
    let mut description = "Result of prompt: ".to_string();
    description.append(prompt_name.as_str());
    PromptsGetResult { description: Some(description), messages }
}

/// The error for a prompt whose handler failed.
pub fn prompt_failed(reason: &String) -> (r: McpError)
    ensures
        r matches McpError::ProtocolError(m) && m@ == "Prompt execution failed: "@ + reason@,
{
    let mut text = "Prompt execution failed: ".to_string();
    text.append(reason.as_str());
    McpError::ProtocolError(text)
}

/// The error for a `prompts/get` that names no registered prompt.
pub fn prompt_not_found(prompt_name: &String) -> (r: McpError)
    ensures
        r matches McpError::ProtocolError(m) && m@ == "Prompt '"@ + prompt_name@ + "' not found."@,
{
    let mut text = "Prompt '".to_string();
    text.append(prompt_name.as_str());
    text.append("' not found.");
    McpError::ProtocolError(text)
}

/// The error for a resource whose handler failed: code -32003, with the URI
/// and the handler's reason as data.
pub fn resource_handler_failed(uri: &String, reason: &String) -> (r: McpError)
    ensures
        r matches McpError::ServerError { code, message, data } && code == -32003 && message@
            == "Resource handler failed"@ && opt_json(data) == Some(
            JsonModel::Object(
                Map::empty().insert("uri"@, JsonModel::Str(uri@)).insert(
                    "error"@,
                    JsonModel::Str(reason@),
                ),
            ),
        ),
{
    let mut entries: Vec<(String, serde_json::Value)> = Vec::new();
    push_field(&mut entries, "uri", json_string(uri.clone()));
    push_field(&mut entries, "error", json_string(reason.clone()));
    McpError::ServerError {
        code: -32003,
        message: "Resource handler failed".to_string(),
        data: Some(json_object(entries)),
    }
}

/// The error for a URI that no resource handler serves: code -32002, with the
/// URI as data.
pub fn resource_not_found(uri: &String) -> (r: McpError)
    ensures
        r matches McpError::ServerError { code, message, data } && code == -32002 && message@
            == "Resource not found"@ && opt_json(data) == Some(
            JsonModel::Object(Map::empty().insert("uri"@, JsonModel::Str(uri@))),
        ),
{
    let mut entries: Vec<(String, serde_json::Value)> = Vec::new();
    push_field(&mut entries, "uri", json_string(uri.clone()));
    McpError::ServerError {
        code: -32002,
        message: "Resource not found".to_string(),
        data: Some(json_object(entries)),
    }
}

/// The result of a successful `resources/subscribe`: `{"status": "subscribed"}`.
pub fn subscribed_result() -> (r: serde_json::Value)
    ensures
        json_model(r) == JsonModel::Object(
            Map::empty().insert("status"@, JsonModel::Str("subscribed"@)),
        ),
{
    let mut entries: Vec<(String, serde_json::Value)> = Vec::new();
    push_field(&mut entries, "status", json_string("subscribed".to_string()));
    json_object(entries)
}

/// A resource's subscribers once a session has subscribed: the session is
/// added at the end, unless it is already there.
pub open spec fn with_subscriber(subscribers: Seq<u128>, session: u128) -> Seq<u128> {
    if subscribers.contains(session) {
        subscribers
    } else {
        subscribers.push(session)
    }
}

/// A resource's subscribers once a session is gone: every entry of the
/// session removed, the others kept in order.
pub open spec fn without_subscriber(subscribers: Seq<u128>, session: u128) -> Seq<u128> {
    subscribers.filter(|x: u128| x != session)
}

/// The subscribers of a resource after a session subscribes.
pub fn add_subscriber(subscribers: Vec<u128>, session: u128) -> (r: Vec<u128>)
    ensures
        r@ == with_subscriber(subscribers@, session),
{
    let mut i: usize = 0;
    while i < subscribers.len()
        invariant
            i <= subscribers@.len(),
            forall|j: int| 0 <= j < i ==> subscribers@[j] != session,
        decreases subscribers@.len() - i,
    {
        if subscribers[i] == session {
            return subscribers;
        }
        i = i + 1;
    }
    let mut out = subscribers;
    out.push(session);
    out
}

/// The subscribers of a resource once a session is gone.
pub fn remove_subscriber(subscribers: &Vec<u128>, session: u128) -> (r: Vec<u128>)
    ensures
        r@ == without_subscriber(subscribers@, session),
{
    let mut out: Vec<u128> = Vec::new();
    let mut i: usize = 0;
    while i < subscribers.len()
        invariant
            i <= subscribers@.len(),
            out@ == without_subscriber(subscribers@.subrange(0, i as int), session),
        decreases subscribers@.len() - i,
    {
        proof {
            let s = subscribers@.subrange(0, i as int + 1);
            assert(s.drop_last() =~= subscribers@.subrange(0, i as int));
            reveal(Seq::filter);
        }
        if subscribers[i] != session {
            out.push(subscribers[i]);
        }
        i = i + 1;
    }
    assert(subscribers@.subrange(0, subscribers@.len() as int) =~= subscribers@);
    out
}

/// The notification sent to subscribers when a resource changes.
pub fn resource_updated_notification(params: serde_json::Value) -> (r: Notification)
    ensures
        r.method@ == "notifications/resources/updated"@,
        r.params == Some(params),
        r.base.jsonrpc@ == "2.0"@,
{
    Notification::new("notifications/resources/updated", Some(params))
}

// ---- Laws

/// Subscribing twice is subscribing once, and a session that has subscribed
/// is among the subscribers.
pub proof fn law_subscribe_idempotent(subscribers: Seq<u128>, session: u128)
    ensures
        with_subscriber(subscribers, session).contains(session),
        with_subscriber(with_subscriber(subscribers, session), session) == with_subscriber(
            subscribers,
            session,
        ),
{
    if !subscribers.contains(session) {
        assert(subscribers.push(session)[subscribers.len() as int] == session);
    }
}

/// Subscribing never drops a subscriber: everyone subscribed before still is.
pub proof fn law_subscribe_keeps_others(subscribers: Seq<u128>, session: u128, other: u128)
    requires
        subscribers.contains(other),
    ensures
        with_subscriber(subscribers, session).contains(other),
{
    if !subscribers.contains(session) {
        let k = choose|k: int| 0 <= k < subscribers.len() && subscribers[k] == other;
        assert(subscribers.push(session)[k] == other);
    }
}

/// Once a session is removed, it is subscribed to nothing, and everyone else
/// keeps their subscription.
pub proof fn law_removed_session_is_gone(subscribers: Seq<u128>, session: u128, other: u128)
    requires
        other != session,
    ensures
        !without_subscriber(subscribers, session).contains(session),
        subscribers.contains(other) ==> without_subscriber(subscribers, session).contains(other),
{
    let pred = |x: u128| x != session;
    let f = subscribers.filter(pred);
    if f.contains(session) {
        let i = choose|i: int| 0 <= i < f.len() && f[i] == session;
        subscribers.lemma_filter_pred(pred, i);
    }
    if subscribers.contains(other) {
        let k = choose|k: int| 0 <= k < subscribers.len() && subscribers[k] == other;
        subscribers.lemma_filter_contains(pred, k);
    }
}

/// Subscription lists never hold a session twice: subscribing and removing
/// keep a list free of repeats, so a session that subscribes (once or many
/// times) is in the list exactly once.
pub proof fn law_subscribed_exactly_once(subscribers: Seq<u128>, session: u128, gone: u128)
    requires
        subscribers.no_duplicates(),
    ensures
        with_subscriber(subscribers, session).no_duplicates(),
        with_subscriber(subscribers, session).to_multiset().count(session) == 1,
        without_subscriber(subscribers, gone).no_duplicates(),
{
    let added = with_subscriber(subscribers, session);
    if !subscribers.contains(session) {
        assert forall|i: int, j: int| 0 <= i < added.len() && 0 <= j < added.len() && i != j
            implies added[i] != added[j] by {
            if i < subscribers.len() && j < subscribers.len() {
            } else if i == subscribers.len() {
                assert(subscribers[j] == added[j]);
            } else {
                assert(subscribers[i] == added[i]);
            }
        }
    }
    added.lemma_multiset_has_no_duplicates();
    assert(added.contains(session)) by {
        law_subscribe_idempotent(subscribers, session);
    }
    broadcast use vstd::seq_lib::group_to_multiset_ensures;
    assert(added.to_multiset().contains(session));
    lemma_removal_keeps_distinct(subscribers, gone);
}

proof fn lemma_removal_keeps_distinct(s: Seq<u128>, gone: u128)
    requires
        s.no_duplicates(),
    ensures
        without_subscriber(s, gone).no_duplicates(),
    decreases s.len(),
{
    reveal(Seq::filter);
    if s.len() > 0 {
        let rest = s.drop_last();
        assert forall|i: int, j: int| 0 <= i < rest.len() && 0 <= j < rest.len() && i != j
            implies rest[i] != rest[j] by {
            assert(s[i] == rest[i] && s[j] == rest[j]);
        }
        lemma_removal_keeps_distinct(rest, gone);
        let f = without_subscriber(rest, gone);
        if s.last() != gone {
            if f.contains(s.last()) {
                lemma_removal_within(rest, gone, s.last());
                let k = choose|k: int| 0 <= k < rest.len() && rest[k] == s.last();
                assert(s[k] == s[s.len() - 1]);
            }
            let g = f.push(s.last());
            assert forall|i: int, j: int| 0 <= i < g.len() && 0 <= j < g.len() && i != j
                implies g[i] != g[j] by {
                if i < f.len() && j < f.len() {
                } else if i == f.len() {
                    assert(f[j] == g[j]);
                    assert(f.contains(f[j]));
                } else {
                    assert(f[i] == g[i]);
                    assert(f.contains(f[i]));
                }
            }
        }
    }
}

proof fn lemma_removal_within(s: Seq<u128>, gone: u128, e: u128)
    requires
        without_subscriber(s, gone).contains(e),
    ensures
        s.contains(e),
    decreases s.len(),
{
    reveal(Seq::filter);
    if s.len() > 0 {
        let rest = s.drop_last();
        let f = without_subscriber(rest, gone);
        if s.last() == e {
            assert(s[s.len() - 1] == e);
        } else {
            let w = without_subscriber(s, gone);
            let i = choose|i: int| 0 <= i < w.len() && w[i] == e;
            if s.last() != gone {
                assert(w == f.push(s.last()));
                assert(i < f.len());
                assert(f[i] == e);
            } else {
                assert(w == f);
            }
            lemma_removal_within(rest, gone, e);
            let k = choose|k: int| 0 <= k < rest.len() && rest[k] == e;
            assert(s[k] == e);
        }
    }
}

/// How a failing request handler is answered: a protocol error is an
/// invalid request (-32600), a parameter error is invalid params (-32602),
/// an unknown tool is method-not-found (-32601), each with the error's own
/// text; every other error, a server error included, is an internal error
/// (-32000) whose text starts "Internal server error: " and goes on with the
/// error's description.
pub proof fn law_handler_error_codes(err: McpError, message: Seq<char>)
    ensures
        err is ProtocolError ==> handler_error_code(err) == -32600,
        err is ParseJson ==> handler_error_code(err) == -32602,
        err is ToolNotFound ==> handler_error_code(err) == -32601,
        !(err is ProtocolError || err is ParseJson || err is ToolNotFound) ==> handler_error_code(err)
            == -32000,
        err matches McpError::ProtocolError(m) ==> (handler_error_message_ok(err, message) <==> message
            == m@),
        err matches McpError::ParseJson(m) ==> (handler_error_message_ok(err, message) <==> message
            == m@),
        err matches McpError::ToolNotFound(m) ==> (handler_error_message_ok(err, message) <==> message
            == m@),
        !(err is ProtocolError || err is ParseJson || err is ToolNotFound) ==> (
        handler_error_message_ok(err, message) <==> ("Internal server error: "@.is_prefix_of(message)
            && err.displays_as(message.subrange(23, message.len() as int)))),
{
}

/// The texts a session answers with name the method (or handler) between
/// single quotes, after a fixed opening and before a fixed ending.
pub proof fn law_session_texts(method: Seq<char>, kind: Registration)
    ensures
        method_not_found_text(method) == "Method '"@ + method + "' not found"@,
        request_as_notification_text(method) == "Method '"@ + method
            + "' expects an ID and a response, but was received as a Notification (missing 'id' field)."@,
        already_registered_text(kind, method) == match kind {
            Registration::RequestHandler => "Request handler for method '"@ + method
                + "' already registered."@,
            Registration::NotificationHandler => "Notification handler for method '"@ + method
                + "' already registered."@,
            Registration::ToolExecutionHandler => "Tool execution handler for '"@ + method
                + "' already registered."@,
        },
{
}

/// Subscribing adds the session at the end when it is new and changes
/// nothing otherwise; removing keeps every other entry in order.
pub proof fn law_subscriber_lists(subscribers: Seq<u128>, session: u128)
    ensures
        !subscribers.contains(session) ==> with_subscriber(subscribers, session) == subscribers.push(
            session,
        ),
        subscribers.contains(session) ==> with_subscriber(subscribers, session) == subscribers,
        !subscribers.contains(session) ==> without_subscriber(subscribers, session) == subscribers,
{
    if !subscribers.contains(session) {
        lemma_removal_of_absent(subscribers, session);
    }
}

proof fn lemma_removal_of_absent(s: Seq<u128>, gone: u128)
    requires
        !s.contains(gone),
    ensures
        without_subscriber(s, gone) == s,
    decreases s.len(),
{
    reveal(Seq::filter);
    if s.len() > 0 {
        let rest = s.drop_last();
        if rest.contains(gone) {
            let k = choose|k: int| 0 <= k < rest.len() && rest[k] == gone;
            assert(s[k] == gone);
        }
        lemma_removal_of_absent(rest, gone);
        assert(s.last() != gone) by {
            assert(s[s.len() - 1] == s.last());
        }
        assert(rest.push(s.last()) =~= s);
    }
}

} // verus!
