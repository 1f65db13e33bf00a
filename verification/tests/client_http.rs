use rust_mcp_sdk::client::{client_action, initialize_outcome, requests_allowed, ClientAction};
use rust_mcp_sdk::http::{
    client_response_notification, is_initialize_request, post_reply, post_route, session_id_from_header,
    sse_admission, sse_session_id, PostReply, PostRoute, SseRefusal,
};
use rust_mcp_sdk::{McpError, McpMessage, Notification, Request, RequestId, Response};
use serde_json::Value;

fn parse(text: &str) -> Value {
    serde_json::from_str::<Value>(text).unwrap()
}

#[test]
fn initialize_outcomes() {
    let ok = Response::new_success(1u64.into(), Some(parse(r#"{"protocolVersion":"2025-06-18"}"#)));
    assert_eq!(initialize_outcome(ok).unwrap(), parse(r#"{"protocolVersion":"2025-06-18"}"#));
    let unsupported = Response::new_unsupported_protocol_error(Some(1u64.into()), "1.0".to_string(), vec!["2025-06-18".to_string()]);
    match initialize_outcome(unsupported) {
        Err(McpError::UnsupportedProtocolVersion { requested, supported }) => {
            assert_eq!(requested, "1.0");
            assert_eq!(supported, vec!["2025-06-18".to_string()]);
        }
        other => panic!("unexpected {:?}", other),
    }
    let odd = Response::new_error(Some(1u64.into()), -32602, "Unsupported protocol version", Some(parse(r#"{"supported":[1]}"#)));
    match initialize_outcome(odd) {
        Err(McpError::UnsupportedProtocolVersion { requested, supported }) => {
            assert_eq!(requested, "");
            assert!(supported.is_empty());
        }
        other => panic!("unexpected {:?}", other),
    }
    let other = Response::new_error(Some(1u64.into()), -32000, "down", None);
    match initialize_outcome(other) {
        Err(McpError::ProtocolError(m)) => assert_eq!(m, "Initialize request failed with server error: Code=-32000, Message=down"),
        other => panic!("unexpected {:?}", other),
    }
    let neither = Response::new_success(1u64.into(), None);
    match initialize_outcome(neither) {
        Err(McpError::ProtocolError(m)) => assert_eq!(m, "Initialize response had neither result nor error"),
        other => panic!("unexpected {:?}", other),
    }
}

#[test]
fn requests_wait_for_the_handshake() {
    assert!(requests_allowed(&Some("2025-06-18".to_string())).is_ok());
    match requests_allowed(&None) {
        Err(McpError::ProtocolError(m)) => assert_eq!(m, "Cannot send requests before initialization handshake is complete."),
        other => panic!("unexpected {:?}", other),
    }
}

#[test]
fn client_actions() {
    let resp = McpMessage::Response(Response::new_success(4u64.into(), None));
    assert!(matches!(client_action(&resp), ClientAction::Deliver(RequestId::Number(4))));
    let anon = McpMessage::Response(Response::new_error(None, 1, "x", None));
    assert!(matches!(client_action(&anon), ClientAction::MissingId));
    let req = McpMessage::Request(Request::new(RequestId::Number(9), "sampling/createMessage", None));
    match client_action(&req) {
        ClientAction::Answer(r) => {
            assert_eq!(r.protocol.jsonrpc, "2.0");
            assert_eq!(r.id, Some(RequestId::Number(9)));
            let e = r.error.unwrap();
            assert_eq!((e.code, e.message.as_str()), (-32601, "Method 'sampling/createMessage' not supported by client"));
        }
        _ => panic!("expected an answer"),
    }
    let named = McpMessage::Request(Request::new("n".into(), "x", None));
    assert!(matches!(client_action(&named), ClientAction::Ignore));
    let note = McpMessage::Notification(Notification::new("x", None));
    assert!(matches!(client_action(&note), ClientAction::Ignore));
}

#[test]
fn post_routing() {
    let init = McpMessage::Request(Request::new(1u64.into(), "initialize", None));
    let call = McpMessage::Request(Request::new(2u64.into(), "tools/list", None));
    assert!(is_initialize_request(&init));
    assert!(!is_initialize_request(&call));
    assert!(matches!(post_route(None, false, &init), PostRoute::NewSession));
    assert!(matches!(post_route(None, false, &call), PostRoute::BadRequest));
    assert!(matches!(post_route(Some(5), true, &init), PostRoute::BadRequest));
    assert!(matches!(post_route(Some(5), true, &call), PostRoute::Session(5)));
    assert!(matches!(post_route(Some(5), false, &call), PostRoute::NotFound));
}

#[test]
fn post_replies() {
    let resp = Response::new_success(1u64.into(), None);
    assert!(matches!(post_reply(Ok(Some(McpMessage::Response(resp))), true), PostReply::Json(_)));
    assert!(matches!(post_reply(Ok(None), true), PostReply::Status(504)));
    assert!(matches!(post_reply(Ok(None), false), PostReply::Status(202)));
    assert!(matches!(post_reply(Err(McpError::RequestTimeout), true), PostReply::Failed(McpError::RequestTimeout)));
    let n = client_response_notification(&Response::new_success(3u64.into(), Some(Value::Bool(false))));
    assert_eq!(n.method, "client/response");
    assert_eq!(n.params.unwrap(), parse(r#"{"jsonrpc":"2.0","id":3,"result":false}"#));
}

#[test]
fn session_headers() {
    let id = "67e55044-10b1-426f-9247-bb680e5fe0c8";
    assert_eq!(session_id_from_header(Some(id)), Some(0x67e5504410b1426f9247bb680e5fe0c8));
    assert_eq!(session_id_from_header(Some("nope")), None);
    assert_eq!(session_id_from_header(None), None);
    assert!(matches!(sse_session_id(None), Err(SseRefusal::MissingHeader)));
    assert!(matches!(sse_session_id(Some("zz")), Err(SseRefusal::InvalidSessionId)));
    assert_eq!(sse_session_id(Some(id)).ok(), Some(0x67e5504410b1426f9247bb680e5fe0c8));
    let refusal = sse_admission(false, true).unwrap_err();
    assert_eq!((refusal.status(), refusal.message().as_str()), (404, "Session not found"));
    let refusal = sse_admission(true, false).unwrap_err();
    assert_eq!((refusal.status(), refusal.message().as_str()), (409, "SSE stream already established for this session"));
    assert!(sse_admission(true, true).is_ok());
    assert_eq!(SseRefusal::MissingHeader.status(), 400);
}
