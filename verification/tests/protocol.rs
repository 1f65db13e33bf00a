use rust_mcp_sdk::protocol::RequestId;
use rust_mcp_sdk::{McpError, McpMessage, Notification, Request, Response, ResponseError};
use serde_json::Value;

fn parse(text: &str) -> Value {
    serde_json::from_str::<Value>(text).unwrap()
}

#[test]
fn message_roundtrip_through_text() {
    let messages = vec![
        McpMessage::Request(Request::new(3u64.into(), "tools/call", Some(parse(r#"{"name":"calc","arguments":{"a":1}}"#)))),
        McpMessage::Request(Request::new("abc".into(), "ping", None)),
        McpMessage::Response(Response::new_success(3u64.into(), Some(parse(r#"[1,"two",{"three":3}]"#)))),
        McpMessage::Response(Response::new_error(None, -32600, "bad", Some(parse(r#"{"x":1}"#)))),
        McpMessage::Notification(Notification::new("notifications/initialized", None)),
        McpMessage::Notification(Notification::new("log", Some(parse(r#""hello""#)))),
    ];
    for m in messages {
        let text = m.to_json().unwrap();
        let back = McpMessage::from_json(&text).unwrap();
        assert_eq!(back, m);
    }
}

#[test]
fn request_and_notification_from_json() {
    let r = Request::from_json(r#"{"jsonrpc":"2.0","id":"x","method":"m","params":null,"extra":1}"#).unwrap();
    assert_eq!(r.id, RequestId::String("x".to_string()));
    assert_eq!(r.method, "m");
    assert_eq!(r.params, None);
    assert!(matches!(Request::from_json(r#"{"jsonrpc":"2.0","method":"m"}"#), Err(McpError::Serialization(_))));
    assert!(matches!(Request::from_json(r#"{"jsonrpc":"2.0","id":-1,"method":"m"}"#), Err(McpError::Serialization(_))));
    assert!(matches!(Request::from_json(r#"{"jsonrpc":"2.0","id":1.5,"method":"m"}"#), Err(McpError::Serialization(_))));
    assert!(matches!(Request::from_json("not json"), Err(McpError::Serialization(_))));
    let n = Notification::from_json(r#"{"jsonrpc":"2.0","method":"note","params":[1]}"#).unwrap();
    assert_eq!(n.params, Some(parse("[1]")));
    assert!(matches!(Notification::from_json(r#"{"method":"note"}"#), Err(McpError::Serialization(_))));
}

#[test]
fn response_error_reads_object_or_array() {
    let r = Response::from_json(r#"{"jsonrpc":"2.0","id":null,"error":{"code":-32000,"message":"m","data":null}}"#).unwrap();
    assert_eq!(r.id, None);
    assert_eq!(r.error, Some(ResponseError { code: -32000, message: "m".to_string(), data: None }));
    let r = Response::from_json(r#"{"jsonrpc":"2.0","id":4,"error":[7,"seven",{"k":true}]}"#).unwrap();
    assert_eq!(r.error, Some(ResponseError { code: 7, message: "seven".to_string(), data: Some(parse(r#"{"k":true}"#)) }));
    assert!(Response::from_json(r#"{"jsonrpc":"2.0","id":4,"error":[7]}"#).is_err());
    assert!(Response::from_json(r#"{"jsonrpc":"2.0","id":4,"error":{"code":3000000000,"message":"m"}}"#).is_err());
    let r = Response::from_json(r#"{"jsonrpc":"2.0"}"#).unwrap();
    assert_eq!((r.id, r.result, r.error), (None, None, None));
}

#[test]
fn message_from_json_errors() {
    match McpMessage::from_json("{oops") {
        Err(McpError::Serialization(_)) => {}
        other => panic!("unexpected {:?}", other),
    }
    match McpMessage::from_json(r#"{"jsonrpc":"2.0","id":1,"result":1,"error":{"code":1,"message":"m"}}"#) {
        Err(McpError::InvalidMessage(m)) => assert_eq!(m, "Response: 'result' and 'error' cannot both be set"),
        other => panic!("unexpected {:?}", other),
    }
    match McpMessage::from_json(r#"{"jsonrpc":"2.0","id":1,"result":null}"#) {
        Err(McpError::InvalidMessage(m)) => assert_eq!(m, "Response: Either 'result' or 'error' must be set"),
        other => panic!("unexpected {:?}", other),
    }
    match McpMessage::from_json("  {\"jsonrpc\":\"2.0\",\"id\":1}\n") {
        Err(McpError::InvalidMessage(m)) => assert_eq!(
            m,
            "Message has 'id' but is neither a Request nor a Response (missing 'method' or 'result'/'error'): {\"jsonrpc\":\"2.0\",\"id\":1}"
        ),
        other => panic!("unexpected {:?}", other),
    }
    match McpMessage::from_json(" [1,2] ") {
        Err(McpError::InvalidMessage(m)) => assert_eq!(
            m,
            "Message is neither a Request, Response, nor Notification (missing 'id' and 'method'): [1,2]"
        ),
        other => panic!("unexpected {:?}", other),
    }
    match McpMessage::from_json(r#"{"id":1,"method":"m"}"#) {
        Err(McpError::ParseJson(m)) => assert!(m.starts_with("Failed to deserialize as Request: ")),
        other => panic!("unexpected {:?}", other),
    }
    match McpMessage::from_json(r#"{"jsonrpc":"2.0","id":true,"result":1}"#) {
        Err(McpError::ParseJson(m)) => assert!(m.starts_with("Failed to deserialize as Response: ")),
        other => panic!("unexpected {:?}", other),
    }
    match McpMessage::from_json(r#"{"jsonrpc":2,"method":"m"}"#) {
        Err(McpError::ParseJson(m)) => assert!(m.starts_with("Failed to deserialize as Notification: ")),
        other => panic!("unexpected {:?}", other),
    }
}

#[test]
fn message_kinds_are_decided_by_keys() {
    let m = McpMessage::from_json(r#"{"jsonrpc":"2.0","id":9,"method":"tools/list","params":{"cursor":null}}"#).unwrap();
    assert!(matches!(m, McpMessage::Request(ref r) if r.id == RequestId::Number(9)));
    let m = McpMessage::from_json(r#"{"jsonrpc":"2.0","id":"q","error":{"code":-1,"message":"no"}}"#).unwrap();
    assert!(matches!(m, McpMessage::Response(ref r) if r.result.is_none() && r.error.is_some()));
    let m = McpMessage::from_json(r#"{"jsonrpc":"2.0","method":"notifications/initialized"}"#).unwrap();
    assert!(matches!(m, McpMessage::Notification(_)));
}

#[test]
fn constructors_fill_the_envelope() {
    let r = Request::new(RequestId::Number(5), "initialize", None);
    assert_eq!(r.protocol.jsonrpc, "2.0");
    let e = Response::new_error(Some(RequestId::Number(1)), -32601, "nope", None);
    assert_eq!(e.error.unwrap().code, -32601);
    assert_eq!(e.result, None);
    let n = Notification::new_initialized();
    assert_eq!(n.method, "notifications/initialized");
    assert_eq!(n.params, None);
}

#[test]
fn request_ids_count_up() {
    let mut counter = 0u64;
    assert_eq!(RequestId::next_from(&mut counter), RequestId::Number(0));
    assert_eq!(RequestId::next_from(&mut counter), RequestId::Number(1));
    assert_eq!(counter, 2);
    assert!(RequestId::from("a").same_as(&RequestId::String("a".to_string())));
    assert!(!RequestId::Number(1).same_as(&RequestId::String("1".to_string())));
    assert_eq!(RequestId::from("a".to_string()), RequestId::String("a".to_string()));
    assert_eq!(RequestId::Number(3).clone(), RequestId::Number(3));
}

#[test]
fn error_descriptions() {
    assert_eq!(McpError::ProtocolError("x".to_string()).display_text(), "Protocol error: x");
    assert_eq!(McpError::RequestTimeout.display_text(), "Request timed out");
    assert_eq!(
        McpError::UnsupportedProtocolVersion { requested: "1.0".to_string(), supported: vec!["2.0".to_string()] }.display_text(),
        "Unsupported protocol version: requested 1.0, supported versions: [\"2.0\"]"
    );
    let e = serde_json::from_str::<Value>("{").unwrap_err();
    assert!(McpError::Serialization(e).display_text().starts_with("Json serialization error: "));
    assert_eq!(
        McpError::ServerError { code: -32002, message: "Resource not found".to_string(), data: None }.display_text(),
        "Server error -32002: Resource not found"
    );
}

#[test]
fn message_text_keeps_the_field_order() {
    let params: Value = serde_json::from_str(r#"{"b": 1, "a": 2.5}"#).unwrap();
    let r = Request::new(RequestId::Number(1), "m", Some(params));
    assert_eq!(r.to_json().unwrap(), r#"{"jsonrpc":"2.0","method":"m","id":1,"params":{"b":1,"a":2.5}}"#);
    let e = Response::new_error(None, -32600, "bad", None);
    assert_eq!(e.to_json().unwrap(), r#"{"jsonrpc":"2.0","id":null,"error":{"code":-32600,"message":"bad"}}"#);
    let ok = Response::new_success(RequestId::String("x".to_string()), Some(Value::Bool(true)));
    assert_eq!(McpMessage::Response(ok).to_json().unwrap(), r#"{"jsonrpc":"2.0","id":"x","result":true}"#);
}
