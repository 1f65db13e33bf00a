use rust_mcp_sdk::{
    ClientCapabilities, ClientInfo, ClientRootsCapability, InitializeResult, Notification, Request,
    Response, ServerCapabilities, ServerInfo, ServerPromptsCapability, ServerResourcesCapability,
    ServerToolsCapability,
};
use serde_json::Value;

fn empty_object() -> Value {
    Value::Object(serde_json::Map::new())
}

fn parse(text: &str) -> Value {
    serde_json::from_str::<Value>(text).unwrap()
}

#[test]
fn test_initialize_request_serialization_full() {
    let capabilities = ClientCapabilities {
        roots: Some(ClientRootsCapability { list_changed: Some(true) }),
        sampling: Some(empty_object()),
        elicitation: None,
        experimental: Some(empty_object()),
    };
    let client_info = Some(ClientInfo {
        name: "MyClient".to_string(),
        title: Some("My Client Display".to_string()),
        version: Some("1.0.0".to_string()),
    });
    let request =
        Request::new_initialize(1u64.into(), "2025-06-18".to_string(), capabilities, client_info);
    let json_str = request.to_json().unwrap();
    let expected_json = parse(
        r#"{
            "jsonrpc": "2.0",
            "id": 1,
            "method": "initialize",
            "params": {
                "protocolVersion": "2025-06-18",
                "capabilities": {
                    "roots": { "listChanged": true },
                    "sampling": {},
                    "experimental": {}
                },
                "clientInfo": {
                    "name": "MyClient",
                    "title": "My Client Display",
                    "version": "1.0.0"
                }
            }
        }"#,
    );
    assert_eq!(serde_json::from_str::<Value>(&json_str).unwrap(), expected_json);
}

#[test]
fn test_initialize_response_serialization_full() {
    let capabilities = ServerCapabilities {
        logging: Some(empty_object()),
        prompts: Some(ServerPromptsCapability { list_changed: Some(true) }),
        resources: Some(ServerResourcesCapability { subscribe: Some(true), list_changed: Some(true) }),
        tools: Some(ServerToolsCapability { list_changed: Some(true) }),
        completions: Some(empty_object()),
        experimental: None,
    };
    let server_info = Some(ServerInfo {
        name: "MyServer".to_string(),
        title: Some("My Server Display".to_string()),
        version: Some("2.0.0".to_string()),
    });
    let result = InitializeResult {
        protocol_version: "2025-06-18".to_string(),
        capabilities,
        server_info,
        instructions: Some("Welcome!".to_string()),
    };
    let response = Response::new_initialize_success(1u64.into(), result);
    let json_str = response.to_json().unwrap();
    let expected_json = parse(
        r#"{
            "jsonrpc": "2.0",
            "id": 1,
            "result": {
                "protocolVersion": "2025-06-18",
                "capabilities": {
                    "logging": {},
                    "prompts": { "listChanged": true },
                    "resources": { "subscribe": true, "listChanged": true },
                    "tools": { "listChanged": true },
                    "completions": {}
                },
                "serverInfo": {
                    "name": "MyServer",
                    "title": "My Server Display",
                    "version": "2.0.0"
                },
                "instructions": "Welcome!"
            }
        }"#,
    );
    assert_eq!(serde_json::from_str::<Value>(&json_str).unwrap(), expected_json);
}

#[test]
fn test_initialized_notification_serialization() {
    let notification = Notification::new_initialized();
    let json_str = notification.to_json().unwrap();
    let expected_json = parse(r#"{ "jsonrpc": "2.0", "method": "notifications/initialized" }"#);
    assert_eq!(serde_json::from_str::<Value>(&json_str).unwrap(), expected_json);
}

#[test]
fn test_unsupported_protocol_error_serialization() {
    let error_resp = Response::new_unsupported_protocol_error(
        Some("my_req_id".into()),
        "1.0.0".to_string(),
        vec!["2025-06-18".to_string(), "2024-11-05".to_string()],
    );
    let json_str = error_resp.to_json().unwrap();
    let expected_json = parse(
        r#"{
            "jsonrpc": "2.0",
            "id": "my_req_id",
            "error": {
                "code": -32602,
                "message": "Unsupported protocol version",
                "data": {
                    "supported": ["2025-06-18", "2024-11-05"],
                    "requested": "1.0.0"
                }
            }
        }"#,
    );
    assert_eq!(serde_json::from_str::<Value>(&json_str).unwrap(), expected_json);
}

#[test]
fn request_text_keeps_field_order() {
    let request = Request::new(7u64.into(), "tools/list", None);
    assert_eq!(request.to_json().unwrap(), r#"{"jsonrpc":"2.0","method":"tools/list","id":7}"#);
    let response = Response::new_success(7u64.into(), Some(Value::Bool(true)));
    assert_eq!(response.to_json().unwrap(), r#"{"jsonrpc":"2.0","id":7,"result":true}"#);
}
