use rust_mcp_sdk::prompts::{PromptMessage, PromptMessageContent, PromptMessageRole};
use rust_mcp_sdk::server::{
    answer_route, registration_check, AnswerRoute, Registration,
    add_subscriber, handler_error_response, initialize_response, latest_supported_protocol_version,
    negotiated_protocol_version, prompt_failed, prompt_not_found, prompt_result, remove_subscriber,
    request_outcome_response, resource_handler_failed, resource_not_found,
    resource_updated_notification, session_action, subscribed_result, tool_arguments,
    tool_call_result, tool_not_found, tools_list_result, with_tools_capability,
    ServerDescription, SessionAction,
};
use rust_mcp_sdk::{
    ClientCapabilities, ClientInfo, ClientRootsCapability, InitializeRequestParams, InitializeResult,
    McpError, McpMessage, Notification, Request, RequestId, Response, ServerCapabilities,
    InputSchema, ServerToolsCapability, Tool, ToolOutputContentBlock, ToolsListRequestParams,
};
use serde_json::Value;

fn empty_caps() -> ServerCapabilities {
    ServerCapabilities { logging: None, prompts: None, resources: None, tools: None, completions: None, experimental: None }
}

fn test_server() -> ServerDescription {
    ServerDescription {
        name: "TestServer".to_string(),
        version: Some("1.0.0".to_string()),
        capabilities: ServerCapabilities {
            logging: Some(Value::Object(serde_json::Map::new())),
            ..empty_caps()
        },
        instructions: Some("Test instructions.".to_string()),
        protocol_version: "2025-06-18".to_string(),
    }
}

#[test]
fn test_handle_initialize_success() {
    let request_id = RequestId::Number(123);
    let params = InitializeRequestParams {
        protocol_version: "2025-06-18".to_string(),
        capabilities: ClientCapabilities {
            roots: Some(ClientRootsCapability { list_changed: Some(true) }),
            sampling: Some(Value::Object(serde_json::Map::new())),
            elicitation: None,
            experimental: None,
        },
        client_info: Some(ClientInfo {
            name: "TestClient".to_string(),
            title: Some("ClientTitle".to_string()),
            version: Some("1.0.0".to_string()),
        }),
    };
    let (response, negotiated) = initialize_response(request_id.clone(), &params, test_server());
    assert_eq!(response.id.unwrap(), request_id);
    assert!(response.error.is_none());
    let result = response.result.unwrap();
    assert_eq!(result["protocolVersion"], "2025-06-18");
    assert_eq!(result["serverInfo"]["name"], "TestServer");
    assert_eq!(result["capabilities"]["logging"], Value::Object(serde_json::Map::new()));
    assert_eq!(result["instructions"], "Test instructions.");
    assert_eq!(negotiated, "2025-06-18");
}

#[test]
fn test_handle_initialize_protocol_mismatch() {
    let request_id = RequestId::Number(124);
    let params = InitializeRequestParams {
        protocol_version: "2024-11-05".to_string(),
        capabilities: ClientCapabilities { roots: None, sampling: None, elicitation: None, experimental: None },
        client_info: None,
    };
    let (response, negotiated) = initialize_response(request_id.clone(), &params, test_server());
    assert_eq!(response.id.unwrap(), request_id);
    assert!(response.result.is_some());
    let result = response.result.unwrap();
    assert_eq!(result["protocolVersion"], "2025-06-18");
    assert_eq!(negotiated, "2025-06-18");
}

#[test]
fn initialize_result_matches_its_json_form() {
    let (response, _) = initialize_response(RequestId::Number(1), &InitializeRequestParams {
        protocol_version: "x".to_string(),
        capabilities: ClientCapabilities { roots: None, sampling: None, elicitation: None, experimental: None },
        client_info: None,
    }, test_server());
    let expected = InitializeResult {
        protocol_version: "2025-06-18".to_string(),
        capabilities: test_server().capabilities,
        server_info: Some(rust_mcp_sdk::ServerInfo { name: "TestServer".to_string(), title: None, version: Some("1.0.0".to_string()) }),
        instructions: Some("Test instructions.".to_string()),
    };
    assert_eq!(response.result.unwrap(), expected.to_value());
}

#[test]
fn server_version_wins() {
    assert_eq!(latest_supported_protocol_version(), "2025-06-18");
    assert_eq!(negotiated_protocol_version(&"1999".to_string(), &"2025-06-18".to_string()), "2025-06-18");
}

#[test]
fn tools_capability_is_always_announced() {
    let caps = with_tools_capability(empty_caps());
    assert_eq!(caps.tools, Some(ServerToolsCapability { list_changed: Some(true) }));
    let kept = with_tools_capability(ServerCapabilities { tools: Some(ServerToolsCapability { list_changed: None }), ..empty_caps() });
    assert_eq!(kept.tools, Some(ServerToolsCapability { list_changed: None }));
}

#[test]
fn handler_errors_map_to_codes() {
    let id = RequestId::Number(1);
    let cases = vec![
        (McpError::ProtocolError("p".to_string()), -32600, "p".to_string()),
        (McpError::ParseJson("j".to_string()), -32602, "j".to_string()),
        (McpError::ToolNotFound("t".to_string()), -32601, "t".to_string()),
        (McpError::RequestTimeout, -32000, "Internal server error: Request timed out".to_string()),
        (McpError::AuthError("a".to_string()), -32000, "Internal server error: Authentication error: a".to_string()),
    ];
    for (err, code, message) in cases {
        let r = handler_error_response(id.clone(), err);
        let e = r.error.unwrap();
        assert_eq!((e.code, e.message), (code, message));
        assert_eq!(r.id, Some(id.clone()));
    }
    let ok = Response::new_success(id.clone(), None);
    assert_eq!(request_outcome_response(id.clone(), Ok(ok.clone())), ok);
}

#[test]
fn session_actions() {
    let req = McpMessage::Request(Request::new(RequestId::Number(2), "custom/ping", None));
    assert!(matches!(session_action(&req, true, false), SessionAction::RunRequestHandler));
    match session_action(&req, false, false) {
        SessionAction::Answer(r) => {
            let e = r.error.unwrap();
            assert_eq!((e.code, e.message.as_str()), (-32601, "Method 'custom/ping' not found"));
            assert_eq!(r.id, Some(RequestId::Number(2)));
        }
        _ => panic!("expected an answer"),
    }
    let note = McpMessage::Notification(Notification::new("tools/list", None));
    assert!(matches!(session_action(&note, false, true), SessionAction::RunNotificationHandler));
    match session_action(&note, true, false) {
        SessionAction::Reply(r) => {
            assert_eq!(r.id, None);
            let e = r.error.unwrap();
            assert_eq!(e.code, -32600);
            assert_eq!(e.message, "Method 'tools/list' expects an ID and a response, but was received as a Notification (missing 'id' field).");
        }
        _ => panic!("expected a reply"),
    }
    assert!(matches!(session_action(&note, false, false), SessionAction::Ignore));
    let resp = McpMessage::Response(Response::new_success(RequestId::String("s".to_string()), None));
    assert!(matches!(session_action(&resp, false, false), SessionAction::DeliverResponse(RequestId::String(ref s)) if s == "s"));
    let anon = McpMessage::Response(Response::new_error(None, 1, "x", None));
    assert!(matches!(session_action(&anon, true, true), SessionAction::Ignore));
}

fn tool(name: &str) -> Tool {
    Tool {
        name: name.to_string(),
        title: None,
        description: format!("the {} tool", name),
        input_schema: InputSchema::Reference("#/defs/args".to_string()),
        output_schema: None,
        requires_auth: None,
        experimental: None,
        annotations: None,
    }
}

#[test]
fn tools_list_pages() {
    let tools = vec![tool("calculator"), tool("weather")];
    let all = tools_list_result(&ToolsListRequestParams { cursor: None }, tools.clone()).unwrap();
    assert_eq!(all.tools, tools);
    assert_eq!(all.next_cursor, None);
    let empty = tools_list_result(&ToolsListRequestParams { cursor: None }, Vec::new()).unwrap();
    assert!(empty.tools.is_empty() && empty.next_cursor.is_none());
    let many: Vec<Tool> = (0..150).map(|i| tool(&format!("t{}", i))).collect();
    let first = tools_list_result(&ToolsListRequestParams { cursor: None }, many.clone()).unwrap();
    assert_eq!(first.tools, many[..100].to_vec());
    let second = tools_list_result(&ToolsListRequestParams { cursor: first.next_cursor }, many.clone()).unwrap();
    assert_eq!(second.tools, many[100..].to_vec());
    assert_eq!(second.next_cursor, None);
    let past = rust_mcp_sdk::pagination::PaginationCursor { offset: 151 }.encode();
    assert!(tools_list_result(&ToolsListRequestParams { cursor: Some(past) }, tools).is_none());
}

#[test]
fn tool_call_results() {
    assert_eq!(tool_arguments(None), Value::Null);
    let ok = tool_call_result(Ok(serde_json::from_str(r#"{"value":3}"#).unwrap()));
    assert!(!ok.is_error);
    assert_eq!(ok.content, vec![ToolOutputContentBlock::Text { text: r#"{"value":3}"#.to_string() }]);
    let failed = tool_call_result(Err(McpError::ProtocolError("bad".to_string())));
    assert!(failed.is_error);
    assert_eq!(failed.content, vec![ToolOutputContentBlock::Text { text: "Tool execution failed: Protocol error: bad".to_string() }]);
    assert_eq!(failed.error_message.as_deref(), Some("Tool execution error: Protocol error: bad"));
    match tool_not_found(&"calc".to_string()) {
        McpError::ToolNotFound(m) => assert_eq!(m, "Tool 'calc' not found or execution handler not registered."),
        other => panic!("unexpected {:?}", other),
    }
}

#[test]
fn prompt_and_resource_answers() {
    let messages = vec![PromptMessage {
        role: PromptMessageRole::User,
        content: PromptMessageContent::Text { text: "hi".to_string() },
        annotations: None,
    }];
    let r = prompt_result(&"greet".to_string(), messages.clone());
    assert_eq!(r.description.as_deref(), Some("Result of prompt: greet"));
    assert_eq!(r.messages, messages);
    assert!(matches!(prompt_failed(&"boom".to_string()), McpError::ProtocolError(ref m) if m == "Prompt execution failed: boom"));
    assert!(matches!(prompt_not_found(&"x".to_string()), McpError::ProtocolError(ref m) if m == "Prompt 'x' not found."));
    match resource_handler_failed(&"file:///a".to_string(), &"io".to_string()) {
        McpError::ServerError { code, message, data } => {
            assert_eq!((code, message.as_str()), (-32003, "Resource handler failed"));
            assert_eq!(data.unwrap(), serde_json::from_str::<Value>(r#"{"uri":"file:///a","error":"io"}"#).unwrap());
        }
        other => panic!("unexpected {:?}", other),
    }
    match resource_not_found(&"file:///b".to_string()) {
        McpError::ServerError { code, data, .. } => {
            assert_eq!(code, -32002);
            assert_eq!(data.unwrap(), serde_json::from_str::<Value>(r#"{"uri":"file:///b"}"#).unwrap());
        }
        other => panic!("unexpected {:?}", other),
    }
    assert_eq!(subscribed_result(), serde_json::from_str::<Value>(r#"{"status":"subscribed"}"#).unwrap());
    let n = resource_updated_notification(Value::Null);
    assert_eq!(n.method, "notifications/resources/updated");
}

#[test]
fn subscriptions() {
    let s = add_subscriber(vec![], 7);
    let s = add_subscriber(s, 8);
    let s = add_subscriber(s, 7);
    assert_eq!(s, vec![7, 8]);
    assert_eq!(remove_subscriber(&vec![7, 8, 7, 9], 7), vec![8, 9]);
}

#[test]
fn unknown_method_is_answered_with_the_standard_error() {
    let request = Request::new(RequestId::Number(6), "non_existent/method", Some(serde_json::from_str(r#"{"data":"test"}"#).unwrap()));
    match session_action(&McpMessage::Request(request), false, false) {
        SessionAction::Answer(res) => assert_eq!(
            res,
            Response::new_error(Some(RequestId::Number(6)), -32601, "Method 'non_existent/method' not found", None)
        ),
        _ => panic!("expected an answer"),
    }
}

#[test]
fn failed_handler_answer_has_no_data() {
    let r = request_outcome_response(RequestId::Number(3), Err(McpError::ParseJson("bad params".to_string())));
    assert_eq!(r, Response::new_error(Some(RequestId::Number(3)), -32602, "bad params", None));
    assert_eq!(r.protocol.jsonrpc, "2.0");
    let r = request_outcome_response(RequestId::Number(4), Err(McpError::RequestTimeout));
    assert_eq!(r, Response::new_error(Some(RequestId::Number(4)), -32000, "Internal server error: Request timed out", None));
}

#[test]
fn a_session_is_subscribed_exactly_once() {
    let mut s: Vec<u128> = vec![1, 2];
    for _ in 0..3 {
        s = add_subscriber(s, 9);
    }
    assert_eq!(s.iter().filter(|&&x| x == 9).count(), 1);
    assert_eq!(s, vec![1, 2, 9]);
    assert_eq!(remove_subscriber(&s, 2), vec![1, 9]);
}

#[test]
fn tool_output_text_is_serde_jsons_compact_text() {
    let ok = tool_call_result(Ok(serde_json::from_str(r#"{"value": 8.0}"#).unwrap()));
    assert_eq!(ok.content, vec![ToolOutputContentBlock::Text { text: r#"{"value":8.0}"#.to_string() }]);
    let ordered = tool_call_result(Ok(serde_json::from_str(r#"{"z": 1, "a": [true, null, 0.5]}"#).unwrap()));
    assert_eq!(ordered.content, vec![ToolOutputContentBlock::Text { text: r#"{"z":1,"a":[true,null,0.5]}"#.to_string() }]);
}

#[test]
fn answers_go_to_a_waiting_http_request_first() {
    assert!(matches!(answer_route(true), AnswerRoute::HttpWaiter));
    assert!(matches!(answer_route(false), AnswerRoute::Outgoing));
}

#[test]
fn a_second_handler_under_a_name_is_refused() {
    assert_eq!(registration_check(Registration::RequestHandler, "test_method", false), Ok(()));
    assert_eq!(
        registration_check(Registration::RequestHandler, "test_method", true),
        Err("Request handler for method 'test_method' already registered.".to_string())
    );
    assert_eq!(
        registration_check(Registration::NotificationHandler, "test_notification", true),
        Err("Notification handler for method 'test_notification' already registered.".to_string())
    );
    assert_eq!(
        registration_check(Registration::ToolExecutionHandler, "add", true),
        Err("Tool execution handler for 'add' already registered.".to_string())
    );
}
