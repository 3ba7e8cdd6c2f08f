use ynab_mcp::{
    read_message, write_message, Handler, Json, JsonRpcRequest, JsonRpcResponse, McpServer,
    SessionAction, SessionEvent, TransactionService, YnabClient, YnabError,
};

fn json(text: &str) -> Json {
    Json::parse(text).unwrap()
}

fn frame(body: &str) -> Vec<u8> {
    format!("Content-Length: {}\r\n\r\n{}", body.len(), body).into_bytes()
}

/// Runs a whole session over `input` as the server binary does, and returns
/// what it writes.
fn run_session(input: &[u8], api_token: &str) -> String {
    let handler = Handler::with_full_integration(
        TransactionService::new(),
        YnabClient::new(api_token.to_string()),
    );
    let server = McpServer::new(handler);
    let mut out: Vec<u8> = Vec::new();
    let mut pos = 0;
    loop {
        let event = match read_message(&input[pos..]) {
            Ok(Some((message, used))) => {
                pos += used;
                SessionEvent::Message(message)
            }
            Ok(None) => SessionEvent::EndOfStream,
            Err(_) => SessionEvent::ReadFailed,
        };
        match server.step(event) {
            SessionAction::Reply(text) => out.extend(write_message(&text)),
            SessionAction::Stop => break,
        }
    }
    String::from_utf8(out).unwrap()
}

// transport

#[test]
fn should_read_jsonrpc_messages_from_reader() {
    let json_message = r#"{"jsonrpc":"2.0","method":"tools/list","id":1}"#;
    let content_length = json_message.len();
    let input = format!("Content-Length: {}\r\n\r\n{}", content_length, json_message);

    let (message, _) = read_message(input.as_bytes()).unwrap().unwrap();

    assert_eq!(message, json_message);
}

#[test]
fn should_write_jsonrpc_response_with_content_length() {
    let response = r#"{"jsonrpc":"2.0","id":1,"result":{"tools":[]}}"#;

    let writer = write_message(response);

    let output = String::from_utf8(writer).unwrap();
    let expected_length = response.len();

    assert!(output.starts_with(&format!("Content-Length: {}\r\n\r\n", expected_length)));
    assert!(output.ends_with(response));
}

#[test]
fn should_handle_invalid_content_length_header() {
    let input = "Invalid-Header: 42\r\n\r\ntest";

    let result = read_message(input.as_bytes());

    assert!(result.is_err());
    match result.unwrap_err() {
        YnabError::ApiError(msg) => assert!(msg.contains("Expected Content-Length header")),
        other => panic!("Expected ApiError, got: {:?}", other),
    }
}

#[test]
fn should_handle_invalid_content_length_value() {
    let input = "Content-Length: not-a-number\r\n\r\ntest";

    let result = read_message(input.as_bytes());

    assert!(result.is_err());
    match result.unwrap_err() {
        YnabError::ApiError(msg) => assert!(msg.contains("Invalid Content-Length value")),
        other => panic!("Expected ApiError, got: {:?}", other),
    }
}

#[test]
fn should_handle_content_length_mismatch() {
    let input = "Content-Length: 100\r\n\r\nshort";

    let result = read_message(input.as_bytes());

    assert!(result.is_err());
    match result.unwrap_err() {
        YnabError::IoError(_) => {}
        other => panic!("Expected IoError, got: {:?}", other),
    }
}

#[test]
fn should_handle_invalid_utf8_content() {
    let invalid_utf8_bytes = vec![0xFF, 0xFE, 0xFD];
    let content_length = invalid_utf8_bytes.len();
    let mut input = format!("Content-Length: {}\r\n\r\n", content_length).into_bytes();
    input.extend_from_slice(&invalid_utf8_bytes);

    let result = read_message(&input);

    assert!(result.is_err());
    match result.unwrap_err() {
        YnabError::ApiError(msg) => assert!(msg.contains("Message content is not valid UTF-8")),
        other => panic!("Expected ApiError, got: {:?}", other),
    }
}

#[test]
fn should_handle_missing_empty_line_separator() {
    let input = "Content-Length: 5\r\nhello";

    let result = read_message(input.as_bytes());

    if let Ok(Some((message, _))) = &result {
        assert!(!message.is_empty());
    } else {
        match result.unwrap_err() {
            YnabError::IoError(_) => {}
            other => panic!("Expected IoError, got: {:?}", other),
        }
    }
}

#[test]
fn should_read_message_with_proper_separator() {
    let json_message = "test";
    let content_length = json_message.len();
    let input = format!("Content-Length: {}\r\n\r\n{}", content_length, json_message);

    let (message, used) = read_message(input.as_bytes()).unwrap().unwrap();

    assert_eq!(message, json_message);
    assert_eq!(used, input.len());
    assert!(read_message(&input.as_bytes()[used..]).unwrap().is_none());
}

#[test]
fn framing_round_trips_multibyte_text() {
    let body = "caf\u{e9} \u{1F600} \u{65e5}\u{672c}";
    let framed = write_message(body);
    let header = format!("Content-Length: {}\r\n\r\n", body.as_bytes().len());
    assert!(framed.starts_with(header.as_bytes()));
    assert_eq!(body.as_bytes().len(), 17);
    assert_eq!(framed.len(), header.len() + 17);
    let (message, used) = read_message(&framed).unwrap().unwrap();
    assert_eq!(message, body);
    assert_eq!(used, framed.len());
}

#[test]
fn framing_round_trips_empty_body() {
    let framed = write_message("");
    assert_eq!(framed, b"Content-Length: 0\r\n\r\n".to_vec());
    let (message, used) = read_message(&framed).unwrap().unwrap();
    assert_eq!(message, "");
    assert_eq!(used, framed.len());
}

#[test]
fn reading_empty_stream_is_end_of_stream() {
    assert!(read_message(b"").unwrap().is_none());
}

#[test]
fn content_length_accepts_plus_and_rejects_overflow() {
    let (message, _) = read_message(b"Content-Length: +2\r\n\r\nok").unwrap().unwrap();
    assert_eq!(message, "ok");
    match read_message(b"Content-Length: 99999999999999999999999\r\n\r\nx").unwrap_err() {
        YnabError::ApiError(msg) => {
            assert_eq!(msg, "Invalid Content-Length value: 99999999999999999999999")
        }
        other => panic!("Expected ApiError, got: {:?}", other),
    }
}

#[test]
fn content_length_parse_directly() {
    assert_eq!(ynab_mcp::transport::parse_content_length(b"Content-Length:  12 \r\n").unwrap(), 12);
    assert!(ynab_mcp::transport::parse_content_length(b"Content-Length:\r\n").is_err());
    assert!(ynab_mcp::transport::parse_content_length(b"Content-Type: 12\r\n").is_err());
}

// JSON-RPC envelopes

#[test]
fn should_parse_jsonrpc_request_with_method_and_params() {
    let text = r#"{"jsonrpc": "2.0", "id": 1, "method": "tools/list", "params": {}}"#;
    let request = JsonRpcRequest::from_json(text).unwrap();

    assert_eq!(request.jsonrpc, "2.0");
    assert_eq!(request.id, Some(Json::Int(1)));
    assert_eq!(request.method, "tools/list");
    assert_eq!(request.params, Some(Json::Object(vec![])));
}

#[test]
fn should_format_jsonrpc_success_response() {
    let response = JsonRpcResponse::success(Json::Int(1), json(r#"{"tools": []}"#));
    let text = response.to_json();

    assert!(text.contains("\"jsonrpc\":\"2.0\""));
    assert!(text.contains("\"id\":1"));
    assert!(text.contains("\"result\""));
    assert!(text.contains("\"tools\":[]"));
}

#[test]
fn should_parse_jsonrpc_request_without_params() {
    let text = r#"{"jsonrpc": "2.0", "id": "test", "method": "tools/list"}"#;
    let request = JsonRpcRequest::from_json(text).unwrap();

    assert_eq!(request.method, "tools/list");
    assert_eq!(request.id, Some(Json::Str("test".to_string())));
    assert_eq!(request.params, None);
}

#[test]
fn should_handle_invalid_json() {
    let text = r#"{"invalid": json"#;
    let result = JsonRpcRequest::from_json(text);

    assert!(result.is_err());
    match result.unwrap_err() {
        YnabError::ApiError(msg) => assert!(msg.contains("Invalid JSON")),
        other => panic!("Expected ApiError, got: {:?}", other),
    }
}

#[test]
fn should_handle_missing_method_field() {
    let text = r#"{"jsonrpc": "2.0", "id": 1}"#;
    let result = JsonRpcRequest::from_json(text);

    assert!(result.is_err());
    match result.unwrap_err() {
        YnabError::ApiError(msg) => assert_eq!(msg, "Missing method field"),
        other => panic!("Expected ApiError, got: {:?}", other),
    }
}

#[test]
fn should_format_jsonrpc_error_response() {
    let response = JsonRpcResponse::error(
        Json::Str("test-id".to_string()),
        -32600,
        "Invalid Request".to_string(),
        Some(json(r#"{"details": "Missing required field"}"#)),
    );
    let text = response.to_json();

    assert!(text.contains("\"jsonrpc\":\"2.0\""));
    assert!(text.contains("\"id\":\"test-id\""));
    assert!(text.contains("\"error\""));
    assert!(text.contains("\"code\":-32600"));
    assert!(text.contains("\"message\":\"Invalid Request\""));
    assert!(text.contains("\"details\":\"Missing required field\""));
}

#[test]
fn request_envelope_problems_are_reported() {
    let missing_tag = JsonRpcRequest::from_json(r#"{"method": "x"}"#).unwrap_err();
    assert_eq!(missing_tag, YnabError::ApiError("Missing jsonrpc field".to_string()));
    let wrong_tag = JsonRpcRequest::from_json(r#"{"jsonrpc": "1.0", "method": "x"}"#).unwrap_err();
    assert_eq!(wrong_tag, YnabError::ApiError("Unsupported jsonrpc version".to_string()));
    let empty = JsonRpcRequest::from_json(r#"{"jsonrpc": "2.0", "method": ""}"#).unwrap_err();
    assert_eq!(empty, YnabError::ApiError("Empty method field".to_string()));
    let notification = JsonRpcRequest::from_json(r#"{"jsonrpc": "2.0", "method": "x", "id": null}"#).unwrap();
    assert_eq!(notification.id, None);
}

#[test]
fn error_response_without_data_has_no_data_member() {
    let text = JsonRpcResponse::error(Json::Null, -32601, "Method not found".to_string(), None).to_json();
    assert_eq!(text, r#"{"error":{"code":-32601,"message":"Method not found"},"id":null,"jsonrpc":"2.0"}"#);
}

// dispatcher

#[test]
fn should_handle_initialize_request() {
    let handler = Handler::new();
    let mcp_server = McpServer::new(handler);
    let request = JsonRpcRequest::from_json(
        r#"{
            "jsonrpc": "2.0",
            "id": 1,
            "method": "initialize",
            "params": {
                "protocolVersion": "2024-11-05",
                "clientInfo": {"name": "test-client"}
            }
        }"#,
    )
    .unwrap();

    let response = mcp_server.handle_request(request).unwrap();

    assert_eq!(response.jsonrpc, "2.0");
    assert_eq!(response.id, Json::Int(1));
    assert!(response.result.is_some());

    let result = response.result.unwrap();
    assert_eq!(result.get("protocolVersion"), Some(&Json::Str("2024-11-05".to_string())));
    assert!(matches!(result.get("capabilities"), Some(Json::Object(_))));
    assert!(matches!(result.get("serverInfo"), Some(Json::Object(_))));
}

#[test]
fn mcp_protocol_should_list_available_tools() {
    let transaction_service = TransactionService::new();
    let ynab_client = YnabClient::new("test-token".to_string());
    let handler = Handler::with_full_integration(transaction_service, ynab_client);
    let mcp_server = McpServer::new(handler);

    let request = JsonRpcRequest::from_json(
        r#"{
            "jsonrpc": "2.0",
            "id": 2,
            "method": "tools/list",
            "params": {}
        }"#,
    )
    .unwrap();

    let response = mcp_server.handle_request(request).unwrap();

    assert_eq!(response.jsonrpc, "2.0");
    assert_eq!(response.id, Json::Int(2));
    assert!(response.result.is_some());

    let result = response.result.unwrap();
    let tools = result.get("tools").unwrap().as_array().unwrap();
    assert_eq!(tools.len(), 5);

    let first_tool = &tools[0];
    assert!(first_tool.get("name").unwrap().as_str().is_some());
    assert!(first_tool.get("description").unwrap().as_str().is_some());
}

#[test]
fn should_execute_tool_via_mcp_protocol() {
    let transaction_service = TransactionService::new();
    let ynab_client = YnabClient::new("test-token".to_string());
    let handler = Handler::with_full_integration(transaction_service, ynab_client);
    let mcp_server = McpServer::new(handler);

    let request = JsonRpcRequest::from_json(
        r#"{
            "jsonrpc": "2.0",
            "id": 3,
            "method": "tools/call",
            "params": {
                "name": "analyze_category_spending",
                "arguments": {
                    "budget_id": "test-budget-123",
                    "category_name": "Groceries"
                }
            }
        }"#,
    )
    .unwrap();

    let response = mcp_server.handle_request(request).unwrap();

    assert_eq!(response.jsonrpc, "2.0");
    assert_eq!(response.id, Json::Int(3));
    assert!(response.result.is_some());

    let result = response.result.unwrap();
    let content_array = result.get("content").unwrap().as_array().unwrap();
    assert_eq!(content_array.len(), 1);

    let content_item = &content_array[0];
    assert_eq!(content_item.get("type"), Some(&Json::Str("text".to_string())));
    assert!(content_item.get("text").unwrap().as_str().is_some());
}

#[test]
fn should_handle_unknown_mcp_method() {
    let handler = Handler::new();
    let mcp_server = McpServer::new(handler);

    let request = JsonRpcRequest::from_json(
        r#"{
            "jsonrpc": "2.0",
            "id": 4,
            "method": "unknown/method",
            "params": {}
        }"#,
    )
    .unwrap();

    let response = mcp_server.handle_request(request).unwrap();

    assert_eq!(response.jsonrpc, "2.0");
    assert_eq!(response.id, Json::Int(4));
    assert!(response.error.is_some());

    let error = response.error.unwrap();
    assert_eq!(error.code, -32601);
    assert_eq!(error.message, "Method not found");
}

#[test]
fn should_handle_tools_call_with_invalid_tool_name() {
    let transaction_service = TransactionService::new();
    let ynab_client = YnabClient::new("test-token".to_string());
    let handler = Handler::with_full_integration(transaction_service, ynab_client);
    let mcp_server = McpServer::new(handler);

    let request = JsonRpcRequest::from_json(
        r#"{
            "jsonrpc": "2.0",
            "id": 5,
            "method": "tools/call",
            "params": {
                "name": "nonexistent_tool",
                "arguments": {}
            }
        }"#,
    )
    .unwrap();

    let response = mcp_server.handle_request(request).unwrap();

    assert_eq!(response.jsonrpc, "2.0");
    assert_eq!(response.id, Json::Int(5));
    assert!(response.error.is_some());

    let error = response.error.unwrap();
    assert_eq!(error.code, -32000);
    assert!(error.message.contains("Tool execution failed"));
}

#[test]
fn tools_call_without_name_fails_before_any_tool_runs() {
    let mcp_server = McpServer::new(Handler::new());
    let request = JsonRpcRequest::from_json(
        r#"{"jsonrpc":"2.0","id":6,"method":"tools/call","params":{"arguments":{}}}"#,
    )
    .unwrap();
    let response = mcp_server.handle_request(request).unwrap();
    assert_eq!(response.id, Json::Int(6));
    assert!(response.result.is_none());
    let error = response.error.unwrap();
    assert_eq!(error.code, -32602);
    assert_eq!(error.message, "Missing tool name");

    let body = r#"{"jsonrpc":"2.0","id":1,"method":"tools/call","params":{"arguments":{}}}"#;
    let output = run_session(&frame(body), "test-token");
    let (text, _) = read_message(output.as_bytes()).unwrap().unwrap();
    let value = Json::parse(&text).unwrap();
    assert_eq!(value.get("id"), Some(&Json::Int(1)));
    assert!(value.get("result").is_none());
    assert_eq!(value.get("error").unwrap().get("code"), Some(&Json::Int(-32602)));
    assert!(!text.contains("content"));
}

#[test]
fn tools_list_answer_matches_catalog() {
    let server = McpServer::new(Handler::new());
    let answer = server.respond(r#"{"jsonrpc":"2.0","id":1,"method":"tools/list"}"#);
    let value = Json::parse(&answer).unwrap();
    assert_eq!(value.get("jsonrpc"), Some(&Json::Str("2.0".to_string())));
    assert_eq!(value.get("id"), Some(&Json::Int(1)));
    let tools = value.get("result").unwrap().get("tools").unwrap().as_array().unwrap();
    assert_eq!(tools.len(), 5);
    let names: Vec<&str> = tools.iter().map(|t| t.get("name").unwrap().as_str().unwrap()).collect();
    assert_eq!(
        names,
        vec![
            "analyze_category_spending",
            "get_budget_overview",
            "search_transactions",
            "analyze_spending_trends",
            "budget_health_check"
        ]
    );
    for t in tools {
        assert!(!t.get("description").unwrap().as_str().unwrap().is_empty());
    }
    assert!(value.get("error").is_none());
}

#[test]
fn malformed_message_gets_parse_error_and_session_continues() {
    let mut input = frame(r#"{"invalid":json"#);
    input.extend(frame(r#"{"jsonrpc":"2.0","id":7,"method":"tools/list"}"#));
    let output = run_session(&input, "test-token");
    let first_end = output.find("Content-Length:").unwrap();
    assert_eq!(first_end, 0);
    let parts: Vec<&str> = output.split("Content-Length: ").filter(|p| !p.is_empty()).collect();
    assert_eq!(parts.len(), 2);
    assert!(parts[0].contains("\"id\":null"));
    assert!(parts[0].contains("\"code\":-32700"));
    assert!(parts[0].contains("Parse error"));
    assert!(parts[1].contains("\"id\":7"));
    assert!(parts[1].contains("\"tools\":["));
}

#[test]
fn session_stops_at_end_and_on_bad_frame() {
    let server = McpServer::new(Handler::new());
    assert!(matches!(server.step(SessionEvent::EndOfStream), SessionAction::Stop));
    assert!(matches!(server.step(SessionEvent::ReadFailed), SessionAction::Stop));
    let output = run_session(b"Bogus: 1\r\n\r\nx", "test-token");
    assert!(output.is_empty());
}

// the server loop

#[test]
fn should_handle_malformed_json_in_server_loop() {
    let malformed_input = "Content-Length: 15\r\n\r\n{\"invalid\":json";

    let output = run_session(malformed_input.as_bytes(), "test-token");

    assert!(output.contains("Content-Length:"));
    assert!(output.contains("Parse error"));
    assert!(output.contains("-32700"));
}

#[test]
fn should_handle_empty_input_gracefully() {
    let output = run_session(b"", "test-token");
    assert!(output.is_empty());
}

#[test]
fn should_handle_server_error_during_request_processing() {
    // A tools/call without params is an invalid-params error that echoes the id.
    let invalid_mcp_request = r#"{"jsonrpc":"2.0","method":"tools/call","id":1}"#;
    let input = format!(
        "Content-Length: {}\r\n\r\n{}",
        invalid_mcp_request.len(),
        invalid_mcp_request
    );

    let output = run_session(input.as_bytes(), "test-token");

    assert!(output.contains("Content-Length:"));
    assert!(output.contains("Missing params for tools/call"));
    assert!(output.contains("-32602"));
    assert!(output.contains("\"id\":1"));
}

#[test]
fn should_run_complete_mcp_server_session() {
    let init_message = r#"{"jsonrpc":"2.0","method":"initialize","id":1,"params":{"protocolVersion":"2024-11-05"}}"#;
    let input = format!("Content-Length: {}\r\n\r\n{}", init_message.len(), init_message);

    let output = run_session(input.as_bytes(), "test-api-token");

    assert!(output.contains("Content-Length:"));
    assert!(output.contains("protocolVersion"));
    assert!(output.contains("2024-11-05"));
    assert!(output.contains("capabilities"));
    assert!(output.contains("serverInfo"));
}

#[test]
fn should_handle_tools_list_request() {
    let tools_message = r#"{"jsonrpc":"2.0","method":"tools/list","id":2}"#;
    let input = format!("Content-Length: {}\r\n\r\n{}", tools_message.len(), tools_message);

    let output = run_session(input.as_bytes(), "test-api-token");

    assert!(output.contains("Content-Length:"));
    assert!(output.contains("tools"));
    assert!(output.contains("analyze_category_spending"));
    assert!(output.contains("get_budget_overview"));
    assert!(output.contains("search_transactions"));
    assert!(output.contains("analyze_spending_trends"));
    assert!(output.contains("budget_health_check"));
}

#[test]
fn should_handle_tools_call_request() {
    let call_message = r#"{"jsonrpc":"2.0","method":"tools/call","id":3,"params":{"name":"analyze_category_spending","arguments":{"budget_id":"test-budget","category_name":"Groceries"}}}"#;
    let input = format!("Content-Length: {}\r\n\r\n{}", call_message.len(), call_message);

    let output = run_session(input.as_bytes(), "test-api-token");

    assert!(output.contains("Content-Length:"));
    assert!(output.contains("content"));
    assert!(output.contains("type"));
    assert!(output.contains("text"));
}

#[test]
fn tools_list_request_scenario_response_shape() {
    let body = r#"{"jsonrpc":"2.0","id":1,"method":"tools/list"}"#;
    let output = run_session(&frame(body), "test-token");
    let (text, _) = read_message(output.as_bytes()).unwrap().unwrap();
    let value = Json::parse(&text).unwrap();
    assert_eq!(value.get("jsonrpc"), Some(&Json::Str("2.0".to_string())));
    assert_eq!(value.get("id"), Some(&Json::Int(1)));
    assert_eq!(value.get("result").unwrap().get("tools").unwrap().as_array().unwrap().len(), 5);
}
