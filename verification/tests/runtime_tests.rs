use rusted_tools::error::ProxyError;
use rusted_tools::mcp::runtime::{
    call_params, call_tool_on_service, close_result, list_tools_from_service, set_state,
    to_tool_content, worker_step, BackendCallResult, BackendContent, Delivery, McpRuntimeHandle,
    RuntimeState, ServiceRequest, ToolListing, ToolPage, WorkerStep, REQUEST_BUFFER,
};
use rusted_tools::mcp::types::{ToolCallRequest, ToolContent, ToolDefinition};
use serde_json::Value;

fn tool(name: &str) -> ToolDefinition {
    ToolDefinition {
        name: name.to_string(),
        description: None,
        input_schema: Value::Object(serde_json::Map::new()),
    }
}

fn page(names: &[&str], next: Option<&str>) -> ToolPage {
    ToolPage {
        tools: names.iter().map(|n| tool(n)).collect(),
        next_cursor: next.map(|c| c.to_string()),
    }
}

fn names(tools: Vec<ToolDefinition>) -> Vec<String> {
    tools.into_iter().map(|t| t.name).collect()
}

fn request(name: &str, arguments: Value) -> ToolCallRequest {
    ToolCallRequest { name: name.to_string(), arguments }
}

#[test]
fn the_queue_holds_thirty_two_requests() {
    assert_eq!(REQUEST_BUFFER, 32);
}

#[test]
fn a_new_worker_is_running_and_takes_requests() {
    let handle = McpRuntimeHandle::new();
    assert!(matches!(handle.state(), RuntimeState::Running));
    assert!(handle.ensure_running("svc").is_ok());
    assert!(matches!(handle.list_tools("svc").unwrap(), ServiceRequest::ListTools));
    assert!(matches!(handle.stop("svc").unwrap(), ServiceRequest::Stop));
    match handle.call_tool("svc", request("echo", Value::Null)).unwrap() {
        ServiceRequest::CallTool { request } => assert_eq!(request.name, "echo"),
        other => panic!("expected a call, got {:?}", other),
    }
}

#[test]
fn a_stopped_worker_refuses_as_not_running() {
    let mut handle = McpRuntimeHandle::new();
    handle.closed(&Ok(()));
    assert!(matches!(handle.state(), RuntimeState::Stopped));
    let refused = |result: Result<ServiceRequest, ProxyError>| match result {
        Err(ProxyError::ServerNotRunning(name)) => assert_eq!(name, "svc"),
        other => panic!("expected ServerNotRunning, got {:?}", other),
    };
    refused(handle.list_tools("svc"));
    refused(handle.call_tool("svc", request("echo", Value::Null)));
    refused(handle.stop("svc"));
}

#[test]
fn a_failed_worker_refuses_with_its_reason_every_time() {
    let mut handle = McpRuntimeHandle::new();
    handle.closed(&close_result(Err("broken pipe".to_string())));
    match handle.state() {
        RuntimeState::Failed(reason) => assert_eq!(
            reason,
            "MCP protocol error: Failed to stop MCP client: broken pipe"
        ),
        other => panic!("expected Failed, got {:?}", other),
    }
    for _ in 0..3 {
        match handle.list_tools("svc") {
            Err(ProxyError::ServerRuntimeFailed(detail)) => assert_eq!(
                detail,
                "svc: MCP protocol error: Failed to stop MCP client: broken pipe"
            ),
            other => panic!("expected ServerRuntimeFailed, got {:?}", other),
        }
        assert!(matches!(
            handle.call_tool("svc", request("echo", Value::Null)),
            Err(ProxyError::ServerRuntimeFailed(_))
        ));
        assert!(matches!(handle.stop("svc"), Err(ProxyError::ServerRuntimeFailed(_))));
    }
}

#[test]
fn the_worker_serves_requests_and_ends_on_stop_or_an_empty_queue() {
    assert!(matches!(worker_step(Some(ServiceRequest::ListTools)), WorkerStep::ListTools));
    match worker_step(Some(ServiceRequest::CallTool { request: request("echo", Value::Null) })) {
        WorkerStep::CallTool(request) => assert_eq!(request.name, "echo"),
        other => panic!("expected a call, got {:?}", other),
    }
    assert!(matches!(
        worker_step(Some(ServiceRequest::Stop)),
        WorkerStep::Close { answer: true }
    ));
    assert!(matches!(worker_step(None), WorkerStep::Close { answer: false }));
}

#[test]
fn the_worker_ends_stopped_after_a_clean_close_and_failed_after_any_other() {
    assert!(matches!(set_state(&Ok(())), RuntimeState::Stopped));
    assert!(close_result(Ok(())).is_ok());
    let failed = close_result(Err("timeout".to_string()));
    match &failed {
        Err(ProxyError::McpProtocol(detail)) => {
            assert_eq!(detail, "Failed to stop MCP client: timeout")
        }
        other => panic!("expected a protocol error, got {:?}", other),
    }
    match set_state(&failed) {
        RuntimeState::Failed(reason) => {
            assert_eq!(reason, "MCP protocol error: Failed to stop MCP client: timeout")
        }
        other => panic!("expected Failed, got {:?}", other),
    }
}

#[test]
fn an_answer_comes_back_as_it_is() {
    let mut handle = McpRuntimeHandle::new();
    let answer: Result<u32, ProxyError> =
        handle.settle("svc", "call tool", Delivery::Replied(Ok(7)));
    assert_eq!(answer.unwrap(), 7);
    let answer: Result<u32, ProxyError> = handle.settle(
        "svc",
        "call tool",
        Delivery::Replied(Err(ProxyError::mcp_service_error("call tool", "boom"))),
    );
    match answer {
        Err(ProxyError::McpProtocol(detail)) => assert_eq!(detail, "Failed to call tool: boom"),
        other => panic!("expected the worker's error, got {:?}", other),
    }
    assert!(matches!(handle.state(), RuntimeState::Running));
}

#[test]
fn an_abandoned_request_counts_as_cancelled() {
    let mut handle = McpRuntimeHandle::new();
    let answer: Result<u32, ProxyError> = handle.settle("svc", "list tools", Delivery::Abandoned);
    match answer {
        Err(ProxyError::McpProtocol(detail)) => {
            assert_eq!(detail, "MCP list tools request cancelled for svc")
        }
        other => panic!("expected a cancellation, got {:?}", other),
    }
    assert!(matches!(handle.state(), RuntimeState::Running));
}

#[test]
fn a_closed_queue_marks_the_worker_failed() {
    let mut handle = McpRuntimeHandle::new();
    let answer: Result<u32, ProxyError> = handle.settle("svc", "stop", Delivery::ChannelClosed);
    match answer {
        Err(ProxyError::ServerRuntimeFailed(detail)) => {
            assert_eq!(detail, "svc: worker channel closed")
        }
        other => panic!("expected ServerRuntimeFailed, got {:?}", other),
    }
    match handle.state() {
        RuntimeState::Failed(reason) => assert_eq!(reason, "worker channel closed"),
        other => panic!("expected Failed, got {:?}", other),
    }
    match handle.ensure_running("svc") {
        Err(ProxyError::ServerRuntimeFailed(detail)) => {
            assert_eq!(detail, "svc: worker channel closed")
        }
        other => panic!("expected ServerRuntimeFailed, got {:?}", other),
    }
}

#[test]
fn a_worker_that_panicked_surfaces_at_the_join() {
    let mut handle = McpRuntimeHandle::new();
    handle.closed(&Ok(()));
    assert!(handle.joined("svc", None).is_ok());
    assert!(matches!(handle.state(), RuntimeState::Stopped));
    match handle.joined("svc", Some("task 7 panicked".to_string())) {
        Err(ProxyError::ServerRuntimeFailed(detail)) => {
            assert_eq!(detail, "svc: worker panicked: task 7 panicked")
        }
        other => panic!("expected ServerRuntimeFailed, got {:?}", other),
    }
    match handle.state() {
        RuntimeState::Failed(reason) => assert_eq!(reason, "worker panicked: task 7 panicked"),
        other => panic!("expected Failed, got {:?}", other),
    }
    let error = handle.runtime_failed("svc", "again");
    assert!(matches!(error, ProxyError::ServerRuntimeFailed(_)));
}

#[test]
fn pages_are_walked_in_order_up_to_the_last() {
    let listed = list_tools_from_service(vec![
        Ok(page(&["a", "b"], Some("c1"))),
        Ok(page(&[], Some("c2"))),
        Ok(page(&["c"], None)),
        Ok(page(&["never"], None)),
    ])
    .unwrap();
    assert_eq!(names(listed), vec!["a".to_string(), "b".to_string(), "c".to_string()]);
}

#[test]
fn a_single_page_is_the_whole_listing() {
    let listed = list_tools_from_service(vec![Ok(page(&["only"], None))]).unwrap();
    assert_eq!(names(listed), vec!["only".to_string()]);
    assert!(list_tools_from_service(vec![]).unwrap().is_empty());
    assert!(list_tools_from_service(vec![Ok(page(&[], None))]).unwrap().is_empty());
}

#[test]
fn a_page_that_fails_fails_the_listing() {
    let result = list_tools_from_service(vec![
        Ok(page(&["a"], Some("c1"))),
        Err("transport closed".to_string()),
        Ok(page(&["b"], None)),
    ]);
    match result {
        Err(ProxyError::McpProtocol(detail)) => {
            assert_eq!(detail, "Failed to list tools: transport closed")
        }
        other => panic!("expected a protocol error, got {:?}", other),
    }
}

#[test]
fn a_listing_asks_with_the_cursor_of_the_last_page() {
    let mut listing = ToolListing::new();
    assert_eq!(listing.cursor(), None);
    assert!(listing.absorb(page(&["a"], Some("next"))));
    assert_eq!(listing.cursor(), Some("next".to_string()));
    assert!(!listing.absorb(page(&["b", "c"], None)));
    assert_eq!(listing.cursor(), None);
    assert_eq!(
        names(listing.into_tools()),
        vec!["a".to_string(), "b".to_string(), "c".to_string()]
    );
}

#[test]
fn call_arguments_are_passed_on_only_where_they_are_an_object() {
    let mut object = serde_json::Map::new();
    object.insert("timezone".to_string(), Value::String("UTC".to_string()));
    let params = call_params(&request("get_time", Value::Object(object.clone())));
    assert_eq!(params.name, "get_time");
    assert_eq!(params.arguments, Some(object));

    for not_an_object in [
        Value::Null,
        Value::Bool(true),
        Value::String("x".to_string()),
        Value::Array(vec![Value::Null]),
    ] {
        let params = call_params(&request("get_time", not_an_object));
        assert_eq!(params.name, "get_time");
        assert_eq!(params.arguments, None);
    }
    let params = call_params(&request("get_time", Value::Object(serde_json::Map::new())));
    assert_eq!(params.arguments, Some(serde_json::Map::new()));
}

#[test]
fn backend_content_is_brought_into_the_uniform_form() {
    match to_tool_content(BackendContent::Text { text: "hi".to_string() }) {
        Some(ToolContent::Text { text }) => assert_eq!(text, "hi"),
        other => panic!("expected text, got {:?}", other),
    }
    match to_tool_content(BackendContent::Image {
        data: "AAAA".to_string(),
        mime_type: "image/png".to_string(),
    }) {
        Some(ToolContent::Image { data, mime_type }) => {
            assert_eq!(data, "AAAA");
            assert_eq!(mime_type, "image/png");
        }
        other => panic!("expected an image, got {:?}", other),
    }
    match to_tool_content(BackendContent::TextResource {
        uri: "file:///a.txt".to_string(),
        mime_type: Some("text/plain".to_string()),
    }) {
        Some(ToolContent::Resource { uri, mime_type }) => {
            assert_eq!(uri, "file:///a.txt");
            assert_eq!(mime_type, Some("text/plain".to_string()));
        }
        other => panic!("expected a resource, got {:?}", other),
    }
    match to_tool_content(BackendContent::BlobResource {
        uri: "file:///a.bin".to_string(),
        mime_type: None,
    }) {
        Some(ToolContent::Resource { uri, mime_type }) => {
            assert_eq!(uri, "file:///a.bin");
            assert_eq!(mime_type, None);
        }
        other => panic!("expected a resource, got {:?}", other),
    }
    assert!(to_tool_content(BackendContent::Other).is_none());
}

#[test]
fn a_call_result_keeps_order_and_flag_and_drops_unknown_kinds() {
    let response = call_tool_on_service(Ok(BackendCallResult {
        content: vec![
            BackendContent::Other,
            BackendContent::Text { text: "first".to_string() },
            BackendContent::BlobResource { uri: "u".to_string(), mime_type: None },
            BackendContent::Other,
            BackendContent::Text { text: "last".to_string() },
        ],
        is_error: Some(true),
    }))
    .unwrap();
    assert_eq!(response.is_error, Some(true));
    assert_eq!(response.content.len(), 3);
    assert!(matches!(&response.content[0], ToolContent::Text { text } if text == "first"));
    assert!(matches!(&response.content[1], ToolContent::Resource { uri, .. } if uri == "u"));
    assert!(matches!(&response.content[2], ToolContent::Text { text } if text == "last"));

    let empty = call_tool_on_service(Ok(BackendCallResult { content: vec![], is_error: None }))
        .unwrap();
    assert!(empty.content.is_empty());
    assert_eq!(empty.is_error, None);
}

#[test]
fn a_call_that_fails_is_a_protocol_error() {
    match call_tool_on_service(Err("Transport closed".to_string())) {
        Err(ProxyError::McpProtocol(detail)) => {
            assert_eq!(detail, "Failed to call tool: Transport closed")
        }
        other => panic!("expected a protocol error, got {:?}", other),
    }
}

#[test]
fn two_calls_get_their_own_answers() {
    let mut handle = McpRuntimeHandle::new();
    let first = handle.call_tool("svc", request("one", Value::Null)).unwrap();
    let second = handle.call_tool("svc", request("two", Value::Null)).unwrap();
    let served: Vec<String> = [first, second]
        .into_iter()
        .map(|message| match worker_step(Some(message)) {
            WorkerStep::CallTool(request) => request.name,
            other => panic!("expected a call, got {:?}", other),
        })
        .collect();
    assert_eq!(served, vec!["one".to_string(), "two".to_string()]);
    let a: Result<&str, ProxyError> = handle.settle("svc", "call tool", Delivery::Replied(Ok("for one")));
    let b: Result<&str, ProxyError> = handle.settle("svc", "call tool", Delivery::Replied(Ok("for two")));
    assert_eq!(a.unwrap(), "for one");
    assert_eq!(b.unwrap(), "for two");
}
