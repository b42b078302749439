use rusted_tools::error::ProxyError;
use rusted_tools::mcp::client::McpClient;
use rusted_tools::mcp::runtime::{Delivery, RuntimeState, ServiceRequest};
use rusted_tools::mcp::types::ToolCallRequest;

#[test]
fn test_create_client() {
    let client = McpClient::new("test-server".to_string());
    assert_eq!(client.server_name(), "test-server");
}

#[test]
fn test_client_not_initialized() {
    let client = McpClient::new("test-server".to_string());

    let result = client.list_tools();
    assert!(result.is_err());

    if let Err(e) = result {
        assert!(e.message().contains("not running"));
    }
}

#[test]
fn a_client_without_a_session_sends_nothing() {
    let mut client = McpClient::new("svc".to_string());
    assert!(client.state().is_none());
    assert!(client.runtime().is_none());
    let request = ToolCallRequest { name: "echo".to_string(), arguments: serde_json::Value::Null };
    for result in [client.list_tools(), client.call_tool(request), client.stop()] {
        match result {
            Err(ProxyError::ServerNotRunning(name)) => assert_eq!(name, "svc"),
            other => panic!("expected ServerNotRunning, got {:?}", other),
        }
    }
}

#[test]
fn a_client_with_a_session_sends_requests_until_its_worker_ends() {
    let mut client = McpClient::new("svc".to_string());
    client.store_service();
    assert!(matches!(client.state(), Some(RuntimeState::Running)));
    assert!(matches!(client.list_tools().unwrap(), ServiceRequest::ListTools));
    assert!(matches!(client.stop().unwrap(), ServiceRequest::Stop));

    client.runtime().unwrap().closed(&Ok(()));
    assert!(matches!(client.state(), Some(RuntimeState::Stopped)));
    match client.list_tools() {
        Err(ProxyError::ServerNotRunning(name)) => assert_eq!(name, "svc"),
        other => panic!("expected ServerNotRunning, got {:?}", other),
    }
}

#[test]
fn a_client_whose_worker_failed_says_why() {
    let mut client = McpClient::new("svc".to_string());
    client.store_service();
    let lost: Result<(), ProxyError> =
        client.runtime().unwrap().settle("svc", "list tools", Delivery::ChannelClosed);
    assert!(lost.is_err());
    match client.stop() {
        Err(ProxyError::ServerRuntimeFailed(detail)) => {
            assert_eq!(detail, "svc: worker channel closed")
        }
        other => panic!("expected ServerRuntimeFailed, got {:?}", other),
    }
}
