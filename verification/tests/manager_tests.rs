use rusted_tools::config::{EndpointConfig, EndpointKindConfig, ToolFilter};
use rusted_tools::endpoint::manager::EndpointManager;
use rusted_tools::endpoint::plan::{ClientPlan, StartOutcome, StartPlan};
use rusted_tools::endpoint::registry::{EndpointStatus, EndpointType};
use rusted_tools::error::ProxyError;
use std::collections::HashMap;

fn local(name: &str, command: &str, auto_start: bool) -> EndpointConfig {
    EndpointConfig {
        name: name.to_string(),
        path: None,
        endpoint_type: EndpointKindConfig::Local {
            command: command.to_string(),
            args: vec!["hello".to_string()],
            env: HashMap::new(),
            auto_start,
        },
        tools: None,
    }
}

fn remote(name: &str, url: &str) -> EndpointConfig {
    EndpointConfig {
        name: name.to_string(),
        path: None,
        endpoint_type: EndpointKindConfig::Remote { url: url.to_string() },
        tools: None,
    }
}

fn status(manager: &EndpointManager, name: &str) -> EndpointStatus {
    manager.get_endpoint_info(name).unwrap().status
}

fn running(manager: &mut EndpointManager, name: &str, session: u64) {
    manager.start_endpoint(name).unwrap();
    manager.finish_start(name, StartOutcome::Connected(session)).unwrap();
}

#[test]
fn test_init_local_endpoint_no_autostart() {
    let mut manager = EndpointManager::new();

    let auto_start = manager
        .init_from_config(vec![local("test-server", "echo", false)])
        .unwrap();
    assert!(auto_start.is_empty());

    let info = manager.get_endpoint_info("test-server").unwrap();
    assert_eq!(info.status, EndpointStatus::Stopped);
}

#[test]
fn test_start_endpoint_fails_with_non_mcp_process() {
    let mut manager = EndpointManager::new();
    manager
        .init_from_config(vec![local("test-echo", "echo", false)])
        .unwrap();

    manager.start_endpoint("test-echo").unwrap();
    let result = manager.finish_start(
        "test-echo",
        StartOutcome::HandshakeFailed("connection closed: initialize response".to_string()),
    );
    assert!(result.is_err(), "start should fail for non-MCP process");

    let info = manager.get_endpoint_info("test-echo").unwrap();
    assert_eq!(info.status, EndpointStatus::Failed);
}

#[test]
fn test_remote_endpoint_registration() {
    let mut manager = EndpointManager::new();
    manager
        .init_from_config(vec![remote("remote-server", "https://example.com")])
        .unwrap();

    let info = manager.get_endpoint_info("remote-server").unwrap();
    assert!(matches!(info.endpoint_type, EndpointType::Remote));

    manager.start_endpoint("remote-server").unwrap();
    let result = manager.finish_start("remote-server", StartOutcome::HandshakeTimedOut);
    assert!(result.is_err());
}

#[test]
fn a_new_manager_has_the_default_restart_delay() {
    let manager = EndpointManager::new();
    assert_eq!(manager.restart_endpoint(Ok(())).unwrap(), 500);
    let manager = EndpointManager::new_with_restart_delay(20);
    assert_eq!(manager.restart_endpoint(Ok(())).unwrap(), 20);
    assert!(manager.list_endpoints().is_empty());
    assert!(manager.shutdown().is_empty());
}

#[test]
fn init_names_the_local_endpoints_to_start_right_away() {
    let mut manager = EndpointManager::new();
    let auto_start = manager
        .init_from_config(vec![
            local("one", "echo", true),
            remote("two", "http://h"),
            local("three", "echo", false),
            local("four", "echo", true),
        ])
        .unwrap();
    assert_eq!(auto_start, vec!["one".to_string(), "four".to_string()]);
    assert_eq!(manager.list_endpoints().len(), 4);
    for name in ["one", "two", "three", "four"] {
        assert_eq!(status(&manager, name), EndpointStatus::Stopped);
        assert_eq!(manager.get_endpoint_info(name).unwrap().path, name);
    }
    assert_eq!(manager.get_endpoint_info("two").unwrap().endpoint_type, EndpointType::Remote);
    assert_eq!(manager.get_endpoint("one").unwrap().endpoint_type(), EndpointType::Local);
}

#[test]
fn init_stops_at_the_first_duplicate() {
    let mut manager = EndpointManager::new();
    let result = manager.init_from_config(vec![
        local("one", "echo", true),
        remote("one", "http://h"),
        local("late", "echo", true),
    ]);
    match result {
        Err(ProxyError::ServerAlreadyExists(name)) => assert_eq!(name, "one"),
        other => panic!("expected ServerAlreadyExists, got {:?}", other),
    }
    assert_eq!(manager.list_endpoints().len(), 1);
    assert_eq!(manager.get_endpoint_info("one").unwrap().endpoint_type, EndpointType::Local);
    assert!(manager.get_endpoint_info("late").is_err());
}

#[test]
fn init_refuses_a_path_that_is_taken() {
    let mut manager = EndpointManager::new();
    let mut second = remote("two", "http://h");
    second.path = Some("one".to_string());
    manager.init_endpoint(&local("one", "echo", false)).unwrap();
    match manager.init_endpoint(&second) {
        Err(ProxyError::ServerAlreadyExists(detail)) => assert_eq!(detail, "path one"),
        other => panic!("expected ServerAlreadyExists, got {:?}", other),
    }
    assert!(manager.get_endpoint("two").is_err());
    assert_eq!(manager.get_endpoint_info_by_path("one").unwrap().name, "one");
}

#[test]
fn init_keeps_path_and_filter() {
    let mut manager = EndpointManager::new();
    let mut config = local("svc", "echo", false);
    config.path = Some("route".to_string());
    config.tools = Some(ToolFilter { included: Some(vec!["t".to_string()]), exclude: None });
    manager.init_from_config(vec![config]).unwrap();
    let info = manager.get_endpoint_info_by_path("route").unwrap();
    assert_eq!(info.name, "svc");
    assert_eq!(info.tools.unwrap().included, Some(vec!["t".to_string()]));
    assert_eq!(manager.get_endpoint("svc").unwrap().path(), "route");
    assert!(manager.get_endpoint_info_by_path("svc").is_err());
}

#[test]
fn a_start_goes_through_starting_to_running() {
    let mut manager = EndpointManager::new();
    manager.init_from_config(vec![local("svc", "cat", false)]).unwrap();

    match manager.start_endpoint("svc").unwrap() {
        StartPlan::Spawn { command, args, .. } => {
            assert_eq!(command, "cat");
            assert_eq!(args, vec!["hello".to_string()]);
        }
        other => panic!("expected a spawn, got {:?}", other),
    }
    assert_eq!(status(&manager, "svc"), EndpointStatus::Starting);
    assert!(!manager.get_endpoint("svc").unwrap().is_started());

    manager.finish_start("svc", StartOutcome::Connected(4)).unwrap();
    assert_eq!(status(&manager, "svc"), EndpointStatus::Running);
    assert!(manager.get_endpoint("svc").unwrap().is_started());
    assert!(matches!(manager.get_client("svc").unwrap(), ClientPlan::Cached(4)));
}

#[test]
fn a_stop_goes_through_stopping_to_stopped() {
    let mut manager = EndpointManager::new();
    manager.init_from_config(vec![local("svc", "cat", false)]).unwrap();
    running(&mut manager, "svc", 4);

    assert_eq!(manager.stop_endpoint("svc").unwrap(), 4);
    assert_eq!(status(&manager, "svc"), EndpointStatus::Stopping);
    assert!(!manager.get_endpoint("svc").unwrap().is_started());
    assert!(manager.get_client("svc").is_err());

    manager.finish_stop("svc", Ok(())).unwrap();
    assert_eq!(status(&manager, "svc"), EndpointStatus::Stopped);
}

#[test]
fn a_stop_that_fails_marks_the_endpoint_failed_and_returns_the_error() {
    let mut manager = EndpointManager::new();
    manager.init_from_config(vec![local("svc", "cat", false)]).unwrap();
    running(&mut manager, "svc", 4);
    manager.stop_endpoint("svc").unwrap();

    let result = manager.finish_stop("svc", Err(ProxyError::mcp_client_stop_failed("broken pipe")));
    match result {
        Err(ProxyError::McpProtocol(detail)) => {
            assert_eq!(detail, "Failed to stop MCP client: broken pipe")
        }
        other => panic!("expected the close error, got {:?}", other),
    }
    assert_eq!(status(&manager, "svc"), EndpointStatus::Failed);
    assert!(!manager.get_endpoint("svc").unwrap().is_started());
}

#[test]
fn starting_a_running_endpoint_fails_and_leaves_its_session() {
    let mut manager = EndpointManager::new();
    manager.init_from_config(vec![local("svc", "cat", false)]).unwrap();
    running(&mut manager, "svc", 4);

    match manager.start_endpoint("svc") {
        Err(ProxyError::ServerAlreadyRunning(name)) => assert_eq!(name, "svc"),
        other => panic!("expected ServerAlreadyRunning, got {:?}", other),
    }
    assert_eq!(status(&manager, "svc"), EndpointStatus::Running);
    assert!(matches!(manager.get_client("svc").unwrap(), ClientPlan::Cached(4)));
}

#[test]
fn stopping_a_stopped_endpoint_fails_as_not_running() {
    let mut manager = EndpointManager::new();
    manager.init_from_config(vec![local("svc", "cat", false)]).unwrap();

    match manager.stop_endpoint("svc") {
        Err(ProxyError::ServerNotRunning(name)) => assert_eq!(name, "svc"),
        other => panic!("expected ServerNotRunning, got {:?}", other),
    }
    assert_eq!(status(&manager, "svc"), EndpointStatus::Stopped);
}

#[test]
fn unknown_endpoints_are_not_found() {
    let mut manager = EndpointManager::new();
    let not_found = |result: Result<(), ProxyError>| match result {
        Err(ProxyError::ServerNotFound(name)) => assert_eq!(name, "nonexistent"),
        other => panic!("expected ServerNotFound, got {:?}", other),
    };
    not_found(manager.start_endpoint("nonexistent").map(|_| ()));
    not_found(manager.finish_start("nonexistent", StartOutcome::Connected(1)));
    not_found(manager.stop_endpoint("nonexistent").map(|_| ()));
    not_found(manager.finish_stop("nonexistent", Ok(())));
    not_found(manager.get_client("nonexistent").map(|_| ()));
    not_found(manager.get_endpoint_info("nonexistent").map(|_| ()));
    not_found(manager.get_endpoint("nonexistent").map(|_| ()));
    assert!(manager.get_endpoint_info_by_path("nonexistent").is_err());
}

#[test]
fn clients_are_refused_unless_the_endpoint_runs() {
    let mut manager = EndpointManager::new();
    manager
        .init_from_config(vec![local("svc", "cat", false), remote("far", "http://h")])
        .unwrap();
    let refused = |manager: &EndpointManager, name: &str| match manager.get_client(name) {
        Err(ProxyError::ServerNotRunning(n)) => assert_eq!(n, name),
        other => panic!("expected ServerNotRunning, got {:?}", other),
    };
    refused(&manager, "svc");
    refused(&manager, "far");
    manager.start_endpoint("svc").unwrap();
    refused(&manager, "svc");
    manager.finish_start("svc", StartOutcome::SpawnFailed("gone".to_string())).unwrap_err();
    assert_eq!(status(&manager, "svc"), EndpointStatus::Failed);
    refused(&manager, "svc");
    running(&mut manager, "far", 8);
    assert!(matches!(manager.get_client("far").unwrap(), ClientPlan::Cached(8)));
    manager.stop_endpoint("far").unwrap();
    refused(&manager, "far");
}

#[test]
fn a_failed_endpoint_can_be_started_again_and_not_stopped() {
    let mut manager = EndpointManager::new();
    manager.init_from_config(vec![local("svc", "true", false)]).unwrap();
    manager.start_endpoint("svc").unwrap();
    manager.finish_start("svc", StartOutcome::HandshakeTimedOut).unwrap_err();
    assert_eq!(status(&manager, "svc"), EndpointStatus::Failed);

    match manager.stop_endpoint("svc") {
        Err(ProxyError::ServerNotRunning(name)) => assert_eq!(name, "svc"),
        other => panic!("expected ServerNotRunning, got {:?}", other),
    }
    assert_eq!(status(&manager, "svc"), EndpointStatus::Failed);

    running(&mut manager, "svc", 2);
    assert_eq!(status(&manager, "svc"), EndpointStatus::Running);
}

#[test]
fn an_endpoint_in_transit_takes_no_second_operation() {
    let mut manager = EndpointManager::new();
    manager.init_from_config(vec![local("svc", "cat", false)]).unwrap();

    manager.start_endpoint("svc").unwrap();
    assert!(matches!(manager.start_endpoint("svc"), Err(ProxyError::ServerAlreadyRunning(_))));
    assert!(matches!(manager.stop_endpoint("svc"), Err(ProxyError::ServerNotRunning(_))));
    match manager.finish_stop("svc", Ok(())) {
        Err(ProxyError::Internal(detail)) => assert_eq!(detail, "no stop in progress for svc"),
        other => panic!("expected Internal, got {:?}", other),
    }
    assert_eq!(status(&manager, "svc"), EndpointStatus::Starting);

    manager.finish_start("svc", StartOutcome::Connected(1)).unwrap();
    match manager.finish_start("svc", StartOutcome::Connected(2)) {
        Err(ProxyError::Internal(detail)) => assert_eq!(detail, "no start in progress for svc"),
        other => panic!("expected Internal, got {:?}", other),
    }
    assert!(matches!(manager.get_client("svc").unwrap(), ClientPlan::Cached(1)));

    manager.stop_endpoint("svc").unwrap();
    assert!(matches!(manager.start_endpoint("svc"), Err(ProxyError::ServerAlreadyRunning(_))));
    assert!(matches!(manager.stop_endpoint("svc"), Err(ProxyError::ServerNotRunning(_))));
    assert_eq!(status(&manager, "svc"), EndpointStatus::Stopping);
}

#[test]
fn one_endpoint_does_not_move_another() {
    let mut manager = EndpointManager::new();
    manager
        .init_from_config(vec![local("a", "cat", false), local("b", "cat", false)])
        .unwrap();
    running(&mut manager, "a", 1);
    assert_eq!(status(&manager, "b"), EndpointStatus::Stopped);
    manager.start_endpoint("b").unwrap();
    manager.finish_start("b", StartOutcome::HandshakeTimedOut).unwrap_err();
    assert_eq!(status(&manager, "a"), EndpointStatus::Running);
    assert!(matches!(manager.get_client("a").unwrap(), ClientPlan::Cached(1)));
    assert_eq!(status(&manager, "b"), EndpointStatus::Failed);
}

#[test]
fn a_restart_skips_the_start_where_the_stop_failed() {
    let manager = EndpointManager::new_with_restart_delay(250);
    assert_eq!(manager.restart_endpoint(Ok(())).unwrap(), 250);
    match manager.restart_endpoint(Err(ProxyError::server_not_running("svc"))) {
        Err(ProxyError::ServerNotRunning(name)) => assert_eq!(name, "svc"),
        other => panic!("expected the stop's error, got {:?}", other),
    }
}

#[test]
fn a_restart_brings_a_running_endpoint_back_up() {
    let mut manager = EndpointManager::new_with_restart_delay(1);
    manager.init_from_config(vec![local("svc", "cat", false)]).unwrap();
    running(&mut manager, "svc", 1);

    let session = manager.stop_endpoint("svc").unwrap();
    assert_eq!(session, 1);
    let stopped = manager.finish_stop("svc", Ok(()));
    assert_eq!(manager.restart_endpoint(stopped).unwrap(), 1);
    running(&mut manager, "svc", 2);
    assert_eq!(status(&manager, "svc"), EndpointStatus::Running);
    assert!(matches!(manager.get_client("svc").unwrap(), ClientPlan::Cached(2)));
}

#[test]
fn shutdown_stops_the_local_endpoints_only() {
    let mut manager = EndpointManager::new();
    manager
        .init_from_config(vec![
            local("l1", "cat", false),
            remote("r1", "http://h"),
            local("l2", "cat", false),
            remote("r2", "http://g"),
        ])
        .unwrap();
    running(&mut manager, "r1", 1);
    running(&mut manager, "l2", 2);
    let mut names = manager.shutdown();
    names.sort();
    assert_eq!(names, vec!["l1".to_string(), "l2".to_string()]);
}

#[test]
fn two_endpoints_that_cannot_start_both_end_failed_and_stay_listed() {
    let mut manager = EndpointManager::new();
    manager
        .init_from_config(vec![
            local("svc-a", "sleep", false),
            remote("svc-b", "http://127.0.0.1:1"),
        ])
        .unwrap();

    assert!(matches!(manager.start_endpoint("svc-a").unwrap(), StartPlan::Spawn { .. }));
    let failed_a = manager.finish_start("svc-a", StartOutcome::HandshakeTimedOut).unwrap_err();
    assert!(failed_a.is_handshake_timeout());
    assert!(matches!(manager.start_endpoint("svc-b").unwrap(), StartPlan::Connect { .. }));
    let failed_b = manager
        .finish_start("svc-b", StartOutcome::HandshakeFailed("connection refused".to_string()))
        .unwrap_err();
    assert!(matches!(failed_b, ProxyError::McpProtocol(_)));
    assert!(!failed_b.is_handshake_timeout());

    assert_eq!(status(&manager, "svc-a"), EndpointStatus::Failed);
    assert_eq!(status(&manager, "svc-b"), EndpointStatus::Failed);
    for name in ["svc-a", "svc-b"] {
        match manager.get_client(name) {
            Err(ProxyError::ServerNotRunning(n)) => assert_eq!(n, name),
            other => panic!("expected ServerNotRunning, got {:?}", other),
        }
    }

    let mut listed: Vec<(String, String, EndpointType, EndpointStatus)> = manager
        .list_endpoints()
        .into_iter()
        .map(|info| (info.name, info.path, info.endpoint_type, info.status))
        .collect();
    listed.sort_by(|a, b| a.0.cmp(&b.0));
    assert_eq!(
        listed,
        vec![
            ("svc-a".to_string(), "svc-a".to_string(), EndpointType::Local, EndpointStatus::Failed),
            ("svc-b".to_string(), "svc-b".to_string(), EndpointType::Remote, EndpointStatus::Failed),
        ]
    );
}

#[test]
fn a_command_that_exits_at_once_ends_failed_never_running() {
    let mut manager = EndpointManager::new();
    manager.init_from_config(vec![local("test-exit", "true", false)]).unwrap();
    manager.start_endpoint("test-exit").unwrap();
    assert_eq!(status(&manager, "test-exit"), EndpointStatus::Starting);
    let error = manager
        .finish_start("test-exit", StartOutcome::HandshakeFailed("connection closed".to_string()))
        .unwrap_err();
    assert!(!error.is_handshake_timeout());
    assert_eq!(status(&manager, "test-exit"), EndpointStatus::Failed);
    assert!(!manager.get_endpoint("test-exit").unwrap().is_started());
}
