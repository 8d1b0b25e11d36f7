use mcp_monitor::events::{RecvOutcome, SystemEvent};
use mcp_monitor::history::{CallHistory, ToolCall, ToolCallResult};
use mcp_monitor::metrics::MetricValue;
use mcp_monitor::session::SessionInfo;
use mcp_monitor::status::{McpStatus, ServerInfo};
use mcp_monitor::AppState;

#[test]
fn test_app_state_creation() {
    let state = AppState::new();

    assert!(state.get_status().connected);
    assert_eq!(state.active_sessions.len(), 0);
    assert_eq!(state.tool_calls.len(), 0);
}

#[test]
fn test_state_management() {
    let state = AppState::new();

    assert!(state.get_status().connected);
    assert_eq!(state.active_sessions.len(), 0);
    assert_eq!(state.get_tool_calls(10).len(), 0);
}

#[test]
fn test_tool_call_recording() {
    let mut state = AppState::new();
    let tool_call = ToolCall::new("test_tool".to_string(), "{\"arg\":\"value\"}".to_string());

    state.record_tool_call(tool_call).unwrap();

    let calls = state.get_tool_calls(10);
    assert_eq!(calls.len(), 1);
    assert_eq!(calls[0].name, "test_tool");
    assert_eq!(calls[0].tool_name, "test_tool");

    // The derived metric counter for the tool is at 1.
    let metric = state.metrics.get("tool_calls_test_tool").unwrap();
    assert!(matches!(metric, MetricValue::Counter(1)));
}

#[test]
fn test_event_broadcasting() {
    let mut state = AppState::new();
    let rx = state.subscribe_to_events();

    state.send_event(SystemEvent::McpConnected).unwrap();

    match state.recv_event(rx) {
        RecvOutcome::Event(received) => {
            assert!(matches!(received, SystemEvent::McpConnected));
        }
        other => panic!("expected an event, got {:?}", other),
    }
}

#[test]
fn test_metrics_collection() {
    let mut state = AppState::new();

    state.update_metric("test_counter", MetricValue::Counter(1));
    state.update_metric("test_gauge", MetricValue::Gauge(42.0f64.to_bits()));
    state.update_metric(
        "test_histogram",
        MetricValue::Histogram(vec![1.0f64.to_bits(), 2.0f64.to_bits(), 3.0f64.to_bits()]),
    );

    let metrics = state.get_metrics();
    assert_eq!(metrics.len(), 3);

    assert!(matches!(
        state.metrics.get("test_counter"),
        Some(MetricValue::Counter(1))
    ));
    match state.metrics.get("test_gauge") {
        Some(MetricValue::Gauge(bits)) => assert_eq!(f64::from_bits(bits), 42.0),
        other => panic!("expected a gauge, got {:?}", other),
    }
    match state.metrics.get("test_histogram") {
        Some(MetricValue::Histogram(values)) => {
            assert_eq!(values.len(), 3);
            assert_eq!(f64::from_bits(values[2]), 3.0);
        }
        other => panic!("expected a histogram, got {:?}", other),
    }
}

#[test]
fn test_concurrent_operations() {
    let mut state = AppState::new();

    for i in 0..10u64 {
        let tool_call = ToolCall::new(format!("tool_{i}"), format!("{{\"id\":{i}}}"));
        state.add_tool_call(tool_call);
        state.update_metric(&format!("counter_{i}"), MetricValue::Counter(i));
    }

    let tool_calls = state.get_tool_calls(10);
    assert_eq!(tool_calls.len(), 10);

    let metrics = state.get_metrics();
    assert_eq!(metrics.len(), 10);

    let mut ids = std::collections::HashSet::new();
    for call in &tool_calls {
        assert!(ids.insert(call.id));
    }
}

#[test]
fn test_concurrent_access() {
    let mut state = AppState::new();

    for i in 0..10u64 {
        let tool_call = ToolCall::new(format!("tool_{i}"), format!("{{\"id\":{i}}}"));
        state.record_tool_call(tool_call).unwrap();

        let session = SessionInfo::new();
        state.active_sessions.upsert(session.id, session);
    }

    assert_eq!(state.get_tool_calls(20).len(), 10);
    assert_eq!(state.active_sessions.len(), 10);
}

// With N recordings carrying distinct identifiers, the history holds N
// records and the identifiers stay distinct.
#[test]
fn test_distinct_recordings_kept_whole() {
    let mut state = AppState::new();

    for i in 0..25u128 {
        let mut call = ToolCall::new("burst".to_string(), "{}".to_string());
        call.id = i;
        state.record_tool_call(call).unwrap();
    }

    let calls = state.get_tool_calls(25);
    assert_eq!(calls.len(), 25);
    let mut ids = std::collections::HashSet::new();
    for call in &calls {
        assert!(ids.insert(call.id));
    }
}

// N unit increments on a counter lose no update.
#[test]
fn test_counter_increments_accumulate() {
    let mut state = AppState::new();
    state.update_metric("requests", MetricValue::Counter(5));

    for _ in 0..100 {
        state.metrics.increment("requests", 1);
    }

    assert!(matches!(
        state.metrics.get("requests"),
        Some(MetricValue::Counter(105))
    ));
}

#[test]
fn test_session_management() {
    let mut state = AppState::new();

    let session1 = SessionInfo::new();
    let session2 = SessionInfo::new();
    let session1_id = session1.id;
    let session2_id = session2.id;

    state.active_sessions.upsert(session1_id, session1);
    state.active_sessions.upsert(session2_id, session2);

    assert_eq!(state.active_sessions.len(), 2);
    assert!(state.active_sessions.contains_key(session1_id));
    assert!(state.active_sessions.contains_key(session2_id));

    state.active_sessions.update_in_place(session1_id, 1_700_000_000_000);
    let updated = state.active_sessions.get(session1_id).unwrap();
    assert_eq!(updated.request_count, 1);
    assert_eq!(updated.last_activity, 1_700_000_000_000);

    state.active_sessions.remove(session1_id);
    state.active_sessions.remove(session2_id);
    assert_eq!(state.active_sessions.len(), 0);
}

#[test]
fn test_mcp_status_update() {
    let mut state = AppState::new();

    let new_status = McpStatus {
        connected: true,
        last_heartbeat: Some(1_700_000_000_000),
        capabilities: vec!["tools".to_string()],
        server_info: ServerInfo {
            name: "test-server".to_string(),
            version: "1.0.0".to_string(),
        },
        started_at: 1_700_000_000_000,
    };

    state.mcp_status.store(new_status);

    let current_status = state.mcp_status.load();
    assert!(current_status.connected);
    assert_eq!(current_status.server_info.name, "test-server");
}

#[test]
fn test_mcp_status_updates() {
    let mut state = AppState::new();

    let new_status = McpStatus {
        connected: true,
        started_at: 1_700_000_000_000,
        last_heartbeat: Some(1_700_000_000_500),
        capabilities: vec!["tools".to_string(), "resources".to_string()],
        server_info: ServerInfo {
            name: "test-server".to_string(),
            version: "1.0.0".to_string(),
        },
    };

    state.mcp_status.store(new_status);

    let current_status = state.mcp_status.load();
    assert!(current_status.connected);
    assert_eq!(current_status.server_info.name, "test-server");
    assert_eq!(current_status.server_info.version, "1.0.0");
    assert_eq!(current_status.capabilities.len(), 2);
}

// A load returns the last stored snapshot whole: no field mixes with the
// snapshot stored before it.
#[test]
fn test_status_snapshot_never_torn() {
    let mut state = AppState::new();

    let first = McpStatus {
        connected: false,
        last_heartbeat: None,
        capabilities: vec!["alpha".to_string()],
        server_info: ServerInfo {
            name: "first".to_string(),
            version: "1".to_string(),
        },
        started_at: 100,
    };
    state.mcp_status.store(first);

    let second = McpStatus {
        connected: true,
        last_heartbeat: Some(200),
        capabilities: vec!["beta".to_string(), "gamma".to_string()],
        server_info: ServerInfo {
            name: "second".to_string(),
            version: "2".to_string(),
        },
        started_at: 200,
    };
    state.mcp_status.store(second);

    let loaded = state.mcp_status.load();
    assert!(loaded.connected);
    assert_eq!(loaded.last_heartbeat, Some(200));
    assert_eq!(loaded.capabilities, vec!["beta".to_string(), "gamma".to_string()]);
    assert_eq!(loaded.server_info.name, "second");
    assert_eq!(loaded.server_info.version, "2");
    assert_eq!(loaded.started_at, 200);
}

#[test]
fn test_tool_call_lifecycle() {
    let mut state = AppState::new();

    let tool_call = ToolCall::new("test_tool".to_string(), "{\"param\":\"value\"}".to_string());

    assert_eq!(tool_call.name, "test_tool");
    assert_eq!(tool_call.tool_name, "test_tool");
    assert!(!tool_call.success);
    assert!(tool_call.error.is_none());
    assert!(tool_call.result.is_none());

    let completed_call = tool_call.complete(
        ToolCallResult::Success("{\"result\":\"success\"}".to_string()),
        150,
    );

    assert!(completed_call.success);
    assert!(completed_call.error.is_none());
    assert!(completed_call.result.is_some());
    assert_eq!(completed_call.duration_ms, Some(150));

    state.add_tool_call(completed_call);

    let tool_calls = state.get_tool_calls(10);
    assert_eq!(tool_calls.len(), 1);
    assert!(tool_calls[0].success);
}

#[test]
fn test_error_handling() {
    let mut state = AppState::new();

    let failed_call = ToolCall::new(
        "failing_tool".to_string(),
        "{\"invalid\":\"params\"}".to_string(),
    )
    .complete(
        ToolCallResult::Error("Tool execution failed".to_string()),
        200,
    );

    assert!(!failed_call.success);
    assert!(failed_call.error.is_some());
    assert_eq!(failed_call.error.as_ref().unwrap(), "Tool execution failed");

    state.add_tool_call(failed_call);

    let tool_calls = state.get_tool_calls(10);
    assert_eq!(tool_calls.len(), 1);
    assert!(!tool_calls[0].success);
    assert!(tool_calls[0].error.is_some());
}

// Recording a record whose outcome is an error still succeeds, stores the
// failure, and counts the call.
#[test]
fn test_failed_call_recorded_and_counted() {
    let mut state = AppState::new();

    let call = ToolCall::new("echo".to_string(), "{}".to_string())
        .complete(ToolCallResult::Error("boom".to_string()), 7);
    state.record_tool_call(call).unwrap();

    let calls = state.get_tool_calls(1);
    assert_eq!(calls.len(), 1);
    assert!(!calls[0].success);
    assert_eq!(calls[0].error.as_deref(), Some("boom"));
    assert!(calls[0].result_string.is_none());

    let metric = state.metrics.get("tool_calls_echo").unwrap();
    assert!(matches!(metric, MetricValue::Counter(1)));
}

#[test]
fn test_history_retention_cap() {
    let mut history = CallHistory::with_cap(2);

    let mut first = ToolCall::new("a".to_string(), "{}".to_string());
    first.id = 1;
    let mut second = ToolCall::new("b".to_string(), "{}".to_string());
    second.id = 2;
    let mut third = ToolCall::new("c".to_string(), "{}".to_string());
    third.id = 3;

    history.append(first);
    history.append(second);
    history.append(third);

    assert_eq!(history.len(), 2);
    let recent = history.recent(2);
    // Newest first; the oldest record was evicted.
    assert_eq!(recent[0].id, 3);
    assert_eq!(recent[1].id, 2);
}

#[test]
fn test_get_events_is_empty() {
    let state = AppState::new();
    assert!(state.get_events(100).is_empty());
}

#[test]
fn test_send_event_details_folds_tool_activity() {
    let mut state = AppState::new();
    let rx = state.subscribe_to_events();

    let details = mcp_monitor::events::SystemEventDetails {
        id: 9,
        event_type: "file_read".to_string(),
        description: "a file was read".to_string(),
        timestamp: 0,
        metadata: "{}".to_string(),
    };
    state.send_event_details(details).unwrap();

    match state.recv_event(rx) {
        RecvOutcome::Event(SystemEvent::ToolCalled { name, id }) => {
            assert_eq!(name, "file_read");
            assert_eq!(id, 9);
        }
        other => panic!("expected a tool event, got {:?}", other),
    }

    let details = mcp_monitor::events::SystemEventDetails {
        id: 10,
        event_type: "mystery".to_string(),
        description: "something odd".to_string(),
        timestamp: 0,
        metadata: "{}".to_string(),
    };
    state.send_event_details(details).unwrap();

    match state.recv_event(rx) {
        RecvOutcome::Event(SystemEvent::Error { message }) => {
            assert_eq!(message, "something odd");
        }
        other => panic!("expected an error event, got {:?}", other),
    }
}

#[test]
fn test_send_event_without_subscribers_returns_event() {
    let mut state = AppState::new();
    let result = state.send_event(SystemEvent::McpDisconnected);
    match result {
        Err(SystemEvent::McpDisconnected) => {}
        other => panic!("expected the event back, got {:?}", other),
    }
}

#[test]
fn test_record_heartbeat() {
    let mut state = AppState::new();
    let before = state.get_status();

    state.record_heartbeat(1_700_000_000_000);

    let after = state.get_status();
    assert!(after.connected);
    assert_eq!(after.last_heartbeat, Some(1_700_000_000_000));
    assert_eq!(after.started_at, before.started_at);
    assert_eq!(after.capabilities, before.capabilities);
    assert_eq!(after.server_info.name, before.server_info.name);
}

#[test]
fn test_success_count() {
    let mut state = AppState::new();
    assert_eq!(state.tool_calls.success_count(), 0);

    let good = ToolCall::new("a".to_string(), "{}".to_string())
        .complete(ToolCallResult::Success("1".to_string()), 1);
    let bad = ToolCall::new("b".to_string(), "{}".to_string())
        .complete(ToolCallResult::Error("no".to_string()), 1);
    let also_good = ToolCall::new("c".to_string(), "{}".to_string())
        .complete(ToolCallResult::Success("2".to_string()), 1);

    state.add_tool_call(good);
    state.add_tool_call(bad);
    state.add_tool_call(also_good);

    assert_eq!(state.tool_calls.success_count(), 2);
}
