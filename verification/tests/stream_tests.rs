use mcp_monitor::events::{EventBus, RecvOutcome, SystemEvent};
use mcp_monitor::wire::{
    event_name, format_tool_call, sse_frame, sse_step, ws_event_json, ws_step, StreamDirective,
};
use mcp_monitor::AppState;

fn rfc3339_quoted(ms: i64) -> String {
    let rendered = chrono::DateTime::from_timestamp_millis(ms)
        .unwrap()
        .to_rfc3339();
    serde_json::to_string(&rendered).unwrap()
}

fn hms(ms: i64) -> String {
    chrono::DateTime::from_timestamp_millis(ms)
        .unwrap()
        .format("%H:%M:%S")
        .to_string()
}

#[test]
fn test_event_names() {
    assert_eq!(event_name(&SystemEvent::McpConnected), "mcp_connected");
    assert_eq!(event_name(&SystemEvent::McpDisconnected), "mcp_disconnected");
    assert_eq!(
        event_name(&SystemEvent::ToolCalled {
            name: "x".to_string(),
            id: 1
        }),
        "tool_called"
    );
    assert_eq!(
        event_name(&SystemEvent::ResourceAccessed {
            uri: "config://server".to_string()
        }),
        "resource_accessed"
    );
    assert_eq!(
        event_name(&SystemEvent::Error {
            message: "m".to_string()
        }),
        "error"
    );
    assert_eq!(event_name(&SystemEvent::Custom("{}".to_string())), "custom");
}

#[test]
fn test_ws_json_exact() {
    let json = ws_event_json(&SystemEvent::McpConnected, 0);
    let expected = format!(
        "{{\"type\":\"mcp_connected\",\"timestamp\":{}}}",
        rfc3339_quoted(0)
    );
    assert_eq!(json, expected);

    let json = ws_event_json(
        &SystemEvent::Error {
            message: "it \"broke\"".to_string(),
        },
        1_700_000_000_000,
    );
    let expected = format!(
        "{{\"type\":\"error\",\"message\":{},\"timestamp\":{}}}",
        serde_json::to_string("it \"broke\"").unwrap(),
        rfc3339_quoted(1_700_000_000_000)
    );
    assert_eq!(json, expected);
}

#[test]
fn test_ws_json_tool_called() {
    let id: u128 = 0x936da01f9abd4d9d80c702af85c822a8;
    let json = ws_event_json(
        &SystemEvent::ToolCalled {
            name: "echo".to_string(),
            id,
        },
        0,
    );
    let id_str = uuid::Uuid::from_u128(id).to_string();
    let expected = format!(
        "{{\"type\":\"tool_called\",\"name\":\"echo\",\"id\":\"{}\",\"timestamp\":{}}}",
        id_str,
        rfc3339_quoted(0)
    );
    assert_eq!(json, expected);
}

#[test]
fn test_custom_event_passthrough() {
    // A payload that parses as JSON is re-rendered compactly and passed on.
    let json = ws_event_json(
        &SystemEvent::Custom("{\"a\": 1, \"b\": [true]}".to_string()),
        0,
    );
    assert_eq!(json, "{\"a\":1,\"b\":[true]}");

    // A payload that does not parse is wrapped.
    let json = ws_event_json(&SystemEvent::Custom("not json".to_string()), 0);
    let expected = format!(
        "{{\"type\":\"custom\",\"payload\":\"not json\",\"timestamp\":{}}}",
        rfc3339_quoted(0)
    );
    assert_eq!(json, expected);
}

// Publishing a tool event must reach an SSE subscriber as a frame that names
// the event, carries the tool name in its JSON, and repeats the name and the
// identifier in the hypermedia fragment.
#[test]
fn test_sse_tool_called_frame() {
    let mut state = AppState::new();
    let rx = state.subscribe_to_events();
    let id: u128 = 0x00112233445566778899aabbccddeeff;

    state
        .send_event(SystemEvent::ToolCalled {
            name: "echo".to_string(),
            id,
        })
        .unwrap();

    let event = match state.recv_event(rx) {
        RecvOutcome::Event(e) => e,
        other => panic!("expected an event, got {:?}", other),
    };

    let frame = sse_frame(&event, 0);
    assert!(frame.starts_with("event: tool_called\ndata: "));
    assert!(frame.ends_with("\n\n"));
    assert!(frame.contains("\"name\":\"echo\""));
    assert!(frame.contains("\"html\":"));

    let id_str = uuid::Uuid::from_u128(id).to_string();
    // The fragment repeats the tool name and the identifier's string form.
    let data_line = frame.lines().nth(1).unwrap();
    let data = data_line.strip_prefix("data: ").unwrap();
    let parsed: serde_json::Value = serde_json::from_str(data).unwrap();
    let html = parsed["html"].as_str().unwrap();
    assert!(html.contains("echo"));
    assert!(html.contains(&id_str));
}

#[test]
fn test_sse_frame_exact() {
    let frame = sse_frame(
        &SystemEvent::Error {
            message: "boom".to_string(),
        },
        0,
    );
    let html = format!(
        "<div class=\"alert alert-error\"><span class=\"timestamp\">{}</span><span class=\"message\">Error: boom</span></div>",
        hms(0)
    );
    let expected = format!(
        "event: error\ndata: {{\"type\":\"error\",\"message\":\"boom\",\"timestamp\":{},\"html\":{}}}\n\n",
        rfc3339_quoted(0),
        serde_json::to_string(&html).unwrap()
    );
    assert_eq!(frame, expected);
}

// A subscriber that registers after events were published observes none of
// them, then every subsequent event in publish order.
#[test]
fn test_subscriber_sees_only_later_events() {
    let mut bus = EventBus::new(16);

    let early = state_events(3);
    for e in early {
        bus.publish(&e);
    }

    let rx = bus.subscribe();
    assert!(matches!(bus.recv(rx), RecvOutcome::Empty));

    bus.publish(&SystemEvent::McpConnected);
    bus.publish(&SystemEvent::Error {
        message: "later".to_string(),
    });

    assert!(matches!(
        bus.recv(rx),
        RecvOutcome::Event(SystemEvent::McpConnected)
    ));
    match bus.recv(rx) {
        RecvOutcome::Event(SystemEvent::Error { message }) => assert_eq!(message, "later"),
        other => panic!("expected the second event, got {:?}", other),
    }
    assert!(matches!(bus.recv(rx), RecvOutcome::Empty));
}

fn state_events(n: usize) -> Vec<SystemEvent> {
    (0..n)
        .map(|i| SystemEvent::ResourceAccessed {
            uri: format!("res://{i}"),
        })
        .collect()
}

// A subscriber that falls behind the bound has its oldest events dropped and
// is told how many it missed; other subscribers are unaffected.
#[test]
fn test_lossy_backpressure() {
    let mut bus = EventBus::new(2);
    let slow = bus.subscribe();
    let fast = bus.subscribe();

    for e in state_events(3) {
        bus.publish(&e);
    }

    // The slow subscriber first learns that one event was dropped on it.
    assert!(matches!(bus.recv(slow), RecvOutcome::Lagged(1)));
    match bus.recv(slow) {
        RecvOutcome::Event(SystemEvent::ResourceAccessed { uri }) => assert_eq!(uri, "res://1"),
        other => panic!("expected the second event, got {:?}", other),
    }
    match bus.recv(slow) {
        RecvOutcome::Event(SystemEvent::ResourceAccessed { uri }) => assert_eq!(uri, "res://2"),
        other => panic!("expected the third event, got {:?}", other),
    }

    // Drain the other subscriber: it lagged independently.
    assert!(matches!(bus.recv(fast), RecvOutcome::Lagged(1)));
}

#[test]
fn test_unsubscribe_releases_slot() {
    let mut bus = EventBus::new(4);
    let rx = bus.subscribe();
    assert_eq!(bus.subscriber_count(), 1);

    bus.unsubscribe(rx);
    assert_eq!(bus.subscriber_count(), 0);
    assert!(matches!(bus.recv(rx), RecvOutcome::Closed));

    // Publishing with no live subscribers is a no-op.
    assert_eq!(bus.publish(&SystemEvent::McpConnected), 0);
}

#[test]
fn test_stream_steps() {
    // SSE: a lagging or dead subscription ends the stream; an empty queue
    // just waits.
    assert!(matches!(
        sse_step(&RecvOutcome::Lagged(3), 0),
        StreamDirective::Stop
    ));
    assert!(matches!(
        sse_step(&RecvOutcome::Closed, 0),
        StreamDirective::Stop
    ));
    assert!(matches!(
        sse_step(&RecvOutcome::Empty, 0),
        StreamDirective::Idle
    ));
    match sse_step(&RecvOutcome::Event(SystemEvent::McpConnected), 0) {
        StreamDirective::Emit(frame) => assert!(frame.starts_with("event: mcp_connected\n")),
        other => panic!("expected a frame, got {:?}", other),
    }

    // WebSocket: a lag is tolerated, only a dead subscription ends the
    // stream.
    assert!(matches!(
        ws_step(&RecvOutcome::Lagged(3), 0),
        StreamDirective::Idle
    ));
    assert!(matches!(
        ws_step(&RecvOutcome::Closed, 0),
        StreamDirective::Stop
    ));
    match ws_step(&RecvOutcome::Event(SystemEvent::McpDisconnected), 0) {
        StreamDirective::Emit(json) => {
            assert!(json.starts_with("{\"type\":\"mcp_disconnected\""))
        }
        other => panic!("expected a frame, got {:?}", other),
    }
}

#[test]
fn test_format_tool_call_rendering() {
    let mut call = mcp_monitor::history::ToolCall::new("echo".to_string(), "{}".to_string());
    call.timestamp = 0;

    let pending = format_tool_call(&call);
    assert_eq!(pending.name, "echo");
    assert_eq!(pending.duration_ms, "pending");
    assert_eq!(pending.formatted_timestamp, hms(0));
    assert_eq!(pending.status_class, "error");
    assert!(!pending.success);
    assert_eq!(pending.error, "Unknown error");
    assert!(!pending.has_error);
    assert_eq!(pending.result_string, "No result");
    assert!(!pending.has_result);

    let mut done = call.complete(
        mcp_monitor::history::ToolCallResult::Success("{\"ok\":true}".to_string()),
        42,
    );
    done.timestamp = 0;
    let rendered = format_tool_call(&done);
    assert_eq!(rendered.duration_ms, "42ms");
    assert_eq!(rendered.status_class, "success");
    assert!(rendered.success);
    assert!(rendered.has_result);
    assert_eq!(rendered.result_string, "{\"ok\":true}");
}
