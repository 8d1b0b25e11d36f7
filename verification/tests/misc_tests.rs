use mcp_monitor::config::Config;
use mcp_monitor::errors::McpServerError;
use mcp_monitor::metrics::{MetricStore, MetricValue};
use mcp_monitor::numfmt::{format_duration, i64_to_string, u64_to_string};
use mcp_monitor::reload::{classify_reload_path, BrowserReloadMessage, ReloadEvent};
use mcp_monitor::search::{
    default_case_sensitive, default_max_results, FileSearchInput, FileSearchTool,
};
use mcp_monitor::session::SessionInfo;

#[test]
fn test_number_rendering() {
    assert_eq!(u64_to_string(0), "0");
    assert_eq!(u64_to_string(7), "7");
    assert_eq!(u64_to_string(10), "10");
    assert_eq!(u64_to_string(12345), "12345");
    assert_eq!(u64_to_string(u64::MAX), "18446744073709551615");
    assert_eq!(i64_to_string(-1), "-1");
    assert_eq!(i64_to_string(i64::MIN), "-9223372036854775808");
    assert_eq!(i64_to_string(i64::MAX), "9223372036854775807");
}

#[test]
fn test_format_duration_renderings() {
    assert_eq!(format_duration(0), "0s");
    assert_eq!(format_duration(42), "42s");
    assert_eq!(format_duration(59), "59s");
    assert_eq!(format_duration(60), "1m 0s");
    assert_eq!(format_duration(185), "3m 5s");
    assert_eq!(format_duration(3599), "59m 59s");
    assert_eq!(format_duration(3600), "1h 0m");
    assert_eq!(format_duration(7800), "2h 10m");
    assert_eq!(format_duration(86399), "23h 59m");
    assert_eq!(format_duration(86400), "1d 0h");
    assert_eq!(format_duration(363600), "4d 5h");
    assert_eq!(format_duration(-5), "-5s");
}

#[test]
fn test_error_codes() {
    assert_eq!(
        McpServerError::FileSystem("x".to_string()).error_code(),
        "FILESYSTEM_ERROR"
    );
    assert_eq!(McpServerError::Http("x".to_string()).error_code(), "HTTP_ERROR");
    assert_eq!(McpServerError::Timeout.error_code(), "TIMEOUT");
    assert_eq!(
        McpServerError::FileSizeLimit { limit: 1 }.error_code(),
        "FILE_SIZE_LIMIT"
    );
    assert_eq!(
        McpServerError::RateLimit {
            endpoint: "ws".to_string()
        }
        .error_code(),
        "RATE_LIMIT"
    );
    assert_eq!(
        McpServerError::Config("x".to_string()).error_code(),
        "CONFIGURATION_ERROR"
    );
    assert_eq!(
        McpServerError::PromptNotFound {
            name: "p".to_string()
        }
        .error_code(),
        "PROMPT_NOT_FOUND"
    );
    assert_eq!(
        McpServerError::Internal("x".to_string()).error_code(),
        "INTERNAL_ERROR"
    );
}

#[test]
fn test_error_classification() {
    assert!(McpServerError::InvalidArguments("x".to_string()).is_user_error());
    assert!(McpServerError::FileSizeLimit { limit: 1 }.is_user_error());
    assert!(!McpServerError::Timeout.is_user_error());
    assert!(!McpServerError::Internal("x".to_string()).is_user_error());

    assert!(McpServerError::Http("x".to_string()).is_retryable());
    assert!(McpServerError::Timeout.is_retryable());
    assert!(McpServerError::RateLimit {
        endpoint: "ws".to_string()
    }
    .is_retryable());
    assert!(!McpServerError::InvalidPath("x".to_string()).is_retryable());
}

#[test]
fn test_error_messages() {
    assert_eq!(
        McpServerError::FileSystem("denied".to_string()).message(),
        "File system operation failed: denied"
    );
    assert_eq!(McpServerError::Timeout.message(), "Tool execution timeout");
    assert_eq!(
        McpServerError::FileSizeLimit { limit: 1048576 }.message(),
        "File size limit exceeded: 1048576 bytes"
    );
    assert_eq!(
        McpServerError::PromptNotFound {
            name: "debug".to_string()
        }
        .message(),
        "Prompt not found: debug"
    );
}

#[test]
fn test_config_default_values() {
    let config = Config::default();
    assert_eq!(config.server.dashboard_port, 8080);
    assert_eq!(config.server.dashboard_host, "0.0.0.0");
    assert_eq!(config.server.log_level, "info");
    assert_eq!(config.security.max_tool_execution_time_ms, 30000);
    assert_eq!(config.security.max_concurrent_tool_calls, 10);
    assert_eq!(config.security.max_file_size_bytes, 10 * 1024 * 1024);
    assert_eq!(config.security.allowed_file_extensions.len(), 7);
    assert_eq!(
        config.security.websocket_allowed_origins,
        vec![
            "http://localhost:8080".to_string(),
            "http://127.0.0.1:8080".to_string()
        ]
    );
    assert_eq!(config.rate_limiting.requests_per_minute, 60);
    assert_eq!(config.rate_limiting.burst_size, 10);
    assert_eq!(config.resource_limits.max_http_response_size_bytes, 5 * 1024 * 1024);
    assert_eq!(config.resource_limits.http_timeout_seconds, 30);
    assert!(!config.development.enable_cors);
    assert!(!config.development.enable_debug_routes);
    assert_eq!(config.development.hot_reload_debounce_ms, 500);
}

fn config_error_message(config: &Config) -> String {
    match config.validate() {
        Err(McpServerError::Config(message)) => message,
        other => panic!("expected a configuration error, got {:?}", other),
    }
}

#[test]
fn test_config_validation() {
    let config = Config::default();
    assert!(config.validate().is_ok());

    let mut config = Config::default();
    config.server.dashboard_port = 0;
    assert_eq!(
        config_error_message(&config),
        "Dashboard port must be between 1 and 65535"
    );

    let mut config = Config::default();
    config.security.max_tool_execution_time_ms = 0;
    assert_eq!(
        config_error_message(&config),
        "Tool execution timeout must be greater than 0"
    );

    let mut config = Config::default();
    config.resource_limits.http_timeout_seconds = 0;
    assert_eq!(
        config_error_message(&config),
        "HTTP timeout must be greater than 0"
    );

    let mut config = Config::default();
    config.security.max_file_size_bytes = 200 * 1024 * 1024;
    assert_eq!(config_error_message(&config), "Max file size cannot exceed 100MB");

    let mut config = Config::default();
    config.rate_limiting.requests_per_minute = 0;
    assert_eq!(
        config_error_message(&config),
        "Rate limit requests per minute must be greater than 0"
    );

    let mut config = Config::default();
    config.rate_limiting.burst_size = 0;
    assert_eq!(
        config_error_message(&config),
        "Rate limit burst size must be greater than 0"
    );
}

#[test]
fn test_file_type_categorization() {
    assert_eq!(
        classify_reload_path("src/main.rs"),
        Some(ReloadEvent::BackendChanged)
    );
    assert_eq!(
        classify_reload_path("static/app.js"),
        Some(ReloadEvent::FrontendChanged)
    );
    assert_eq!(
        classify_reload_path("static/app.ts"),
        Some(ReloadEvent::FrontendChanged)
    );
    assert_eq!(
        classify_reload_path("static/site.css"),
        Some(ReloadEvent::FrontendChanged)
    );
    assert_eq!(
        classify_reload_path("templates/index.html"),
        Some(ReloadEvent::FrontendChanged)
    );
    assert_eq!(
        classify_reload_path("templates/status.askama"),
        Some(ReloadEvent::FrontendChanged)
    );
    assert_eq!(classify_reload_path("notes.txt"), None);
    assert_eq!(classify_reload_path("README.md"), None);
    assert_eq!(classify_reload_path("server.log"), None);
}

#[test]
fn test_reload_event_types() {
    let frontend_event = ReloadEvent::FrontendChanged;
    let backend_event = ReloadEvent::BackendChanged;

    let frontend_clone = frontend_event.clone();
    let backend_clone = backend_event.clone();
    assert_eq!(frontend_event, frontend_clone);
    assert_eq!(backend_event, backend_clone);

    let frontend_debug = format!("{frontend_event:?}");
    let backend_debug = format!("{backend_event:?}");
    assert!(frontend_debug.contains("FrontendChanged"));
    assert!(backend_debug.contains("BackendChanged"));
}

#[test]
fn test_browser_reload_message() {
    let reload_msg = BrowserReloadMessage::reload();
    assert_eq!(reload_msg.kind, "reload");
    assert_eq!(reload_msg.action, "refresh");
}

#[test]
fn test_metric_store_operations() {
    let mut store = MetricStore::new();

    // A counter starts from zero and accumulates.
    store.increment("calls", 1);
    store.increment("calls", 2);
    assert!(matches!(store.get("calls"), Some(MetricValue::Counter(3))));

    // A gauge is replaced with the latest reading.
    store.set_gauge("load", 0.5f64.to_bits());
    store.set_gauge("load", 0.75f64.to_bits());
    match store.get("load") {
        Some(MetricValue::Gauge(bits)) => assert_eq!(f64::from_bits(bits), 0.75),
        other => panic!("expected a gauge, got {:?}", other),
    }

    // A histogram appends every observation; its current value is the most
    // recent entry.
    store.observe("latency", 1.0f64.to_bits());
    store.observe("latency", 2.5f64.to_bits());
    match store.get("latency") {
        Some(MetricValue::Histogram(values)) => {
            assert_eq!(values.len(), 2);
            assert_eq!(f64::from_bits(values[1]), 2.5);
        }
        other => panic!("expected a histogram, got {:?}", other),
    }

    // Incrementing a name bound to a non-counter restarts from zero: the
    // name's tag changed type, and the counter path treats that as empty.
    store.increment("load", 1);
    assert!(matches!(store.get("load"), Some(MetricValue::Counter(1))));

    assert_eq!(store.len(), 3);
}

#[test]
fn test_counter_saturates() {
    let mut store = MetricStore::new();
    store.set("near_max", MetricValue::Counter(u64::MAX - 1));
    store.increment("near_max", 5);
    assert!(matches!(
        store.get("near_max"),
        Some(MetricValue::Counter(u64::MAX))
    ));
}

#[test]
fn test_session_touch() {
    let mut session = SessionInfo::new();
    assert_eq!(session.request_count, 0);
    let started = session.started_at;

    session.touch(started + 1000);
    assert_eq!(session.request_count, 1);
    assert_eq!(session.last_activity, started + 1000);
    assert_eq!(session.started_at, started);

    session.update_activity();
    assert_eq!(session.request_count, 2);
}

#[test]
fn test_search_tool_defaults() {
    assert_eq!(default_max_results(), Some(100));
    assert_eq!(default_case_sensitive(), Some(false));

    let tool = FileSearchTool;
    assert_eq!(tool.name(), "file_search");
    assert!(tool.description().contains("regular expressions"));

    let input = FileSearchInput {
        pattern: "Error.*".to_string(),
        directory: None,
        max_results: None,
        extensions: None,
        case_sensitive: None,
    };
    assert_eq!(input.effective_max_results(), 100);
    assert!(!input.effective_case_sensitive());
}

#[test]
fn test_bridge_renderings_match_their_crates() {
    // Each trusted rendering agrees with the outside crate computing it
    // directly.
    let id: u128 = 0x936da01f9abd4d9d80c702af85c822a8;
    assert_eq!(
        mcp_monitor::bridge::format_uuid(id),
        uuid::Uuid::from_u128(id).to_string()
    );

    assert_eq!(
        mcp_monitor::bridge::format_rfc3339(0),
        chrono::DateTime::from_timestamp_millis(0).unwrap().to_rfc3339()
    );

    assert_eq!(
        mcp_monitor::bridge::format_hms(45_296_000),
        chrono::DateTime::from_timestamp_millis(45_296_000)
            .unwrap()
            .format("%H:%M:%S")
            .to_string()
    );

    assert_eq!(
        mcp_monitor::bridge::json_quote("say \"hi\"\n"),
        serde_json::to_string("say \"hi\"\n").unwrap()
    );

    assert_eq!(
        mcp_monitor::bridge::json_reparse("{ \"k\" : 3 }"),
        Some("{\"k\":3}".to_string())
    );
    assert_eq!(mcp_monitor::bridge::json_reparse("nope"), None);
}
