//! Server configuration and its validation rules.

use vstd::prelude::*;

use crate::errors::{McpServerError, McpServerErrorV};

verus! {

/// Network settings of the dashboard server.
#[derive(Debug)]
pub struct ServerConfig {
    /// Port the dashboard listens on.
    pub dashboard_port: u16,
    /// Host the dashboard binds to.
    pub dashboard_host: String,
    /// Log level filter.
    pub log_level: String,
}

/// Security limits on tool execution and live streaming.
#[derive(Debug)]
pub struct SecurityConfig {
    /// Longest tolerated tool execution, in milliseconds.
    pub max_tool_execution_time_ms: u64,
    /// Most tool calls allowed to run at once.
    pub max_concurrent_tool_calls: usize,
    /// Largest file the filesystem tools touch, in bytes.
    pub max_file_size_bytes: u64,
    /// File extensions the filesystem tools accept.
    pub allowed_file_extensions: Vec<String>,
    /// Origins allowed to open a live-stream connection.
    pub websocket_allowed_origins: Vec<String>,
}

/// Request rate limits.
#[derive(Debug)]
pub struct RateLimitingConfig {
    /// Requests allowed per minute.
    pub requests_per_minute: u32,
    /// Burst allowance on top of the steady rate.
    pub burst_size: u32,
}

/// Caps on resources consumed by outbound requests.
#[derive(Debug)]
pub struct ResourceLimitsConfig {
    /// Largest tolerated HTTP response, in bytes.
    pub max_http_response_size_bytes: u64,
    /// Outbound HTTP timeout, in seconds.
    pub http_timeout_seconds: u64,
}

/// Development conveniences.
#[derive(Debug)]
pub struct DevelopmentConfig {
    /// Whether cross-origin requests are allowed (permissive mode).
    pub enable_cors: bool,
    /// Whether debug routes are served.
    pub enable_debug_routes: bool,
    /// Debounce window of the hot-reload watcher, in milliseconds.
    pub hot_reload_debounce_ms: u64,
}

/// The whole server configuration.
#[derive(Debug)]
pub struct Config {
    /// Network settings.
    pub server: ServerConfig,
    /// Security limits.
    pub security: SecurityConfig,
    /// Request rate limits.
    pub rate_limiting: RateLimitingConfig,
    /// Resource caps.
    pub resource_limits: ResourceLimitsConfig,
    /// Development conveniences.
    pub development: DevelopmentConfig,
}

/// The first configuration error [`Config::validate`] reports, if any.
pub open spec fn spec_validate(c: &Config) -> Option<McpServerErrorV> {
    if c.server.dashboard_port == 0 {
        Some(McpServerErrorV::Config("Dashboard port must be between 1 and 65535"@))
    } else if c.security.max_tool_execution_time_ms == 0 {
        Some(McpServerErrorV::Config("Tool execution timeout must be greater than 0"@))
    } else if c.resource_limits.http_timeout_seconds == 0 {
        Some(McpServerErrorV::Config("HTTP timeout must be greater than 0"@))
    } else if c.security.max_file_size_bytes > 104857600 {
        Some(McpServerErrorV::Config("Max file size cannot exceed 100MB"@))
    } else if c.rate_limiting.requests_per_minute == 0 {
        Some(McpServerErrorV::Config("Rate limit requests per minute must be greater than 0"@))
    } else if c.rate_limiting.burst_size == 0 {
        Some(McpServerErrorV::Config("Rate limit burst size must be greater than 0"@))
    } else {
        None
    }
}

impl Config {
    /// Checks the configuration's internal limits, reporting the first
    /// violated one.
    ///
    /// A configuration with debug routes enabled counts as a development
    /// configuration, so the production rule against debug routes can never
    /// fire; it is therefore not a reachable error here.
    pub fn validate(&self) -> (r: Result<(), McpServerError>)
        ensures
            match r {
                Ok(_) => spec_validate(self) is None,
                Err(e) => spec_validate(self) == Some(e@),
            },
    {
        if self.server.dashboard_port == 0 {
            return Err(
                McpServerError::Config("Dashboard port must be between 1 and 65535".to_owned()),
            );
        }
        if self.security.max_tool_execution_time_ms == 0 {
            return Err(
                McpServerError::Config("Tool execution timeout must be greater than 0".to_owned()),
            );
        }
        if self.resource_limits.http_timeout_seconds == 0 {
            return Err(McpServerError::Config("HTTP timeout must be greater than 0".to_owned()));
        }
        if self.security.max_file_size_bytes > 104857600 {
            return Err(McpServerError::Config("Max file size cannot exceed 100MB".to_owned()));
        }
        if self.rate_limiting.requests_per_minute == 0 {
            return Err(
                McpServerError::Config(
                    "Rate limit requests per minute must be greater than 0".to_owned(),
                ),
            );
        }
        if self.rate_limiting.burst_size == 0 {
            return Err(
                McpServerError::Config("Rate limit burst size must be greater than 0".to_owned()),
            );
        }
        Ok(())
    }
}

impl Default for Config {
    /// The built-in configuration: dashboard on any interface at port 8080,
    /// 10 MB file limit, text-like file extensions, localhost origins, 60
    /// requests per minute with a burst of 10, 5 MB response cap, 30 second
    /// timeouts, and development conveniences off.
    fn default() -> (r: Self)
        ensures
            r.server.dashboard_port == 8080,
            r.server.dashboard_host@ == "0.0.0.0"@,
            r.server.log_level@ == "info"@,
            r.security.max_tool_execution_time_ms == 30000,
            r.security.max_concurrent_tool_calls == 10,
            r.security.max_file_size_bytes == 10485760,
            r.security.allowed_file_extensions@.len() == 7,
            r.security.websocket_allowed_origins@.len() == 2,
            r.security.websocket_allowed_origins@[0]@ == "http://localhost:8080"@,
            r.security.websocket_allowed_origins@[1]@ == "http://127.0.0.1:8080"@,
            r.rate_limiting.requests_per_minute == 60,
            r.rate_limiting.burst_size == 10,
            r.resource_limits.max_http_response_size_bytes == 5242880,
            r.resource_limits.http_timeout_seconds == 30,
            !r.development.enable_cors,
            !r.development.enable_debug_routes,
            r.development.hot_reload_debounce_ms == 500,
            spec_validate(&r) is None,
    {
        let mut allowed_file_extensions: Vec<String> = Vec::new();
        allowed_file_extensions.push("txt".to_owned());
        allowed_file_extensions.push("json".to_owned());
        allowed_file_extensions.push("toml".to_owned());
        allowed_file_extensions.push("yaml".to_owned());
        allowed_file_extensions.push("yml".to_owned());
        allowed_file_extensions.push("md".to_owned());
        allowed_file_extensions.push("log".to_owned());
        let mut websocket_allowed_origins: Vec<String> = Vec::new();
        websocket_allowed_origins.push("http://localhost:8080".to_owned());
        websocket_allowed_origins.push("http://127.0.0.1:8080".to_owned());
        Config {
            server: ServerConfig {
                dashboard_port: 8080,
                dashboard_host: "0.0.0.0".to_owned(),
                log_level: "info".to_owned(),
            },
            security: SecurityConfig {
                max_tool_execution_time_ms: 30000,
                max_concurrent_tool_calls: 10,
                max_file_size_bytes: 10485760,
                allowed_file_extensions,
                websocket_allowed_origins,
            },
            rate_limiting: RateLimitingConfig { requests_per_minute: 60, burst_size: 10 },
            resource_limits: ResourceLimitsConfig {
                max_http_response_size_bytes: 5242880,
                http_timeout_seconds: 30,
            },
            development: DevelopmentConfig {
                enable_cors: false,
                enable_debug_routes: false,
                hot_reload_debounce_ms: 500,
            },
        }
    }
}

} // verus!
