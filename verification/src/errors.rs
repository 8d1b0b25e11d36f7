//! The server's error taxonomy, with stable codes and behavioural metadata.

use vstd::prelude::*;

use crate::bridge;

verus! {

/// Mathematical model of a server error.
pub ghost enum McpServerErrorV {
    FileSystem(Seq<char>),
    Http(Seq<char>),
    State(Seq<char>),
    Timeout,
    Permission(Seq<char>),
    InvalidPath(Seq<char>),
    FileSizeLimit { limit: u64 },
    RateLimit { endpoint: Seq<char> },
    Config(Seq<char>),
    Serialization(Seq<char>),
    System(Seq<char>),
    ResourceNotFound(Seq<char>),
    ToolNotFound(Seq<char>),
    ToolExecution(Seq<char>),
    PromptNotFound { name: Seq<char> },
    InvalidArguments(Seq<char>),
    Protocol(Seq<char>),
    Authentication(Seq<char>),
    Internal(Seq<char>),
}

/// One server error.  Errors that the surrounding collaborators raise as their
/// own types (I/O, HTTP, serialization) are carried here as their rendered
/// messages.
#[derive(Debug)]
pub enum McpServerError {
    /// A file system operation failed.
    FileSystem(String),
    /// An outbound HTTP request failed.
    Http(String),
    /// State management failed.
    State(String),
    /// A tool execution timed out.
    Timeout,
    /// Permission was denied.
    Permission(String),
    /// A path was invalid.
    InvalidPath(String),
    /// A file exceeded the size limit.
    FileSizeLimit { limit: u64 },
    /// A rate limit was exceeded.
    RateLimit { endpoint: String },
    /// The configuration is invalid.
    Config(String),
    /// Serialization failed.
    Serialization(String),
    /// System information could not be collected.
    System(String),
    /// A resource was not found.
    ResourceNotFound(String),
    /// A tool was not found.
    ToolNotFound(String),
    /// A tool execution failed.
    ToolExecution(String),
    /// A prompt was not found.
    PromptNotFound { name: String },
    /// Arguments were invalid.
    InvalidArguments(String),
    /// The protocol was violated.
    Protocol(String),
    /// Authentication failed.
    Authentication(String),
    /// An internal error occurred.
    Internal(String),
}

impl View for McpServerError {
    type V = McpServerErrorV;

    open spec fn view(&self) -> McpServerErrorV {
        match self {
            McpServerError::FileSystem(m) => McpServerErrorV::FileSystem(m@),
            McpServerError::Http(m) => McpServerErrorV::Http(m@),
            McpServerError::State(m) => McpServerErrorV::State(m@),
            McpServerError::Timeout => McpServerErrorV::Timeout,
            McpServerError::Permission(m) => McpServerErrorV::Permission(m@),
            McpServerError::InvalidPath(m) => McpServerErrorV::InvalidPath(m@),
            McpServerError::FileSizeLimit { limit } => McpServerErrorV::FileSizeLimit {
                limit: *limit,
            },
            McpServerError::RateLimit { endpoint } => McpServerErrorV::RateLimit {
                endpoint: endpoint@,
            },
            McpServerError::Config(m) => McpServerErrorV::Config(m@),
            McpServerError::Serialization(m) => McpServerErrorV::Serialization(m@),
            McpServerError::System(m) => McpServerErrorV::System(m@),
            McpServerError::ResourceNotFound(m) => McpServerErrorV::ResourceNotFound(m@),
            McpServerError::ToolNotFound(m) => McpServerErrorV::ToolNotFound(m@),
            McpServerError::ToolExecution(m) => McpServerErrorV::ToolExecution(m@),
            McpServerError::PromptNotFound { name } => McpServerErrorV::PromptNotFound {
                name: name@,
            },
            McpServerError::InvalidArguments(m) => McpServerErrorV::InvalidArguments(m@),
            McpServerError::Protocol(m) => McpServerErrorV::Protocol(m@),
            McpServerError::Authentication(m) => McpServerErrorV::Authentication(m@),
            McpServerError::Internal(m) => McpServerErrorV::Internal(m@),
        }
    }
}

/// The stable machine-readable code of an error.
pub open spec fn spec_error_code(e: McpServerErrorV) -> Seq<char> {
    match e {
        McpServerErrorV::FileSystem(_) => "FILESYSTEM_ERROR"@,
        McpServerErrorV::Http(_) => "HTTP_ERROR"@,
        McpServerErrorV::State(_) => "STATE_ERROR"@,
        McpServerErrorV::Timeout => "TIMEOUT"@,
        McpServerErrorV::Permission(_) => "PERMISSION_DENIED"@,
        McpServerErrorV::InvalidPath(_) => "INVALID_PATH"@,
        McpServerErrorV::FileSizeLimit { .. } => "FILE_SIZE_LIMIT"@,
        McpServerErrorV::RateLimit { .. } => "RATE_LIMIT"@,
        McpServerErrorV::Config(_) => "CONFIGURATION_ERROR"@,
        McpServerErrorV::Serialization(_) => "SERIALIZATION_ERROR"@,
        McpServerErrorV::System(_) => "SYSTEM_ERROR"@,
        McpServerErrorV::ResourceNotFound(_) => "RESOURCE_NOT_FOUND"@,
        McpServerErrorV::ToolNotFound(_) => "TOOL_NOT_FOUND"@,
        McpServerErrorV::ToolExecution(_) => "TOOL_EXECUTION_FAILED"@,
        McpServerErrorV::PromptNotFound { .. } => "PROMPT_NOT_FOUND"@,
        McpServerErrorV::InvalidArguments(_) => "INVALID_ARGUMENTS"@,
        McpServerErrorV::Protocol(_) => "PROTOCOL_ERROR"@,
        McpServerErrorV::Authentication(_) => "AUTHENTICATION_ERROR"@,
        McpServerErrorV::Internal(_) => "INTERNAL_ERROR"@,
    }
}

/// Whether an error was caused by the caller's own input.
pub open spec fn spec_is_user_error(e: McpServerErrorV) -> bool {
    match e {
        McpServerErrorV::InvalidArguments(_) => true,
        McpServerErrorV::ResourceNotFound(_) => true,
        McpServerErrorV::PromptNotFound { .. } => true,
        McpServerErrorV::ToolNotFound(_) => true,
        McpServerErrorV::Authentication(_) => true,
        McpServerErrorV::Permission(_) => true,
        McpServerErrorV::InvalidPath(_) => true,
        McpServerErrorV::FileSizeLimit { .. } => true,
        _ => false,
    }
}

/// Whether retrying the operation may succeed.
pub open spec fn spec_is_retryable(e: McpServerErrorV) -> bool {
    match e {
        McpServerErrorV::Http(_) => true,
        McpServerErrorV::Timeout => true,
        McpServerErrorV::Internal(_) => true,
        McpServerErrorV::RateLimit { .. } => true,
        _ => false,
    }
}

/// The human-readable rendering of an error.
pub open spec fn spec_error_message(e: McpServerErrorV) -> Seq<char> {
    match e {
        McpServerErrorV::FileSystem(m) => "File system operation failed: "@ + m,
        McpServerErrorV::Http(m) => "HTTP request failed: "@ + m,
        McpServerErrorV::State(m) => "State management error: "@ + m,
        McpServerErrorV::Timeout => "Tool execution timeout"@,
        McpServerErrorV::Permission(m) => "Permission denied: "@ + m,
        McpServerErrorV::InvalidPath(m) => "Invalid path: "@ + m,
        McpServerErrorV::FileSizeLimit { limit } => "File size limit exceeded: "@
            + crate::numfmt::spec_dec_str(limit as int) + " bytes"@,
        McpServerErrorV::RateLimit { endpoint } => "Rate limit exceeded for "@ + endpoint,
        McpServerErrorV::Config(m) => "Configuration error: "@ + m,
        McpServerErrorV::Serialization(m) => "Serialization error: "@ + m,
        McpServerErrorV::System(m) => "System information error: "@ + m,
        McpServerErrorV::ResourceNotFound(m) => "Resource not found: "@ + m,
        McpServerErrorV::ToolNotFound(m) => "Tool not found: "@ + m,
        McpServerErrorV::ToolExecution(m) => "Tool execution failed: "@ + m,
        McpServerErrorV::PromptNotFound { name } => "Prompt not found: "@ + name,
        McpServerErrorV::InvalidArguments(m) => "Invalid arguments: "@ + m,
        McpServerErrorV::Protocol(m) => "MCP protocol error: "@ + m,
        McpServerErrorV::Authentication(m) => "Authentication failed: "@ + m,
        McpServerErrorV::Internal(m) => "Internal server error: "@ + m,
    }
}

impl McpServerError {
    /// The stable machine-readable code of this error.
    pub fn error_code(&self) -> (r: &'static str)
        ensures
            r@ == spec_error_code(self@),
    {
        match self {
            McpServerError::FileSystem(_) => "FILESYSTEM_ERROR",
            McpServerError::Http(_) => "HTTP_ERROR",
            McpServerError::State(_) => "STATE_ERROR",
            McpServerError::Timeout => "TIMEOUT",
            McpServerError::Permission(_) => "PERMISSION_DENIED",
            McpServerError::InvalidPath(_) => "INVALID_PATH",
            McpServerError::FileSizeLimit { .. } => "FILE_SIZE_LIMIT",
            McpServerError::RateLimit { .. } => "RATE_LIMIT",
            McpServerError::Config(_) => "CONFIGURATION_ERROR",
            McpServerError::Serialization(_) => "SERIALIZATION_ERROR",
            McpServerError::System(_) => "SYSTEM_ERROR",
            McpServerError::ResourceNotFound(_) => "RESOURCE_NOT_FOUND",
            McpServerError::ToolNotFound(_) => "TOOL_NOT_FOUND",
            McpServerError::ToolExecution(_) => "TOOL_EXECUTION_FAILED",
            McpServerError::PromptNotFound { .. } => "PROMPT_NOT_FOUND",
            McpServerError::InvalidArguments(_) => "INVALID_ARGUMENTS",
            McpServerError::Protocol(_) => "PROTOCOL_ERROR",
            McpServerError::Authentication(_) => "AUTHENTICATION_ERROR",
            McpServerError::Internal(_) => "INTERNAL_ERROR",
        }
    }

    /// Whether this error was caused by the caller's own input.
    pub fn is_user_error(&self) -> (r: bool)
        ensures
            r == spec_is_user_error(self@),
    {
        match self {
            McpServerError::InvalidArguments(_) => true,
            McpServerError::ResourceNotFound(_) => true,
            McpServerError::PromptNotFound { .. } => true,
            McpServerError::ToolNotFound(_) => true,
            McpServerError::Authentication(_) => true,
            McpServerError::Permission(_) => true,
            McpServerError::InvalidPath(_) => true,
            McpServerError::FileSizeLimit { .. } => true,
            _ => false,
        }
    }

    /// Whether retrying the operation may succeed.
    pub fn is_retryable(&self) -> (r: bool)
        ensures
            r == spec_is_retryable(self@),
    {
        match self {
            McpServerError::Http(_) => true,
            McpServerError::Timeout => true,
            McpServerError::Internal(_) => true,
            McpServerError::RateLimit { .. } => true,
            _ => false,
        }
    }

    /// Renders this error for a human reader.
    pub fn message(&self) -> (r: String)
        ensures
            r@ == spec_error_message(self@),
    {
        let mut r = String::new();
        match self {
            McpServerError::FileSystem(m) => {
                bridge::string_push_str(&mut r, "File system operation failed: ");
                bridge::string_push_str(&mut r, m.as_str());
            },
            McpServerError::Http(m) => {
                bridge::string_push_str(&mut r, "HTTP request failed: ");
                bridge::string_push_str(&mut r, m.as_str());
            },
            McpServerError::State(m) => {
                bridge::string_push_str(&mut r, "State management error: ");
                bridge::string_push_str(&mut r, m.as_str());
            },
            McpServerError::Timeout => {
                bridge::string_push_str(&mut r, "Tool execution timeout");
            },
            McpServerError::Permission(m) => {
                bridge::string_push_str(&mut r, "Permission denied: ");
                bridge::string_push_str(&mut r, m.as_str());
            },
            McpServerError::InvalidPath(m) => {
                bridge::string_push_str(&mut r, "Invalid path: ");
                bridge::string_push_str(&mut r, m.as_str());
            },
            McpServerError::FileSizeLimit { limit } => {
                let rendered = crate::numfmt::u64_to_string(*limit);
                bridge::string_push_str(&mut r, "File size limit exceeded: ");
                bridge::string_push_str(&mut r, rendered.as_str());
                bridge::string_push_str(&mut r, " bytes");
            },
            McpServerError::RateLimit { endpoint } => {
                bridge::string_push_str(&mut r, "Rate limit exceeded for ");
                bridge::string_push_str(&mut r, endpoint.as_str());
            },
            McpServerError::Config(m) => {
                bridge::string_push_str(&mut r, "Configuration error: ");
                bridge::string_push_str(&mut r, m.as_str());
            },
            McpServerError::Serialization(m) => {
                bridge::string_push_str(&mut r, "Serialization error: ");
                bridge::string_push_str(&mut r, m.as_str());
            },
            McpServerError::System(m) => {
                bridge::string_push_str(&mut r, "System information error: ");
                bridge::string_push_str(&mut r, m.as_str());
            },
            McpServerError::ResourceNotFound(m) => {
                bridge::string_push_str(&mut r, "Resource not found: ");
                bridge::string_push_str(&mut r, m.as_str());
            },
            McpServerError::ToolNotFound(m) => {
                bridge::string_push_str(&mut r, "Tool not found: ");
                bridge::string_push_str(&mut r, m.as_str());
            },
            McpServerError::ToolExecution(m) => {
                bridge::string_push_str(&mut r, "Tool execution failed: ");
                bridge::string_push_str(&mut r, m.as_str());
            },
            McpServerError::PromptNotFound { name } => {
                bridge::string_push_str(&mut r, "Prompt not found: ");
                bridge::string_push_str(&mut r, name.as_str());
            },
            McpServerError::InvalidArguments(m) => {
                bridge::string_push_str(&mut r, "Invalid arguments: ");
                bridge::string_push_str(&mut r, m.as_str());
            },
            McpServerError::Protocol(m) => {
                bridge::string_push_str(&mut r, "MCP protocol error: ");
                bridge::string_push_str(&mut r, m.as_str());
            },
            McpServerError::Authentication(m) => {
                bridge::string_push_str(&mut r, "Authentication failed: ");
                bridge::string_push_str(&mut r, m.as_str());
            },
            McpServerError::Internal(m) => {
                bridge::string_push_str(&mut r, "Internal server error: ");
                bridge::string_push_str(&mut r, m.as_str());
            },
        }
        r
    }
}

} // verus!
