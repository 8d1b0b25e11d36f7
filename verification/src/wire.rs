//! Wire formats of the live stream: one JSON object per event for WebSocket
//! clients, and named SSE event blocks carrying the same JSON plus a
//! pre-rendered hypermedia fragment.

use vstd::prelude::*;

use crate::bridge;
use crate::bridge::{hms_of, json_canon_of, json_str_of, rfc3339_of, uuid_str_of};
use crate::events::{SystemEvent, SystemEventV};

verus! {

/// The SSE event name of a domain event.
pub open spec fn spec_event_name(e: SystemEventV) -> Seq<char> {
    match e {
        SystemEventV::McpConnected => "mcp_connected"@,
        SystemEventV::McpDisconnected => "mcp_disconnected"@,
        SystemEventV::ToolCalled { .. } => "tool_called"@,
        SystemEventV::ResourceAccessed { .. } => "resource_accessed"@,
        SystemEventV::Error { .. } => "error"@,
        SystemEventV::Custom(_) => "custom"@,
    }
}

/// The JSON object for an event, without its closing brace: a `type`
/// discriminator, the event's own fields (strings quoted and escaped), and
/// an RFC 3339 `timestamp`.
pub open spec fn spec_ws_body(e: SystemEventV, now_ms: int) -> Seq<char> {
    let ts = json_str_of(rfc3339_of(now_ms));
    match e {
        SystemEventV::McpConnected => "{\"type\":\"mcp_connected\",\"timestamp\":"@ + ts,
        SystemEventV::McpDisconnected => "{\"type\":\"mcp_disconnected\",\"timestamp\":"@ + ts,
        SystemEventV::ToolCalled { name, id } => "{\"type\":\"tool_called\",\"name\":"@
            + json_str_of(name) + ",\"id\":"@ + json_str_of(uuid_str_of(id)) + ",\"timestamp\":"@
            + ts,
        SystemEventV::ResourceAccessed { uri } => "{\"type\":\"resource_accessed\",\"uri\":"@
            + json_str_of(uri) + ",\"timestamp\":"@ + ts,
        SystemEventV::Error { message } => "{\"type\":\"error\",\"message\":"@ + json_str_of(
            message,
        ) + ",\"timestamp\":"@ + ts,
        SystemEventV::Custom(payload) => "{\"type\":\"custom\",\"payload\":"@ + json_str_of(
            payload,
        ) + ",\"timestamp\":"@ + ts,
    }
}

/// The JSON text a WebSocket client receives for a domain event — except
/// that a custom payload which itself parses as JSON is passed through
/// re-rendered.
pub open spec fn spec_ws_json(e: SystemEventV, now_ms: int) -> Seq<char> {
    match e {
        SystemEventV::Custom(payload) => match json_canon_of(payload) {
            Some(canon) => canon,
            None => spec_ws_body(e, now_ms) + "}"@,
        },
        _ => spec_ws_body(e, now_ms) + "}"@,
    }
}

/// The hypermedia fragment embedded in an SSE frame: a derived,
/// non-authoritative view of the same event, for consumers that splice HTML
/// directly.
pub open spec fn spec_sse_html(e: SystemEventV, now_ms: int) -> Seq<char> {
    let stamp = "<span class=\"timestamp\">"@ + hms_of(now_ms) + "</span>"@;
    match e {
        SystemEventV::McpConnected => "<div class=\"alert alert-success\">"@ + stamp
            + "<span class=\"message\">MCP Server Connected</span></div>"@,
        SystemEventV::McpDisconnected => "<div class=\"alert alert-warning\">"@ + stamp
            + "<span class=\"message\">MCP Server Disconnected</span></div>"@,
        SystemEventV::ToolCalled { name, id } => "<div class=\"tool-call-event\">"@ + stamp
            + "<span class=\"tool-name\">"@ + name + "</span><span class=\"tool-id\">#"@
            + uuid_str_of(id) + "</span><span class=\"status executing\">Executing...</span></div>"@,
        SystemEventV::ResourceAccessed { uri } => "<div class=\"resource-event\">"@ + stamp
            + "<span class=\"resource-uri\">"@ + uri
            + "</span><span class=\"status accessed\">Accessed</span></div>"@,
        SystemEventV::Error { message } => "<div class=\"alert alert-error\">"@ + stamp
            + "<span class=\"message\">Error: "@ + message + "</span></div>"@,
        SystemEventV::Custom(payload) => "<div class=\"custom-event\">"@ + stamp
            + "<span class=\"payload\">"@ + payload + "</span></div>"@,
    }
}

/// The `data:` payload of an SSE frame: the WebSocket JSON with an `html`
/// field added before the closing brace — except that a custom payload is
/// passed through exactly as the WebSocket form sends it.
pub open spec fn spec_sse_data(e: SystemEventV, now_ms: int) -> Seq<char> {
    match e {
        SystemEventV::Custom(_) => spec_ws_json(e, now_ms),
        _ => spec_ws_body(e, now_ms) + ",\"html\":"@ + json_str_of(spec_sse_html(e, now_ms))
            + "}"@,
    }
}

/// One SSE frame: a named event block with a trailing blank line.
pub open spec fn spec_sse_frame(e: SystemEventV, now_ms: int) -> Seq<char> {
    "event: "@ + spec_event_name(e) + "\ndata: "@ + spec_sse_data(e, now_ms) + "\n\n"@
}

/// The SSE event name of a domain event.
pub fn event_name(event: &SystemEvent) -> (r: &'static str)
    ensures
        r@ == spec_event_name(event@),
{
    match event {
        SystemEvent::McpConnected => "mcp_connected",
        SystemEvent::McpDisconnected => "mcp_disconnected",
        SystemEvent::ToolCalled { .. } => "tool_called",
        SystemEvent::ResourceAccessed { .. } => "resource_accessed",
        SystemEvent::Error { .. } => "error",
        SystemEvent::Custom(_) => "custom",
    }
}

/// Builds the shared JSON object body, without its closing brace.
fn ws_body(event: &SystemEvent, now_ms: i64) -> (r: String)
    ensures
        r@ == spec_ws_body(event@, now_ms as int),
{
    let ts = bridge::json_quote(bridge::format_rfc3339(now_ms).as_str());
    let mut r = String::new();
    match event {
        SystemEvent::McpConnected => {
            bridge::string_push_str(&mut r, "{\"type\":\"mcp_connected\",\"timestamp\":");
            bridge::string_push_str(&mut r, ts.as_str());
            assert(r@ =~= spec_ws_body(event@, now_ms as int));
        },
        SystemEvent::McpDisconnected => {
            bridge::string_push_str(&mut r, "{\"type\":\"mcp_disconnected\",\"timestamp\":");
            bridge::string_push_str(&mut r, ts.as_str());
            assert(r@ =~= spec_ws_body(event@, now_ms as int));
        },
        SystemEvent::ToolCalled { name, id } => {
            let quoted_name = bridge::json_quote(name.as_str());
            let quoted_id = bridge::json_quote(bridge::format_uuid(*id).as_str());
            bridge::string_push_str(&mut r, "{\"type\":\"tool_called\",\"name\":");
            bridge::string_push_str(&mut r, quoted_name.as_str());
            bridge::string_push_str(&mut r, ",\"id\":");
            bridge::string_push_str(&mut r, quoted_id.as_str());
            bridge::string_push_str(&mut r, ",\"timestamp\":");
            bridge::string_push_str(&mut r, ts.as_str());
            assert(r@ =~= spec_ws_body(event@, now_ms as int));
        },
        SystemEvent::ResourceAccessed { uri } => {
            let quoted_uri = bridge::json_quote(uri.as_str());
            bridge::string_push_str(&mut r, "{\"type\":\"resource_accessed\",\"uri\":");
            bridge::string_push_str(&mut r, quoted_uri.as_str());
            bridge::string_push_str(&mut r, ",\"timestamp\":");
            bridge::string_push_str(&mut r, ts.as_str());
            assert(r@ =~= spec_ws_body(event@, now_ms as int));
        },
        SystemEvent::Error { message } => {
            let quoted_message = bridge::json_quote(message.as_str());
            bridge::string_push_str(&mut r, "{\"type\":\"error\",\"message\":");
            bridge::string_push_str(&mut r, quoted_message.as_str());
            bridge::string_push_str(&mut r, ",\"timestamp\":");
            bridge::string_push_str(&mut r, ts.as_str());
            assert(r@ =~= spec_ws_body(event@, now_ms as int));
        },
        SystemEvent::Custom(payload) => {
            let quoted_payload = bridge::json_quote(payload.as_str());
            bridge::string_push_str(&mut r, "{\"type\":\"custom\",\"payload\":");
            bridge::string_push_str(&mut r, quoted_payload.as_str());
            bridge::string_push_str(&mut r, ",\"timestamp\":");
            bridge::string_push_str(&mut r, ts.as_str());
            assert(r@ =~= spec_ws_body(event@, now_ms as int));
        },
    }
    r
}

/// Serializes one event for a WebSocket client.
pub fn ws_event_json(event: &SystemEvent, now_ms: i64) -> (r: String)
    ensures
        r@ == spec_ws_json(event@, now_ms as int),
{
    if let SystemEvent::Custom(payload) = event {
        if let Some(canon) = bridge::json_reparse(payload.as_str()) {
            return canon;
        }
    }
    let mut r = ws_body(event, now_ms);
    bridge::string_push_str(&mut r, "}");
    r
}

/// Renders the hypermedia fragment for one event.
pub fn sse_html(event: &SystemEvent, now_ms: i64) -> (r: String)
    ensures
        r@ == spec_sse_html(event@, now_ms as int),
{
    let mut stamp = String::new();
    bridge::string_push_str(&mut stamp, "<span class=\"timestamp\">");
    let hms = bridge::format_hms(now_ms);
    bridge::string_push_str(&mut stamp, hms.as_str());
    bridge::string_push_str(&mut stamp, "</span>");
    let mut r = String::new();
    match event {
        SystemEvent::McpConnected => {
            bridge::string_push_str(&mut r, "<div class=\"alert alert-success\">");
            bridge::string_push_str(&mut r, stamp.as_str());
            bridge::string_push_str(
                &mut r,
                "<span class=\"message\">MCP Server Connected</span></div>",
            );
            assert(r@ =~= spec_sse_html(event@, now_ms as int));
        },
        SystemEvent::McpDisconnected => {
            bridge::string_push_str(&mut r, "<div class=\"alert alert-warning\">");
            bridge::string_push_str(&mut r, stamp.as_str());
            bridge::string_push_str(
                &mut r,
                "<span class=\"message\">MCP Server Disconnected</span></div>",
            );
            assert(r@ =~= spec_sse_html(event@, now_ms as int));
        },
        SystemEvent::ToolCalled { name, id } => {
            let id_str = bridge::format_uuid(*id);
            bridge::string_push_str(&mut r, "<div class=\"tool-call-event\">");
            bridge::string_push_str(&mut r, stamp.as_str());
            bridge::string_push_str(&mut r, "<span class=\"tool-name\">");
            bridge::string_push_str(&mut r, name.as_str());
            bridge::string_push_str(&mut r, "</span><span class=\"tool-id\">#");
            bridge::string_push_str(&mut r, id_str.as_str());
            bridge::string_push_str(
                &mut r,
                "</span><span class=\"status executing\">Executing...</span></div>",
            );
            assert(r@ =~= spec_sse_html(event@, now_ms as int));
        },
        SystemEvent::ResourceAccessed { uri } => {
            bridge::string_push_str(&mut r, "<div class=\"resource-event\">");
            bridge::string_push_str(&mut r, stamp.as_str());
            bridge::string_push_str(&mut r, "<span class=\"resource-uri\">");
            bridge::string_push_str(&mut r, uri.as_str());
            bridge::string_push_str(
                &mut r,
                "</span><span class=\"status accessed\">Accessed</span></div>",
            );
            assert(r@ =~= spec_sse_html(event@, now_ms as int));
        },
        SystemEvent::Error { message } => {
            bridge::string_push_str(&mut r, "<div class=\"alert alert-error\">");
            bridge::string_push_str(&mut r, stamp.as_str());
            bridge::string_push_str(&mut r, "<span class=\"message\">Error: ");
            bridge::string_push_str(&mut r, message.as_str());
            bridge::string_push_str(&mut r, "</span></div>");
            assert(r@ =~= spec_sse_html(event@, now_ms as int));
        },
        SystemEvent::Custom(payload) => {
            bridge::string_push_str(&mut r, "<div class=\"custom-event\">");
            bridge::string_push_str(&mut r, stamp.as_str());
            bridge::string_push_str(&mut r, "<span class=\"payload\">");
            bridge::string_push_str(&mut r, payload.as_str());
            bridge::string_push_str(&mut r, "</span></div>");
            assert(r@ =~= spec_sse_html(event@, now_ms as int));
        },
    }
    r
}

/// Serializes the `data:` payload of one SSE frame.
pub fn sse_data(event: &SystemEvent, now_ms: i64) -> (r: String)
    ensures
        r@ == spec_sse_data(event@, now_ms as int),
{
    if let SystemEvent::Custom(_) = event {
        return ws_event_json(event, now_ms);
    }
    let html = sse_html(event, now_ms);
    let quoted_html = bridge::json_quote(html.as_str());
    let mut r = ws_body(event, now_ms);
    bridge::string_push_str(&mut r, ",\"html\":");
    bridge::string_push_str(&mut r, quoted_html.as_str());
    bridge::string_push_str(&mut r, "}");
    proof {
        assert(r@ =~= spec_sse_data(event@, now_ms as int));
    }
    r
}

/// A tool call record rendered for the dashboard's call list.
#[derive(Debug)]
pub struct FormattedToolCall {
    /// Tool name.
    pub name: String,
    /// Duration rendering: `"42ms"`, or `"pending"` while the call runs.
    pub duration_ms: String,
    /// Clock-of-day rendering of the call's timestamp.
    pub formatted_timestamp: String,
    /// Style class: `"success"` or `"error"`.
    pub status_class: String,
    /// Whether the call succeeded.
    pub success: bool,
    /// Error message, `"Unknown error"` when none is recorded.
    pub error: String,
    /// Whether an error message is recorded.
    pub has_error: bool,
    /// Result rendering, `"No result"` when none is recorded.
    pub result_string: String,
    /// Whether a result rendering is recorded.
    pub has_result: bool,
}

/// Renders one record for the dashboard's call list.
pub fn format_tool_call(call: &crate::history::ToolCall) -> (r: FormattedToolCall)
    ensures
        r.name@ == call@.name,
        r.duration_ms@ == match call@.duration_ms {
            Some(d) => crate::numfmt::spec_dec_str(d as int) + "ms"@,
            None => "pending"@,
        },
        r.formatted_timestamp@ == hms_of(call@.timestamp as int),
        r.status_class@ == if call@.success {
            "success"@
        } else {
            "error"@
        },
        r.success == call@.success,
        r.error@ == match call@.error {
            Some(e) => e,
            None => "Unknown error"@,
        },
        r.has_error == (call@.error is Some),
        r.result_string@ == match call@.result_string {
            Some(s) => s,
            None => "No result"@,
        },
        r.has_result == (call@.result_string is Some),
{
    let duration_ms = match call.duration_ms {
        Some(d) => {
            let mut s = crate::numfmt::u64_to_string(d);
            bridge::string_push_str(&mut s, "ms");
            s
        },
        None => "pending".to_owned(),
    };
    let status_class = if call.success {
        "success".to_owned()
    } else {
        "error".to_owned()
    };
    let (error, has_error) = match &call.error {
        Some(e) => (e.clone(), true),
        None => ("Unknown error".to_owned(), false),
    };
    let (result_string, has_result) = match &call.result_string {
        Some(s) => (s.clone(), true),
        None => ("No result".to_owned(), false),
    };
    FormattedToolCall {
        name: call.name.clone(),
        duration_ms,
        formatted_timestamp: bridge::format_hms(call.timestamp),
        status_class,
        success: call.success,
        error,
        has_error,
        result_string,
        has_result,
    }
}

/// What a per-connection streaming task does next.
#[derive(Debug)]
pub enum StreamDirective {
    /// Write this text to the wire.
    Emit(String),
    /// Nothing to do right now; wait for the next wake-up.
    Idle,
    /// Tear the connection down and release its subscription.
    Stop,
}

/// Mathematical model of a stream directive.
pub ghost enum StreamDirectiveV {
    Emit(Seq<char>),
    Idle,
    Stop,
}

impl View for StreamDirective {
    type V = StreamDirectiveV;

    open spec fn view(&self) -> StreamDirectiveV {
        match self {
            StreamDirective::Emit(s) => StreamDirectiveV::Emit(s@),
            StreamDirective::Idle => StreamDirectiveV::Idle,
            StreamDirective::Stop => StreamDirectiveV::Stop,
        }
    }
}

/// Decides one step of an SSE connection from its receive outcome: events
/// are framed and written; a lag ends the stream (the observer sees a gap,
/// then reconnects); a dead subscription ends it too.
pub fn sse_step(outcome: &crate::events::RecvOutcome, now_ms: i64) -> (r: StreamDirective)
    ensures
        r@ == match outcome@ {
            crate::events::RecvOutcomeV::Event(e) => StreamDirectiveV::Emit(
                spec_sse_frame(e, now_ms as int),
            ),
            crate::events::RecvOutcomeV::Lagged(_) => StreamDirectiveV::Stop,
            crate::events::RecvOutcomeV::Empty => StreamDirectiveV::Idle,
            crate::events::RecvOutcomeV::Closed => StreamDirectiveV::Stop,
        },
{
    match outcome {
        crate::events::RecvOutcome::Event(e) => StreamDirective::Emit(sse_frame(e, now_ms)),
        crate::events::RecvOutcome::Lagged(_) => StreamDirective::Stop,
        crate::events::RecvOutcome::Empty => StreamDirective::Idle,
        crate::events::RecvOutcome::Closed => StreamDirective::Stop,
    }
}

/// Decides one step of a WebSocket connection from its receive outcome:
/// events are serialized as single JSON text frames; a lag is tolerated (the
/// client just misses events); a dead subscription ends the stream.
pub fn ws_step(outcome: &crate::events::RecvOutcome, now_ms: i64) -> (r: StreamDirective)
    ensures
        r@ == match outcome@ {
            crate::events::RecvOutcomeV::Event(e) => StreamDirectiveV::Emit(
                spec_ws_json(e, now_ms as int),
            ),
            crate::events::RecvOutcomeV::Lagged(_) => StreamDirectiveV::Idle,
            crate::events::RecvOutcomeV::Empty => StreamDirectiveV::Idle,
            crate::events::RecvOutcomeV::Closed => StreamDirectiveV::Stop,
        },
{
    match outcome {
        crate::events::RecvOutcome::Event(e) => StreamDirective::Emit(ws_event_json(e, now_ms)),
        crate::events::RecvOutcome::Lagged(_) => StreamDirective::Idle,
        crate::events::RecvOutcome::Empty => StreamDirective::Idle,
        crate::events::RecvOutcome::Closed => StreamDirective::Stop,
    }
}

/// Serializes one full SSE frame for an event.
pub fn sse_frame(event: &SystemEvent, now_ms: i64) -> (r: String)
    ensures
        r@ == spec_sse_frame(event@, now_ms as int),
{
    let mut r = String::new();
    bridge::string_push_str(&mut r, "event: ");
    bridge::string_push_str(&mut r, event_name(event));
    bridge::string_push_str(&mut r, "\ndata: ");
    let data = sse_data(event, now_ms);
    bridge::string_push_str(&mut r, data.as_str());
    bridge::string_push_str(&mut r, "\n\n");
    proof {
        assert(r@ =~= spec_sse_frame(event@, now_ms as int));
    }
    r
}

} // verus!
