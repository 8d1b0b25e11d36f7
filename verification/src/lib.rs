//! Monitoring core for a tool-execution server.
//!
//! The crate keeps a consistent picture of server status, active client
//! sessions, tool invocation history and numeric metrics, and fans state
//! changes out to any number of live observers.  Connection admission is
//! guarded by a sliding-window rate limiter and an origin allow-list.

pub mod admission;
pub mod bridge;
pub mod config;
pub mod errors;
pub mod events;
pub mod history;
pub mod laws;
pub mod metrics;
pub mod numfmt;
pub mod reload;
pub mod search;
pub mod session;
pub mod status;
pub mod wire;

use vstd::prelude::*;

use crate::events::{
    spec_active_count, spec_event_of_details, spec_offered, EventBus, RecvOutcome, SystemEvent,
    SystemEventDetails, SystemEventV,
};
use crate::history::{spec_append, CallHistory, ToolCall};
use crate::metrics::{spec_counter_after, MetricStore, MetricValue, MetricValueV};
use crate::session::{SessionInfo, SessionTable};
use crate::status::{status_of, McpStatus, StatusCell};

verus! {

/// Compares an owned string with a string slice; done on two owned strings
/// because vstd specifies `String` equality.
pub(crate) fn strings_equal(a: &String, b: &str) -> (r: bool)
    ensures
        r == (a@ == b@),
{
    let b_owned: String = b.to_owned();
    a.eq(&b_owned)
}

/// The metric name under which calls of a tool are counted.
pub open spec fn spec_tool_metric_key(name: Seq<char>) -> Seq<char> {
    "tool_calls_"@ + name
}

/// The process-wide monitoring state, constructed once at startup and handed
/// by reference into every request-handling and streaming task.
///
/// Each component defines its own, narrower synchronization boundary; no
/// global lock serializes the whole state, and no cross-component
/// transaction is provided: an event may be observed before or after the
/// matching history append becomes visible.
#[derive(Debug)]
pub struct AppState {
    /// Current server status (connection, heartbeat, capabilities).
    pub mcp_status: StatusCell,
    /// Active client sessions, tracked by identifier.
    pub active_sessions: SessionTable,
    /// Event broadcast for real-time updates.
    pub events: EventBus,
    /// Metrics collection.
    pub metrics: MetricStore,
    /// Tool call execution history.
    pub tool_calls: CallHistory,
}

impl AppState {
    /// The components' internal bounds all hold.
    pub open spec fn wf(&self) -> bool {
        &&& self.events.wf()
        &&& self.tool_calls.wf()
    }

    /// Fresh state: a connected status, no sessions, no metrics, an empty
    /// history, and an event bus that queues up to 1000 events per
    /// subscriber.
    pub fn new() -> (r: Self)
        ensures
            r.wf(),
            status_of(&r.mcp_status).connected,
            status_of(&r.mcp_status).last_heartbeat == Some(status_of(&r.mcp_status).started_at),
            status_of(&r.mcp_status).capabilities == seq!["tools"@, "resources"@, "logging"@],
            status_of(&r.mcp_status).server_info.name == "Rust MCP Server"@,
            r.active_sessions@ == Map::<u128, SessionInfo>::empty(),
            r.events@.len() == 0,
            r.events.spec_capacity() == 1000,
            r.metrics@ == Map::<Seq<char>, MetricValueV>::empty(),
            r.tool_calls@ == Seq::<crate::history::ToolCallV>::empty(),
            r.tool_calls.retention_cap() is None,
    {
        let now = bridge::now_millis();
        AppState {
            mcp_status: StatusCell::new(McpStatus::initial(now)),
            active_sessions: SessionTable::new(),
            events: EventBus::new(1000),
            metrics: MetricStore::new(),
            tool_calls: CallHistory::new(),
        }
    }

    /// Records one tool call execution as a single logical operation: the
    /// record is appended to the history, a matching event is published, and
    /// the tool's call counter is incremented.  Always succeeds; a record
    /// that describes a failing tool call is still a successful recording.
    pub fn record_tool_call(&mut self, call: ToolCall) -> (r: Result<(), errors::McpServerError>)
        requires
            old(self).wf(),
        ensures
            final(self).wf(),
            r is Ok,
            final(self).tool_calls@ == spec_append(
                old(self).tool_calls@,
                old(self).tool_calls.retention_cap(),
                call@,
            ),
            final(self).tool_calls.retention_cap() == old(self).tool_calls.retention_cap(),
            final(self).metrics@ == old(self).metrics@.insert(
                spec_tool_metric_key(call@.name),
                MetricValueV::Counter(
                    spec_counter_after(old(self).metrics@, spec_tool_metric_key(call@.name), 1),
                ),
            ),
            final(self).events@.len() == old(self).events@.len(),
            final(self).events.spec_capacity() == old(self).events.spec_capacity(),
            forall|j: int|
                0 <= j < old(self).events@.len() && old(self).events@[j].active ==> final(self).events@[j] == spec_offered(
                    old(self).events@[j],
                    old(self).events.spec_capacity(),
                    (SystemEventV::ToolCalled { name: call@.name, id: call@.id }),
                ),
            forall|j: int|
                0 <= j < old(self).events@.len() && !old(self).events@[j].active ==> final(self).events@[j] == old(self).events@[j],
            status_of(&final(self).mcp_status) == status_of(&old(self).mcp_status),
            final(self).active_sessions@ == old(self).active_sessions@,
    {
        let event = SystemEvent::ToolCalled { name: call.name.clone(), id: call.id };
        let mut metric_key = String::new();
        bridge::string_push_str(&mut metric_key, "tool_calls_");
        bridge::string_push_str(&mut metric_key, call.name.as_str());
        self.tool_calls.append(call);
        let _ = self.events.publish(&event);
        self.metrics.increment(metric_key.as_str(), 1);
        Ok(())
    }

    /// Appends a record to the history without publishing or counting it.
    pub fn add_tool_call(&mut self, call: ToolCall)
        requires
            old(self).wf(),
        ensures
            final(self).wf(),
            final(self).tool_calls@ == spec_append(
                old(self).tool_calls@,
                old(self).tool_calls.retention_cap(),
                call@,
            ),
            final(self).tool_calls.retention_cap() == old(self).tool_calls.retention_cap(),
            final(self).events@ == old(self).events@,
            final(self).events.spec_capacity() == old(self).events.spec_capacity(),
            final(self).metrics@ == old(self).metrics@,
            status_of(&final(self).mcp_status) == status_of(&old(self).mcp_status),
            final(self).active_sessions@ == old(self).active_sessions@,
    {
        self.tool_calls.append(call);
    }

    /// Binds a metric name to a sample, replacing any earlier one.
    pub fn update_metric(&mut self, key: &str, value: MetricValue)
        requires
            old(self).wf(),
        ensures
            final(self).wf(),
            final(self).metrics@ == old(self).metrics@.insert(key@, value@),
            final(self).tool_calls@ == old(self).tool_calls@,
            final(self).tool_calls.retention_cap() == old(self).tool_calls.retention_cap(),
            final(self).events@ == old(self).events@,
            final(self).events.spec_capacity() == old(self).events.spec_capacity(),
            status_of(&final(self).mcp_status) == status_of(&old(self).mcp_status),
            final(self).active_sessions@ == old(self).active_sessions@,
    {
        self.metrics.set(key, value);
    }

    /// Point-in-time copy of every metric, in an unspecified order.
    pub fn get_metrics(&self) -> (r: Vec<(String, MetricValue)>)
        ensures
            r@.len() == self.metrics@.dom().len(),
            forall|i: int|
                0 <= i < r@.len() ==> self.metrics@.contains_pair((#[trigger] r@[i]).0@, r@[i].1@),
            forall|k: Seq<char>|
                self.metrics@.contains_key(k) ==> exists|i: int|
                    0 <= i < r@.len() && (#[trigger] r@[i]).0@ == k,
    {
        self.metrics.snapshot()
    }

    /// Publishes one event to every live subscriber.  With no subscribers
    /// the event is handed back, as the send half of a broadcast channel
    /// does; nothing was lost, since nobody was listening.
    pub fn send_event(&mut self, event: SystemEvent) -> (r: Result<(), SystemEvent>)
        requires
            old(self).wf(),
        ensures
            final(self).wf(),
            r is Ok <==> spec_active_count(old(self).events@) > 0,
            r matches Err(e) ==> e@ == event@,
            final(self).events@.len() == old(self).events@.len(),
            final(self).events.spec_capacity() == old(self).events.spec_capacity(),
            forall|j: int|
                0 <= j < old(self).events@.len() && old(self).events@[j].active ==> final(self).events@[j] == spec_offered(
                    old(self).events@[j],
                    old(self).events.spec_capacity(),
                    event@,
                ),
            forall|j: int|
                0 <= j < old(self).events@.len() && !old(self).events@[j].active ==> final(self).events@[j] == old(self).events@[j],
            final(self).tool_calls@ == old(self).tool_calls@,
            final(self).tool_calls.retention_cap() == old(self).tool_calls.retention_cap(),
            final(self).metrics@ == old(self).metrics@,
            status_of(&final(self).mcp_status) == status_of(&old(self).mcp_status),
            final(self).active_sessions@ == old(self).active_sessions@,
    {
        let n = self.events.publish(&event);
        if n == 0 {
            Err(event)
        } else {
            Ok(())
        }
    }

    /// Folds a detailed event record into a plain event and publishes it.
    pub fn send_event_details(&mut self, event: SystemEventDetails) -> (r: Result<
        (),
        SystemEvent,
    >)
        requires
            old(self).wf(),
        ensures
            final(self).wf(),
            r is Ok <==> spec_active_count(old(self).events@) > 0,
            r matches Err(e) ==> e@ == spec_event_of_details(event@),
            final(self).events@.len() == old(self).events@.len(),
            final(self).events.spec_capacity() == old(self).events.spec_capacity(),
            forall|j: int|
                0 <= j < old(self).events@.len() && old(self).events@[j].active ==> final(self).events@[j] == spec_offered(
                    old(self).events@[j],
                    old(self).events.spec_capacity(),
                    spec_event_of_details(event@),
                ),
            forall|j: int|
                0 <= j < old(self).events@.len() && !old(self).events@[j].active ==> final(self).events@[j] == old(self).events@[j],
    {
        let is_tool = strings_equal(&event.event_type, "file_read") || strings_equal(
            &event.event_type,
            "file_write",
        ) || strings_equal(&event.event_type, "directory_list") || strings_equal(
            &event.event_type,
            "http_request",
        ) || strings_equal(&event.event_type, "system_info");
        let simple_event = if is_tool {
            SystemEvent::ToolCalled { name: event.event_type, id: event.id }
        } else {
            SystemEvent::Error { message: event.description }
        };
        self.send_event(simple_event)
    }

    /// Registers a new independent event subscriber; it observes every event
    /// published after this call and none published before.
    pub fn subscribe_to_events(&mut self) -> (id: usize)
        requires
            old(self).wf(),
        ensures
            final(self).wf(),
            id == old(self).events@.len(),
            final(self).events@ == old(self).events@.push(
                (crate::events::SubscriberV { active: true, queue: Seq::empty(), missed: 0 }),
            ),
            final(self).events.spec_capacity() == old(self).events.spec_capacity(),
            final(self).tool_calls@ == old(self).tool_calls@,
            final(self).metrics@ == old(self).metrics@,
    {
        self.events.subscribe()
    }

    /// Marks the server alive at `now_ms`: the current snapshot is loaded,
    /// a copy gets the new heartbeat and the connected flag, and the copy
    /// replaces the visible snapshot wholesale (last writer wins under
    /// races, as the status cell provides no read-modify-write).
    pub fn record_heartbeat(&mut self, now_ms: i64)
        requires
            old(self).wf(),
        ensures
            final(self).wf(),
            status_of(&final(self).mcp_status) == (crate::status::McpStatusV {
                connected: true,
                last_heartbeat: Some(now_ms),
                ..status_of(&old(self).mcp_status)
            }),
            final(self).tool_calls@ == old(self).tool_calls@,
            final(self).metrics@ == old(self).metrics@,
            final(self).events@ == old(self).events@,
            final(self).active_sessions@ == old(self).active_sessions@,
    {
        let mut snapshot = self.mcp_status.load();
        snapshot.last_heartbeat = Some(now_ms);
        snapshot.connected = true;
        self.mcp_status.store(snapshot);
    }

    /// The current status snapshot, whole and never torn.
    pub fn get_status(&self) -> (r: McpStatus)
        ensures
            r@ == status_of(&self.mcp_status),
    {
        self.mcp_status.load()
    }

    /// Point-in-time copy of every active session, in an unspecified order.
    pub fn get_active_sessions(&self) -> (r: Vec<SessionInfo>)
        ensures
            r@.len() == self.active_sessions@.dom().len(),
            forall|i: int|
                0 <= i < r@.len() ==> crate::session::spec_appears_in(
                    self.active_sessions@,
                    #[trigger] r@[i],
                ),
    {
        self.active_sessions.snapshot()
    }

    /// Stored events: none are kept, so this is always empty — events are
    /// transient and only observed through subscriptions.
    pub fn get_events(&self, limit: usize) -> (r: Vec<SystemEvent>)
        ensures
            r@.len() == 0,
    {
        let _ = limit;
        Vec::new()
    }

    /// Up to `limit` of the most recent tool call records, newest first.
    pub fn get_tool_calls(&self, limit: usize) -> (r: Vec<ToolCall>)
        ensures
            r@.len() == vstd::math::min(limit as int, self.tool_calls@.len() as int),
            forall|i: int|
                0 <= i < r@.len() ==> r@[i]@ == self.tool_calls@[self.tool_calls@.len() - 1 - i],
    {
        self.tool_calls.recent(limit)
    }

    /// The next outcome for an event subscriber.
    pub fn recv_event(&mut self, id: usize) -> (r: RecvOutcome)
        requires
            old(self).wf(),
        ensures
            final(self).wf(),
            final(self).events@.len() == old(self).events@.len(),
            final(self).events.spec_capacity() == old(self).events.spec_capacity(),
            forall|j: int|
                0 <= j < old(self).events@.len() && j != id ==> final(self).events@[j] == old(self).events@[j],
            !old(self).events.is_subscriber(id as int) ==> r@
                == crate::events::RecvOutcomeV::Closed,
            old(self).events.is_subscriber(id as int) && old(self).events.missed_of(id as int) > 0
                ==> r@ == crate::events::RecvOutcomeV::Lagged(
                old(self).events.missed_of(id as int),
            ),
            old(self).events.is_subscriber(id as int) && old(self).events.missed_of(id as int)
                == 0 && old(self).events.queue_of(id as int).len() == 0 ==> r@
                == crate::events::RecvOutcomeV::Empty,
            old(self).events.is_subscriber(id as int) && old(self).events.missed_of(id as int)
                == 0 && old(self).events.queue_of(id as int).len() > 0 ==> r@
                == crate::events::RecvOutcomeV::Event(old(self).events.queue_of(id as int)[0])
                && final(self).events.queue_of(id as int) == old(self).events.queue_of(id as int).drop_first(),
            final(self).tool_calls@ == old(self).tool_calls@,
            final(self).metrics@ == old(self).metrics@,
    {
        self.events.recv(id)
    }

    /// Releases an event subscription, so that no queue is left behind for a
    /// gone observer.
    pub fn unsubscribe_events(&mut self, id: usize)
        requires
            old(self).wf(),
        ensures
            final(self).wf(),
            final(self).events@.len() == old(self).events@.len(),
            final(self).events.spec_capacity() == old(self).events.spec_capacity(),
            !final(self).events.is_subscriber(id as int),
            forall|j: int|
                0 <= j < old(self).events@.len() && j != id ==> final(self).events@[j] == old(self).events@[j],
    {
        self.events.unsubscribe(id)
    }
}

impl Default for AppState {
    /// Same as [`AppState::new`].
    fn default() -> (r: Self)
        ensures
            r.wf(),
    {
        AppState::new()
    }
}

} // verus!
