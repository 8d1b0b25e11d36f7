//! The server status snapshot and the cell that holds the current one.

use vstd::prelude::*;

verus! {

/// Mathematical model of the server identification.
pub ghost struct ServerInfoV {
    pub name: Seq<char>,
    pub version: Seq<char>,
}

/// Server identification information.
#[derive(Debug)]
pub struct ServerInfo {
    /// Server name.
    pub name: String,
    /// Server version.
    pub version: String,
}

impl View for ServerInfo {
    type V = ServerInfoV;

    open spec fn view(&self) -> ServerInfoV {
        ServerInfoV { name: self.name@, version: self.version@ }
    }
}

impl Clone for ServerInfo {
    fn clone(&self) -> (r: Self)
        ensures
            r@ == self@,
    {
        ServerInfo { name: self.name.clone(), version: self.version.clone() }
    }
}

/// Mathematical model of a status snapshot.
pub ghost struct McpStatusV {
    pub connected: bool,
    pub last_heartbeat: Option<i64>,
    pub capabilities: Seq<Seq<char>>,
    pub server_info: ServerInfoV,
    pub started_at: i64,
}

/// One immutable server-status snapshot.  A snapshot is only ever replaced
/// wholesale in a [`StatusCell`], never mutated in place.
#[derive(Debug)]
pub struct McpStatus {
    /// Whether the server is currently connected.
    pub connected: bool,
    /// Last heartbeat, in milliseconds since the Unix epoch.
    pub last_heartbeat: Option<i64>,
    /// Server capabilities (tools, resources, prompts, ...).
    pub capabilities: Vec<String>,
    /// Server identification information.
    pub server_info: ServerInfo,
    /// When the server was started, in milliseconds since the Unix epoch.
    pub started_at: i64,
}

impl View for McpStatus {
    type V = McpStatusV;

    open spec fn view(&self) -> McpStatusV {
        McpStatusV {
            connected: self.connected,
            last_heartbeat: self.last_heartbeat,
            capabilities: Seq::new(self.capabilities@.len(), |i: int| self.capabilities@[i]@),
            server_info: self.server_info@,
            started_at: self.started_at,
        }
    }
}

impl Clone for McpStatus {
    fn clone(&self) -> (r: Self)
        ensures
            r@ == self@,
    {
        let mut caps: Vec<String> = Vec::new();
        let mut i: usize = 0;
        while i < self.capabilities.len()
            invariant
                i <= self.capabilities@.len(),
                caps@.len() == i,
                forall|j: int| 0 <= j < i ==> caps@[j]@ == self.capabilities@[j]@,
            decreases self.capabilities@.len() - i,
        {
            caps.push(self.capabilities[i].clone());
            i = i + 1;
        }
        let r = McpStatus {
            connected: self.connected,
            last_heartbeat: self.last_heartbeat,
            capabilities: caps,
            server_info: self.server_info.clone(),
            started_at: self.started_at,
        };
        assert(r@.capabilities =~= self@.capabilities);
        r
    }
}

impl McpStatus {
    /// The snapshot a freshly started server reports: connected, with the
    /// start time as its first heartbeat and the default capability list.
    pub fn initial(now_ms: i64) -> (r: Self)
        ensures
            r@.connected,
            r@.last_heartbeat == Some(now_ms),
            r@.started_at == now_ms,
            r@.capabilities == seq!["tools"@, "resources"@, "logging"@],
            r@.server_info.name == "Rust MCP Server"@,
            r@.server_info.version == "0.1.0"@,
    {
        let mut caps: Vec<String> = Vec::new();
        caps.push("tools".to_owned());
        caps.push("resources".to_owned());
        caps.push("logging".to_owned());
        let r = McpStatus {
            connected: true,
            last_heartbeat: Some(now_ms),
            capabilities: caps,
            server_info: ServerInfo {
                name: "Rust MCP Server".to_owned(),
                version: "0.1.0".to_owned(),
            },
            started_at: now_ms,
        };
        assert(r@.capabilities =~= seq!["tools"@, "resources"@, "logging"@]);
        r
    }
}

/// The snapshot a [`StatusCell`] currently holds.
pub uninterp spec fn status_of(c: &StatusCell) -> McpStatusV;

/// Holder of the current status snapshot.
///
/// Readers get the latest fully-formed snapshot and never observe a value
/// that mixes fields of two stored snapshots: the whole value is replaced
/// atomically.  The cell is backed by `arc_swap::ArcSwap`, which extends the
/// same whole-snapshot guarantee to concurrent readers and writers; verified
/// code reaches the cell through an exclusive reference, so its contracts
/// speak of one writer at a time.
#[verifier::external_body]
#[derive(Debug)]
pub struct StatusCell {
    inner: arc_swap::ArcSwap<McpStatus>,
}

impl StatusCell {
    /// Relies on `arc_swap::ArcSwap::from_pointee`: the cell starts out
    /// holding `initial`.
    #[verifier::external_body]
    pub fn new(initial: McpStatus) -> (r: Self)
        ensures
            status_of(&r) == initial@,
    {
        StatusCell { inner: arc_swap::ArcSwap::from_pointee(initial) }
    }

    /// Relies on `arc_swap::ArcSwapAny::load`: returns the snapshot the cell
    /// holds, whole and never torn.
    #[verifier::external_body]
    pub fn load(&self) -> (r: McpStatus)
        ensures
            r@ == status_of(self),
    {
        let guard = self.inner.load();
        (**guard).clone()
    }

    /// Relies on `arc_swap::ArcSwapAny::store`: atomically replaces the
    /// visible snapshot with `new`.
    #[verifier::external_body]
    pub fn store(&mut self, new: McpStatus)
        ensures
            status_of(final(self)) == new@,
    {
        self.inner.store(std::sync::Arc::new(new));
    }
}

} // verus!
