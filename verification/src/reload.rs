//! Hot-reload support types: classifying changed files and the message that
//! asks a connected browser to refresh.

use vstd::prelude::*;

use crate::bridge;

verus! {

/// What kind of reload a changed file calls for.
#[derive(Debug, Clone, Copy, PartialEq, Eq, Structural)]
pub enum ReloadEvent {
    /// A frontend asset changed; the browser should refresh.
    FrontendChanged,
    /// A source file changed; a rebuild is needed.
    BackendChanged,
}

/// Whether `path` ends in `suffix`.
pub open spec fn spec_has_suffix(path: Seq<char>, suffix: Seq<char>) -> bool {
    path.len() >= suffix.len() && path.skip(path.len() - suffix.len()) == suffix
}

/// The reload kind a changed path calls for: source files are backend
/// changes, web assets are frontend changes, anything else is ignored.
pub open spec fn spec_classify_reload_path(path: Seq<char>) -> Option<ReloadEvent> {
    if spec_has_suffix(path, ".rs"@) {
        Some(ReloadEvent::BackendChanged)
    } else if spec_has_suffix(path, ".js"@) || spec_has_suffix(path, ".ts"@) || spec_has_suffix(
        path,
        ".css"@,
    ) || spec_has_suffix(path, ".html"@) || spec_has_suffix(path, ".askama"@) {
        Some(ReloadEvent::FrontendChanged)
    } else {
        None
    }
}

/// Classifies a changed file path by its extension.
pub fn classify_reload_path(path: &str) -> (r: Option<ReloadEvent>)
    ensures
        r == spec_classify_reload_path(path@),
{
    if bridge::str_ends_with(path, ".rs") {
        Some(ReloadEvent::BackendChanged)
    } else if bridge::str_ends_with(path, ".js") || bridge::str_ends_with(path, ".ts")
        || bridge::str_ends_with(path, ".css") || bridge::str_ends_with(path, ".html")
        || bridge::str_ends_with(path, ".askama") {
        Some(ReloadEvent::FrontendChanged)
    } else {
        None
    }
}

/// WebSocket message that asks the browser to reload.
#[derive(Debug)]
pub struct BrowserReloadMessage {
    /// Message discriminator, always `"reload"`.
    pub kind: String,
    /// Requested action, always `"refresh"`.
    pub action: String,
}

impl BrowserReloadMessage {
    /// The reload message.
    pub fn reload() -> (r: Self)
        ensures
            r.kind@ == "reload"@,
            r.action@ == "refresh"@,
    {
        BrowserReloadMessage { kind: "reload".to_owned(), action: "refresh".to_owned() }
    }
}

} // verus!
