use vstd::prelude::*;

verus! {

/// The kind of an event.
#[derive(Debug, Clone, Copy, PartialEq, Eq)]
pub enum PluginEventKind {
    /// An editor is closed.
    FileEditorClosed,
}

/// An event that can be handled.
/// Not all events are sent by default: a plugin subscribes to those it wants.
#[derive(Debug, PartialEq, Eq)]
pub enum PluginEvent {
    /// A file-backed editor was closed.
    FileEditorClosed { path: String },
}

impl PluginEvent {
    /// The kind of this event.
    pub fn kind(&self) -> (r: PluginEventKind)
        ensures
            self is FileEditorClosed ==> r == PluginEventKind::FileEditorClosed,
    {
        match self {
            PluginEvent::FileEditorClosed { .. } => PluginEventKind::FileEditorClosed,
        }
    }
}

} // verus!
