//! File events, as far as the listeners look at them.
use std::path::PathBuf;
use vstd::prelude::*;

verus! {

/// How a file was modified.
#[derive(Debug, Clone, Copy, PartialEq, Eq, Structural)]
pub enum ModifyKind {
    Any,
    Data,
    Metadata,
    Name,
    Other,
}

/// What happened to a file.
#[derive(Debug, Clone, Copy, PartialEq, Eq, Structural)]
pub enum EventKind {
    Any,
    Access,
    Create,
    Modify(ModifyKind),
    Remove,
    Other,
}

/// An event, the paths it concerns, and the event as the watcher delivered it,
/// which is what callbacks are called on.
pub struct FileEvent<V> {
    pub kind: EventKind,
    pub paths: Vec<PathBuf>,
    pub origin: V,
}

impl<V> FileEvent<V> {
    /// Whether the event asks for the data to be read again: an unspecified
    /// modification, with a path to read from.
    pub open spec fn asks_reload(self) -> bool {
        &&& self.paths@.len() > 0
        &&& self.kind == EventKind::Modify(ModifyKind::Any)
    }

    /// The path to read again, where the event asks for that.
    pub fn reload_path(&self) -> (path: Option<&PathBuf>)
        ensures
            self.asks_reload() ==> path == Some(&self.paths@[0]),
            !self.asks_reload() ==> path is None,
            path is Some <==> self.paths@.len() > 0 && self.kind == EventKind::Modify(
                ModifyKind::Any,
            ),
            path matches Some(p) ==> *p == self.paths@[0],
    {
        if self.paths.len() == 0 {
            return None;
        }
        match self.kind {
            EventKind::Modify(ModifyKind::Any) => Some(&self.paths[0]),
            _ => None,
        }
    }
}

/// The events of a batch that the watcher delivered; a batch of errors counts
/// as one without events.
pub fn received<V, N>(batch: Result<Vec<V>, Vec<N>>) -> (events: Vec<V>)
    ensures
        batch matches Ok(delivered) ==> events == delivered,
        batch is Err ==> events@ == Seq::<V>::empty(),
{
    match batch {
        Ok(delivered) => delivered,
        Err(_) => Vec::new(),
    }
}

/// What the watcher delivered, event by event.
pub open spec fn origins<V>(events: Seq<FileEvent<V>>) -> Seq<V> {
    events.map_values(|event: FileEvent<V>| event.origin)
}

} // verus!
