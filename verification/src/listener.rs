//! Setting up the listener of a store.
use crate::error::WatchError;
use crate::events::FileEvent;
use crate::reload::reload_stage;
use crate::reload::Reload;
use std::path::PathBuf;
use vstd::prelude::*;

verus! {

/// How long the watcher gathers events before it delivers them.
pub const DEBOUNCE_MILLIS: u64 = 500;

/// A listener to be set up, and the handles that its handler shares with the
/// store: `D` on the data that the handler refreshes, `K` on the callback
/// table.
pub struct Listening<'a, L, D, K> {
    slot: &'a mut Option<L>,
    path: &'a PathBuf,
    data: D,
    callbacks: K,
}

/// What the handler of a listener works with: the handle `D` on the data that it
/// refreshes, and the handle `K` on the callback table.
pub struct Handler<D, K> {
    data: D,
    callbacks: K,
}

/// A listener to be made. Once it is made, it has to watch the path, and then
/// to take the path into its cache; only then does the store have it.
pub struct Making<'a, L> {
    slot: &'a mut Option<L>,
    path: &'a PathBuf,
}

/// A listener that has still to watch its path.
pub struct Watching<'a, L> {
    slot: &'a mut Option<L>,
    path: &'a PathBuf,
    listener: L,
}

/// A listener that watches its path and has still to take it into its cache.
pub struct Rooting<'a, L> {
    slot: &'a mut Option<L>,
    path: &'a PathBuf,
    listener: L,
}

impl<'a, L, D, K> Listening<'a, L, D, K> {
    /// The listener of the store.
    pub closed spec fn slot(self) -> &'a mut Option<L> {
        self.slot
    }

    /// The path to watch.
    pub closed spec fn target(self) -> PathBuf {
        *self.path
    }

    /// The handle on the data that the handler refreshes.
    pub closed spec fn data(self) -> D {
        self.data
    }

    /// The handle on the table whose callbacks the handler calls.
    pub closed spec fn callbacks(self) -> K {
        self.callbacks
    }

    pub(crate) fn new(
        slot: &'a mut Option<L>,
        path: &'a PathBuf,
        data: D,
        callbacks: K,
    ) -> (listening: Self)
        ensures
            *listening.slot() == *old(slot),
            *final(slot) == *final(listening.slot()),
            listening.target() == *path,
            listening.data() == data,
            listening.callbacks() == callbacks,
    {
        Listening { slot, path, data, callbacks }
    }

    /// Parts the handler, with what it shares with the store, from the listener
    /// that is to be made of it.
    pub fn handler(self) -> (parts: (Making<'a, L>, Handler<D, K>))
        ensures
            *parts.0.slot() == *self.slot(),
            *final(self.slot()) == *final(parts.0.slot()),
            parts.0.target() == self.target(),
            parts.1.data() == self.data(),
            parts.1.callbacks() == self.callbacks(),
    {
        (
            Making { slot: self.slot, path: self.path },
            Handler { data: self.data, callbacks: self.callbacks },
        )
    }
}

impl<D, K> Handler<D, K> {
    /// The handle on the data that the handler refreshes.
    pub closed spec fn data(self) -> D {
        self.data
    }

    /// The handle on the table whose callbacks the handler calls.
    pub closed spec fn callbacks(self) -> K {
        self.callbacks
    }

    /// The handle on the callback table to lock for each batch.
    pub fn table(&self) -> (table: &K)
        ensures
            *table == self.callbacks(),
    {
        &self.callbacks
    }

    /// Begins a batch that the watcher delivered, to refresh the data from the
    /// files of its events. A batch of errors counts as one without events.
    pub fn start<V, N>(&self, batch: Result<Vec<FileEvent<V>>, Vec<N>>) -> (next: Reload<
        '_,
        D,
        V,
    >)
        ensures
            batch matches Ok(events) ==> next.stage() == reload_stage(events@, 0)
                && next.of_batch(events@, self.data()),
            batch is Err ==> next is Done,
    {
        Reload::start(batch, &self.data)
    }
}

impl<'a, L> Making<'a, L> {
    /// The listener of the store.
    pub closed spec fn slot(self) -> &'a mut Option<L> {
        self.slot
    }

    /// The path to watch.
    pub closed spec fn target(self) -> PathBuf {
        *self.path
    }

    /// How long the watcher is to gather events.
    pub fn delay_millis(&self) -> (millis: u64)
        ensures
            millis == DEBOUNCE_MILLIS,
    {
        DEBOUNCE_MILLIS
    }

    /// How often the watcher is to look whether events are due; by default
    /// that follows from how long it gathers them.
    pub fn tick_millis(&self) -> (millis: Option<u64>)
        ensures
            millis is None,
    {
        None
    }

    /// Takes the outcome of making the listener. After a failure the store
    /// keeps the listener it had.
    pub fn made<N>(self, listener: Result<L, N>) -> (next: Result<Watching<'a, L>, WatchError<N>>)
        ensures
            listener matches Err(cause) ==> next == Err::<Watching<'a, L>, WatchError<N>>(
                WatchError { cause },
            ) && *final(self.slot()) == *self.slot(),
            listener matches Ok(l) ==> (next matches Ok(watching) && watching.made() == l
                && watching.target() == self.target() && *watching.slot() == *self.slot()
                && *final(self.slot()) == *final(watching.slot())),
    {
        match listener {
            Ok(listener) => Ok(Watching { slot: self.slot, path: self.path, listener }),
            Err(cause) => Err(WatchError { cause }),
        }
    }
}

impl<'a, L> Watching<'a, L> {
    /// The listener of the store.
    pub closed spec fn slot(self) -> &'a mut Option<L> {
        self.slot
    }

    /// The path to watch.
    pub closed spec fn target(self) -> PathBuf {
        *self.path
    }

    /// The listener that was made.
    pub closed spec fn made(self) -> L {
        self.listener
    }

    /// The path to watch.
    pub fn path(&self) -> (path: &'a PathBuf)
        ensures
            *path == self.target(),
    {
        self.path
    }

    /// Whether what lies below the path is watched too.
    pub fn recursive(&self) -> (recursive: bool)
        ensures
            !recursive,
    {
        false
    }

    /// The listener, to be set on the path.
    pub fn listener(&mut self) -> (listener: &mut L)
        ensures
            *listener == old(self).made(),
            final(self).made() == *final(listener),
            final(self).slot() == old(self).slot(),
            final(self).target() == old(self).target(),
    {
        &mut self.listener
    }

    /// Takes the outcome of watching the path. After a failure the listener is
    /// dropped and the store keeps the one it had.
    pub fn watched<N>(self, watch: Result<(), N>) -> (next: Result<Rooting<'a, L>, WatchError<N>>)
        ensures
            watch matches Err(cause) ==> next == Err::<Rooting<'a, L>, WatchError<N>>(
                WatchError { cause },
            ) && *final(self.slot()) == *self.slot(),
            watch is Ok ==> (next matches Ok(rooting) && rooting.made() == self.made()
                && rooting.target() == self.target() && *rooting.slot() == *self.slot()
                && *final(self.slot()) == *final(rooting.slot())),
    {
        match watch {
            Ok(()) => Ok(Rooting { slot: self.slot, path: self.path, listener: self.listener }),
            Err(cause) => Err(WatchError { cause }),
        }
    }
}

impl<'a, L> Rooting<'a, L> {
    /// The listener of the store.
    pub closed spec fn slot(self) -> &'a mut Option<L> {
        self.slot
    }

    /// The path to take into the cache.
    pub closed spec fn target(self) -> PathBuf {
        *self.path
    }

    /// The listener that was made.
    pub closed spec fn made(self) -> L {
        self.listener
    }

    /// The path to take into the cache.
    pub fn path(&self) -> (path: &'a PathBuf)
        ensures
            *path == self.target(),
    {
        self.path
    }

    /// Whether what lies below the path is taken too.
    pub fn recursive(&self) -> (recursive: bool)
        ensures
            !recursive,
    {
        false
    }

    /// The listener, whose cache takes the path.
    pub fn listener(&mut self) -> (listener: &mut L)
        ensures
            *listener == old(self).made(),
            final(self).made() == *final(listener),
            final(self).slot() == old(self).slot(),
            final(self).target() == old(self).target(),
    {
        &mut self.listener
    }

    /// Gives the listener to the store, in place of an earlier one, which is
    /// handed back to be ended.
    pub fn rooted(self) -> (earlier: Option<L>)
        ensures
            *final(self.slot()) == Some(self.made()),
            earlier == *self.slot(),
    {
        let Rooting { slot, path: _, listener } = self;
        let earlier = slot.take();
        *slot = Some(listener);
        earlier
    }
}

} // verus!
