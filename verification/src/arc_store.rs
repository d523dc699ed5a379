//! A store whose data is shared behind a lock.
//!
//! The lock is taken by the caller. An operation names the handle whose lock is
//! to be taken, and takes the outcome, which is the locked data or the message
//! of a poisoned lock.
use crate::callbacks::Callbacks;
use crate::callbacks::RemoveCallback;
use crate::callbacks::SetCallback;
use crate::create::can_share_empty;
use crate::create::creation_mode;
use crate::create::share_empty;
use crate::create::shares_empty;
use crate::create::Loading;
use crate::create::NewFile;
use crate::create::StoreView;
use crate::error::SyncError;
use crate::error::WatchError;
use crate::file::write_data_to_file;
use crate::file::FileWrite;
use crate::file::OpenMode;
use crate::file::WriteOutcome;
use crate::history::shared_memory;
use crate::history::Attempt;
use crate::history::SharedStep;
use crate::listener::Listening;
use std::path::PathBuf;
use vstd::prelude::*;

verus! {

/// A shared value and the JSON file that it is kept in step with.
///
/// `D` is the handle on the locked data, `L` the running listener on the file,
/// `K` the handle on the callback table that the store shares with it.
pub struct ArcSyncedJsonStore<D, L, K> {
    data: D,
    path: PathBuf,
    listener: Option<L>,
    callbacks: K,
}

/// A shared store whose data has still to be written to its file.
pub struct SharedCreation<T> {
    file: NewFile<T>,
}

/// A shared store with a listener whose data has still to be written to its
/// file.
pub struct SharedListenedCreation<T> {
    file: NewFile<T>,
}

/// A shared store whose listener has still to be set up.
pub struct SharedStarting<D, L, K> {
    store: ArcSyncedJsonStore<D, L, K>,
}

/// A value that has still to be written to the file, and is then to take the
/// place of the data behind the handle `D`.
pub struct Replacement<'a, D, T> {
    value: T,
    path: &'a PathBuf,
    data: &'a D,
}

/// A value that is written to the file and has still to take the place of the
/// data behind the handle `D`.
pub struct WrittenReplacement<'a, D, T> {
    value: T,
    data: &'a D,
}

/// An edit that has still to be made on the data behind the handle `D`.
pub struct Update<'a, D, F> {
    edit: F,
    path: &'a PathBuf,
    data: &'a D,
}

/// Edited data that has still to be written to the file.
pub struct Edited<'a, T> {
    data: &'a T,
    path: &'a PathBuf,
}

impl<D, L, K> View for ArcSyncedJsonStore<D, L, K> {
    type V = StoreView<D, L, K>;

    closed spec fn view(&self) -> StoreView<D, L, K> {
        StoreView {
            data: self.data,
            path: self.path,
            listener: self.listener,
            callbacks: self.callbacks,
        }
    }
}

impl<T> SharedCreation<T> {
    /// The data of the new store.
    pub closed spec fn data(self) -> T {
        self.file.data
    }

    /// Its file.
    pub closed spec fn target(self) -> PathBuf {
        self.file.path
    }

    /// How the file is opened.
    pub closed spec fn mode(self) -> OpenMode {
        self.file.mode
    }

    /// The write that has to succeed first.
    pub fn write(&self) -> (write: FileWrite<'_, T>)
        ensures
            write.target() == self.target(),
            write.mode() == self.mode(),
            write.value() == self.data(),
    {
        self.file.write()
    }

    /// Takes the outcome of the write. On success there is a store, with the
    /// data shared by `share_data`, without a listener, and with a table
    /// without callbacks, shared by `share`; a failure is handed on.
    pub fn finish<
        D,
        L,
        C,
        K,
        E,
        P: FnOnce(T) -> D,
        S: FnOnce(Callbacks<C>) -> K,
    >(self, written: Result<(), E>, share_data: P, share: S) -> (store: Result<
        ArcSyncedJsonStore<D, L, K>,
        E,
    >)
        requires
            call_requires(share_data, (self.data(),)),
            can_share_empty::<C, K, S>(share),
        ensures
            written matches Err(e) ==> store == Err::<ArcSyncedJsonStore<D, L, K>, E>(e),
            written is Ok ==> (store matches Ok(s) && call_ensures(
                share_data,
                (self.data(),),
                s@.data,
            ) && s@.path == self.target() && s@.listener is None && shares_empty::<C, K, S>(
                share,
                s@.callbacks,
            )),
    {
        match written {
            Ok(()) => Ok(
                ArcSyncedJsonStore {
                    data: share_data(self.file.data),
                    path: self.file.path,
                    listener: None,
                    callbacks: share_empty(share),
                },
            ),
            Err(e) => Err(e),
        }
    }
}

impl<T> SharedListenedCreation<T> {
    /// The data of the new store.
    pub closed spec fn data(self) -> T {
        self.file.data
    }

    /// Its file.
    pub closed spec fn target(self) -> PathBuf {
        self.file.path
    }

    /// How the file is opened.
    pub closed spec fn mode(self) -> OpenMode {
        self.file.mode
    }

    /// The write that has to succeed first.
    pub fn write(&self) -> (write: FileWrite<'_, T>)
        ensures
            write.target() == self.target(),
            write.mode() == self.mode(),
            write.value() == self.data(),
    {
        self.file.write()
    }

    /// Takes the outcome of the write. On success there is a store as
    /// `SharedCreation::finish` makes it, whose listener is set up next; a
    /// failure is handed on.
    pub fn finish<
        D,
        L,
        C,
        K,
        E,
        P: FnOnce(T) -> D,
        S: FnOnce(Callbacks<C>) -> K,
    >(self, written: Result<(), E>, share_data: P, share: S) -> (starting: Result<
        SharedStarting<D, L, K>,
        E,
    >)
        requires
            call_requires(share_data, (self.data(),)),
            can_share_empty::<C, K, S>(share),
        ensures
            written matches Err(e) ==> starting == Err::<SharedStarting<D, L, K>, E>(e),
            written is Ok ==> (starting matches Ok(s) && call_ensures(
                share_data,
                (self.data(),),
                s.store()@.data,
            ) && s.store()@.path == self.target() && s.store()@.listener is None && shares_empty::<
                C,
                K,
                S,
            >(share, s.store()@.callbacks)),
    {
        match (SharedCreation { file: self.file }).finish(written, share_data, share) {
            Ok(store) => Ok(SharedStarting { store }),
            Err(e) => Err(e),
        }
    }
}

impl<D, L, K> SharedStarting<D, L, K> {
    /// The store.
    pub closed spec fn store(self) -> ArcSyncedJsonStore<D, L, K> {
        self.store
    }

    /// The set-up of a listener on the store's own file, which refreshes the
    /// store's own data and shares its callback table.
    pub fn listen(&mut self) -> (listening: Listening<'_, L, D, K>) where D: Clone, K: Clone
        ensures
            listening.target() == old(self).store()@.path,
            cloned(old(self).store()@.data, listening.data()),
            cloned(old(self).store()@.callbacks, listening.callbacks()),
            *listening.slot() == old(self).store()@.listener,
            final(self).store()@ == (StoreView {
                listener: *final(listening.slot()),
                ..old(self).store()@
            }),
    {
        let data = self.store.get_data();
        let callbacks = self.store.callbacks.clone();
        Listening::new(&mut self.store.listener, &self.store.path, data, callbacks)
    }

    /// Takes the outcome of the set-up. There is a store only if its listener
    /// could be set up; a failure is handed on.
    pub fn started<N>(self, listening: Result<(), WatchError<N>>) -> (store: Result<
        ArcSyncedJsonStore<D, L, K>,
        WatchError<N>,
    >)
        ensures
            listening is Ok ==> store == Ok::<ArcSyncedJsonStore<D, L, K>, WatchError<N>>(
                self.store(),
            ),
            listening matches Err(e) ==> store == Err::<
                ArcSyncedJsonStore<D, L, K>,
                WatchError<N>,
            >(e),
    {
        match listening {
            Ok(()) => Ok(self.store),
            Err(e) => Err(e),
        }
    }
}

impl<'a, D, T> Replacement<'a, D, T> {
    /// The handle on the data.
    pub closed spec fn shared(self) -> D {
        *self.data
    }

    /// The value that is to take the place of the data.
    pub closed spec fn value(self) -> T {
        self.value
    }

    /// The file of the store.
    pub closed spec fn target(self) -> PathBuf {
        *self.path
    }

    /// The write that has to succeed first.
    pub fn write(&self) -> (write: FileWrite<'_, T>)
        ensures
            write.target() == self.target(),
            write.mode() == OpenMode::Truncate,
            write.value() == self.value(),
    {
        write_data_to_file(&self.value, self.path)
    }

    /// Takes the outcome of the write; after a failure the data is not touched.
    pub fn written<E>(self, written: Result<(), E>) -> (next: Result<
        WrittenReplacement<'a, D, T>,
        SyncError<E>,
    >)
        ensures
            written is Ok ==> (next matches Ok(w) && w.value() == self.value() && w.shared()
                == self.shared()),
            written matches Err(e) ==> next == Err::<
                WrittenReplacement<'a, D, T>,
                SyncError<E>,
            >(SyncError::Io(e)),
    {
        match written {
            Ok(()) => Ok(WrittenReplacement { value: self.value, data: self.data }),
            Err(e) => Err(SyncError::Io(e)),
        }
    }
}

impl<'a, D, T> WrittenReplacement<'a, D, T> {
    /// The handle on the data.
    pub closed spec fn shared(self) -> D {
        *self.data
    }

    /// The value that is to take the place of the data.
    pub closed spec fn value(self) -> T {
        self.value
    }

    /// The handle on the data to lock.
    pub fn handle(&self) -> (data: &'a D)
        ensures
            *data == self.shared(),
    {
        self.data
    }

    /// Takes the outcome of locking the data. The value takes its place; where
    /// the lock is poisoned the data stays, although the file has the value.
    pub fn locked<E>(self, slot: Result<&mut T, String>) -> (res: Result<(), SyncError<E>>)
        ensures
            slot matches Ok(s) ==> res is Ok && *final(s) == self.value() && *final(s)
                == shared_memory(
                *s,
                SharedStep::Replace(
                    Attempt { value: self.value(), outcome: WriteOutcome::Written },
                    true,
                ),
            ),
            slot matches Err(message) ==> res == Err::<(), SyncError<E>>(
                SyncError::Poisoned(message),
            ),
    {
        match slot {
            Ok(slot) => {
                *slot = self.value;
                Ok(())
            },
            Err(message) => Err(SyncError::Poisoned(message)),
        }
    }
}

impl<'a, D, F> Update<'a, D, F> {
    /// The handle on the data.
    pub closed spec fn shared(self) -> D {
        *self.data
    }

    /// The edit.
    pub closed spec fn edit(self) -> F {
        self.edit
    }

    /// The file of the store.
    pub closed spec fn target(self) -> PathBuf {
        *self.path
    }

    /// The handle on the data to lock.
    pub fn handle(&self) -> (data: &'a D)
        ensures
            *data == self.shared(),
    {
        self.data
    }

    /// Takes the outcome of locking the data. The edit is made on the data
    /// itself, before anything is written.
    pub fn locked<'b, T, E>(self, slot: Result<&'b mut T, String>) -> (next: Result<
        Edited<'b, T>,
        SyncError<E>,
    >) where F: FnOnce(&mut T), 'a: 'b
        requires
            slot matches Ok(s) ==> forall|data: &mut T|
                *data == *s ==> #[trigger] call_requires(self.edit(), (data,)),
        ensures
            slot matches Ok(s) ==> (next matches Ok(edited) && edited.data() == *final(s)
                && edited.target() == self.target() && exists|data: &mut T|
                *data == *s && *final(data) == *final(s) && #[trigger] call_ensures(
                    self.edit(),
                    (data,),
                    (),
                ) && forall|outcome: WriteOutcome|
                *final(s) == #[trigger] shared_memory(
                    *s,
                    SharedStep::Update(true, Attempt { value: edited.data(), outcome }),
                )),
            slot matches Err(message) ==> next == Err::<Edited<'b, T>, SyncError<E>>(
                SyncError::Poisoned(message),
            ),
    {
        let Update { edit, path, data: _ } = self;
        assert(edit == self.edit());
        match slot {
            Ok(slot) => {
                edit(&mut *slot);
                Ok(Edited { data: &*slot, path })
            },
            Err(message) => Err(SyncError::Poisoned(message)),
        }
    }
}

impl<'a, T> Edited<'a, T> {
    /// The data as edited.
    pub closed spec fn data(self) -> T {
        *self.data
    }

    /// The file of the store.
    pub closed spec fn target(self) -> PathBuf {
        *self.path
    }

    /// The write that is still to be made.
    pub fn write(&self) -> (write: FileWrite<'_, T>)
        ensures
            write.target() == self.target(),
            write.mode() == OpenMode::Truncate,
            write.value() == self.data(),
    {
        write_data_to_file(self.data, self.path)
    }

    /// Takes the outcome of the write. The data stays edited either way; a
    /// failure is reported.
    pub fn written<E>(self, written: Result<(), E>) -> (res: Result<(), SyncError<E>>)
        ensures
            written is Ok ==> res is Ok,
            written matches Err(e) ==> res == Err::<(), SyncError<E>>(SyncError::Io(e)),
    {
        match written {
            Ok(()) => Ok(()),
            Err(e) => Err(SyncError::Io(e)),
        }
    }
}

impl<D, L, K> ArcSyncedJsonStore<D, L, K> {
    /// A store of `data`, whose file is first created at `path`. A file that
    /// is already there is replaced if `overwrite` says so, and else refused.
    pub fn new<T>(data: T, path: PathBuf, overwrite: bool) -> (creation: SharedCreation<T>)
        ensures
            creation.data() == data,
            creation.target() == path,
            creation.mode() == creation_mode(overwrite),
    {
        SharedCreation { file: NewFile::new(data, path, overwrite) }
    }

    /// As `new`, with a listener on the file.
    pub fn new_with_listener<T>(data: T, path: PathBuf, overwrite: bool) -> (creation:
        SharedListenedCreation<T>)
        ensures
            creation.data() == data,
            creation.target() == path,
            creation.mode() == creation_mode(overwrite),
    {
        SharedListenedCreation { file: NewFile::new(data, path, overwrite) }
    }

    /// A store of the data that the file at `path` holds.
    pub fn from_file(path: PathBuf) -> (loading: Loading)
        ensures
            loading.target() == path,
    {
        Loading::new(path)
    }

    /// Takes the outcome of opening and parsing the file. On success there is
    /// a store of the value, shared by `share_data`, without a listener and
    /// with a table without callbacks, shared by `share`; a failure is handed
    /// on.
    pub fn loaded<T, C, E, P: FnOnce(T) -> D, S: FnOnce(Callbacks<C>) -> K>(
        loading: Loading,
        value: Result<T, E>,
        share_data: P,
        share: S,
    ) -> (store: Result<Self, E>)
        requires
            value matches Ok(v) ==> call_requires(share_data, (v,)),
            can_share_empty::<C, K, S>(share),
        ensures
            value matches Err(e) ==> store == Err::<Self, E>(e),
            value matches Ok(v) ==> (store matches Ok(s) && call_ensures(share_data, (v,), s@.data)
                && s@.path == loading.target() && s@.listener is None && shares_empty::<C, K, S>(
                share,
                s@.callbacks,
            )),
    {
        match value {
            Ok(value) => Ok(
                ArcSyncedJsonStore {
                    data: share_data(value),
                    path: loading.into_path(),
                    listener: None,
                    callbacks: share_empty(share),
                },
            ),
            Err(e) => Err(e),
        }
    }

    /// Sets up a listener on `path`, which refreshes the data behind `data` and
    /// shares the store's callback table. Once that has succeeded the store has
    /// it, in place of an earlier one.
    pub fn add_listener<'a>(&'a mut self, data: D, path: &'a PathBuf) -> (listening: Listening<
        'a,
        L,
        D,
        K,
    >) where K: Clone
        ensures
            listening.target() == *path,
            listening.data() == data,
            cloned(old(self)@.callbacks, listening.callbacks()),
            *listening.slot() == old(self)@.listener,
            final(self)@ == (StoreView { listener: *final(listening.slot()), ..old(self)@ }),
    {
        let callbacks = self.callbacks.clone();
        Listening::new(&mut self.listener, path, data, callbacks)
    }

    /// Puts `callback` under `key` into the store's callback table, once that is
    /// locked.
    pub fn set_callback<'a, C>(&'a self, key: &'a str, callback: C) -> (step: SetCallback<
        'a,
        K,
        C,
    >)
        ensures
            step.table() == self@.callbacks,
            step.key() == key@,
            step.callback() == callback,
    {
        SetCallback::new(&self.callbacks, key, callback)
    }

    /// Takes the callback under `key` out of the store's callback table, once
    /// that is locked.
    pub fn remove_callback<'a>(&'a self, key: &'a str) -> (step: RemoveCallback<'a, K>)
        ensures
            step.table() == self@.callbacks,
            step.key() == key@,
    {
        RemoveCallback::new(&self.callbacks, key)
    }

    /// Puts `new_data` in the place of the data, once it is written to the
    /// file.
    pub fn replace<T>(&self, new_data: T) -> (replacement: Replacement<'_, D, T>)
        ensures
            replacement.value() == new_data,
            replacement.target() == self@.path,
            replacement.shared() == self@.data,
    {
        Replacement { value: new_data, path: &self.path, data: &self.data }
    }

    /// Makes the edit `f` on the data, once that is locked, and writes the
    /// result to the file.
    pub fn update_with<F>(&self, f: F) -> (update: Update<'_, D, F>)
        ensures
            update.edit() == f,
            update.target() == self@.path,
            update.shared() == self@.data,
    {
        Update { edit: f, path: &self.path, data: &self.data }
    }

    /// The handle on the data.
    pub fn get_data(&self) -> (data: D) where D: Clone
        ensures
            cloned(self@.data, data),
    {
        self.data.clone()
    }
}

} // verus!
