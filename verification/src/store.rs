//! A store whose data belongs to one owner.
//!
//! The data is borrowed by the caller. An operation names the handle to borrow
//! through, and takes the data so borrowed.
use crate::callbacks::Callbacks;
use crate::callbacks::RemoveCallback;
use crate::callbacks::SetCallback;
use crate::create::can_share_empty;
use crate::create::creation_mode;
use crate::create::share_empty;
use crate::create::shares_empty;
use crate::create::Loading;
use crate::create::NewFile;
use crate::create::StoreView;
use crate::error::WatchError;
use crate::file::FileWrite;
use crate::file::OpenMode;
use crate::guard::SyncGuard;
use crate::listener::Listening;
use crate::pending::Pending;
use std::path::PathBuf;
use vstd::prelude::*;

verus! {

/// A value in memory and the JSON file that follows it.
///
/// `D` is the handle on the data, `L` the running listener on the file, `K` the
/// handle on the callback table that the store shares with it.
pub struct SyncedJsonStore<D, L, K> {
    data: D,
    path: PathBuf,
    listener: Option<L>,
    callbacks: K,
}

/// A store whose data has still to be written to its file.
pub struct Creation<T> {
    file: NewFile<T>,
}

/// A store with a listener whose data has still to be written to its file.
pub struct ListenedCreation<T> {
    file: NewFile<T>,
}

/// A store whose listener has still to be set up.
pub struct Starting<D, L, K> {
    store: SyncedJsonStore<D, L, K>,
}

/// A value that is to take the place of the data behind the handle `D`.
pub struct Replacing<'a, D, T> {
    data: &'a D,
    value: T,
    path: &'a PathBuf,
}

/// An edit that is to be made on a copy of the data behind the handle `D`.
pub struct Updating<'a, D, F> {
    data: &'a D,
    edit: F,
    path: &'a PathBuf,
}

/// The data behind the handle `D`, to be copied.
pub struct Copying<'a, D> {
    data: &'a D,
}

/// The data behind the handle `D`, to be borrowed for editing.
pub struct Borrowing<'a, D> {
    data: &'a D,
    path: &'a PathBuf,
}

impl<D, L, K> View for SyncedJsonStore<D, L, K> {
    type V = StoreView<D, L, K>;

    closed spec fn view(&self) -> StoreView<D, L, K> {
        StoreView {
            data: self.data,
            path: self.path,
            listener: self.listener,
            callbacks: self.callbacks,
        }
    }
}

impl<T> Creation<T> {
    /// The data of the new store.
    pub closed spec fn data(self) -> T {
        self.file.data
    }

    /// Its file.
    pub closed spec fn target(self) -> PathBuf {
        self.file.path
    }

    /// How the file is opened.
    pub closed spec fn mode(self) -> OpenMode {
        self.file.mode
    }

    /// The write that has to succeed first.
    pub fn write(&self) -> (write: FileWrite<'_, T>)
        ensures
            write.target() == self.target(),
            write.mode() == self.mode(),
            write.value() == self.data(),
    {
        self.file.write()
    }

    /// Takes the outcome of the write. On success there is a store, with the
    /// data behind the handle that `own` makes, without a listener, and with a
    /// table without callbacks, shared by `share`; a failure is handed on.
    pub fn finish<
        D,
        L,
        C,
        K,
        E,
        P: FnOnce(T) -> D,
        S: FnOnce(Callbacks<C>) -> K,
    >(self, written: Result<(), E>, own: P, share: S) -> (store: Result<
        SyncedJsonStore<D, L, K>,
        E,
    >)
        requires
            call_requires(own, (self.data(),)),
            can_share_empty::<C, K, S>(share),
        ensures
            written matches Err(e) ==> store == Err::<SyncedJsonStore<D, L, K>, E>(e),
            written is Ok ==> (store matches Ok(s) && call_ensures(own, (self.data(),), s@.data)
                && s@.path == self.target() && s@.listener is None && shares_empty::<C, K, S>(
                share,
                s@.callbacks,
            )),
    {
        match written {
            Ok(()) => Ok(
                SyncedJsonStore {
                    data: own(self.file.data),
                    path: self.file.path,
                    listener: None,
                    callbacks: share_empty(share),
                },
            ),
            Err(e) => Err(e),
        }
    }
}

impl<T> ListenedCreation<T> {
    /// The data of the new store.
    pub closed spec fn data(self) -> T {
        self.file.data
    }

    /// Its file.
    pub closed spec fn target(self) -> PathBuf {
        self.file.path
    }

    /// How the file is opened.
    pub closed spec fn mode(self) -> OpenMode {
        self.file.mode
    }

    /// The write that has to succeed first.
    pub fn write(&self) -> (write: FileWrite<'_, T>)
        ensures
            write.target() == self.target(),
            write.mode() == self.mode(),
            write.value() == self.data(),
    {
        self.file.write()
    }

    /// Takes the outcome of the write. On success there is a store as
    /// `Creation::finish` makes it, whose listener is set up next; a failure
    /// is handed on.
    pub fn finish<
        D,
        L,
        C,
        K,
        E,
        P: FnOnce(T) -> D,
        S: FnOnce(Callbacks<C>) -> K,
    >(self, written: Result<(), E>, own: P, share: S) -> (starting: Result<Starting<D, L, K>, E>)
        requires
            call_requires(own, (self.data(),)),
            can_share_empty::<C, K, S>(share),
        ensures
            written matches Err(e) ==> starting == Err::<Starting<D, L, K>, E>(e),
            written is Ok ==> (starting matches Ok(s) && call_ensures(
                own,
                (self.data(),),
                s.store()@.data,
            ) && s.store()@.path == self.target() && s.store()@.listener is None && shares_empty::<
                C,
                K,
                S,
            >(share, s.store()@.callbacks)),
    {
        match (Creation { file: self.file }).finish(written, own, share) {
            Ok(store) => Ok(Starting { store }),
            Err(e) => Err(e),
        }
    }
}

impl<D, L, K> Starting<D, L, K> {
    /// The store.
    pub closed spec fn store(self) -> SyncedJsonStore<D, L, K> {
        self.store
    }

    /// The set-up of a listener on the store's own file, which shares the
    /// store's callback table.
    pub fn listen(&mut self) -> (listening: Listening<'_, L, (), K>) where K: Clone
        ensures
            listening.target() == old(self).store()@.path,
            cloned(old(self).store()@.callbacks, listening.callbacks()),
            *listening.slot() == old(self).store()@.listener,
            final(self).store()@ == (StoreView {
                listener: *final(listening.slot()),
                ..old(self).store()@
            }),
    {
        let callbacks = self.store.callbacks.clone();
        Listening::new(&mut self.store.listener, &self.store.path, (), callbacks)
    }

    /// Takes the outcome of the set-up. The store is there either way: a
    /// listener that could not be set up is done without.
    pub fn started<N>(self, listening: Result<(), WatchError<N>>) -> (store: SyncedJsonStore<
        D,
        L,
        K,
    >)
        ensures
            store == self.store(),
    {
        self.store
    }
}

impl<'a, D, T> Replacing<'a, D, T> {
    /// The handle on the data.
    pub closed spec fn owned(self) -> D {
        *self.data
    }

    /// The value that is to take the place of the data.
    pub closed spec fn value(self) -> T {
        self.value
    }

    /// The file of the store.
    pub closed spec fn target(self) -> PathBuf {
        *self.path
    }

    /// The handle to borrow the data through.
    pub fn handle(&self) -> (data: &'a D)
        ensures
            *data == self.owned(),
    {
        self.data
    }

    /// Takes the data. It is replaced once the value is written to the file.
    pub fn borrowed<'b>(self, slot: &'b mut T) -> (pending: Pending<'b, T>) where 'a: 'b
        ensures
            pending.value() == self.value(),
            pending.target() == self.target(),
            *pending.slot() == *old(slot),
            *final(slot) == *final(pending.slot()),
    {
        Pending::new(slot, self.value, self.path)
    }
}

impl<'a, D, F> Updating<'a, D, F> {
    /// The handle on the data.
    pub closed spec fn owned(self) -> D {
        *self.data
    }

    /// The edit.
    pub closed spec fn edit(self) -> F {
        self.edit
    }

    /// The file of the store.
    pub closed spec fn target(self) -> PathBuf {
        *self.path
    }

    /// The handle to borrow the data through.
    pub fn handle(&self) -> (data: &'a D)
        ensures
            *data == self.owned(),
    {
        self.data
    }

    /// Takes the data. It is replaced by the edited copy once that is written to
    /// the file.
    pub fn borrowed<'b, T: Clone>(self, slot: &'b mut T) -> (pending: Pending<'b, T>) where
        F: FnOnce(&mut T),
        'a: 'b,

        requires
            forall|copy: &mut T|
                cloned(*old(slot), *copy) ==> #[trigger] call_requires(self.edit(), (copy,)),
        ensures
            exists|copy: &mut T|
                cloned(*old(slot), *copy) && *final(copy) == pending.value()
                    && #[trigger] call_ensures(self.edit(), (copy,), ()),
            pending.target() == self.target(),
            *pending.slot() == *old(slot),
            *final(slot) == *final(pending.slot()),
    {
        let Updating { data: _, edit, path } = self;
        assert(edit == self.edit());
        let mut temp_data = slot.clone();
        edit(&mut temp_data);
        Pending::new(slot, temp_data, path)
    }
}

impl<'a, D> Copying<'a, D> {
    /// The handle on the data.
    pub closed spec fn owned(self) -> D {
        *self.data
    }

    /// The handle to borrow the data through.
    pub fn handle(&self) -> (data: &'a D)
        ensures
            *data == self.owned(),
    {
        self.data
    }

    /// Takes the data, and gives a copy of it.
    pub fn borrowed<T: Clone>(self, data: &T) -> (copy: T)
        ensures
            cloned(*data, copy),
    {
        data.clone()
    }
}

impl<'a, D> Borrowing<'a, D> {
    /// The handle on the data.
    pub closed spec fn owned(self) -> D {
        *self.data
    }

    /// The file of the store.
    pub closed spec fn target(self) -> PathBuf {
        *self.path
    }

    /// The handle to borrow the data through.
    pub fn handle(&self) -> (data: &'a D)
        ensures
            *data == self.owned(),
    {
        self.data
    }

    /// Takes the borrow of the data.
    pub fn borrowed<G, T>(self, guard: G) -> (res: SyncGuard<'a, G, T>)
        ensures
            res.borrow() == guard,
            res.copy() is None,
            res.target() == self.target(),
    {
        SyncGuard::new(guard, self.path)
    }
}

impl<D, L, K> SyncedJsonStore<D, L, K> {
    /// A store of `data`, whose file is first created at `path`. A file that
    /// is already there is replaced if `overwrite` says so, and else refused.
    pub fn new<T>(data: T, path: PathBuf, overwrite: bool) -> (creation: Creation<T>)
        ensures
            creation.data() == data,
            creation.target() == path,
            creation.mode() == creation_mode(overwrite),
    {
        Creation { file: NewFile::new(data, path, overwrite) }
    }

    /// As `new`, with a listener on the file.
    pub fn new_with_listener<T>(data: T, path: PathBuf, overwrite: bool) -> (creation:
        ListenedCreation<T>)
        ensures
            creation.data() == data,
            creation.target() == path,
            creation.mode() == creation_mode(overwrite),
    {
        ListenedCreation { file: NewFile::new(data, path, overwrite) }
    }

    /// A store of the data that the file at `path` holds.
    pub fn from_file(path: PathBuf) -> (loading: Loading)
        ensures
            loading.target() == path,
    {
        Loading::new(path)
    }

    /// Takes the outcome of opening and parsing the file. On success there is
    /// a store of the value, behind the handle that `own` makes, without a
    /// listener and with a table without callbacks, shared by `share`; a failure
    /// is handed on.
    pub fn loaded<T, C, E, P: FnOnce(T) -> D, S: FnOnce(Callbacks<C>) -> K>(
        loading: Loading,
        value: Result<T, E>,
        own: P,
        share: S,
    ) -> (store: Result<Self, E>)
        requires
            value matches Ok(v) ==> call_requires(own, (v,)),
            can_share_empty::<C, K, S>(share),
        ensures
            value matches Err(e) ==> store == Err::<Self, E>(e),
            value matches Ok(v) ==> (store matches Ok(s) && call_ensures(own, (v,), s@.data)
                && s@.path == loading.target() && s@.listener is None && shares_empty::<C, K, S>(
                share,
                s@.callbacks,
            )),
    {
        match value {
            Ok(value) => Ok(
                SyncedJsonStore {
                    data: own(value),
                    path: loading.into_path(),
                    listener: None,
                    callbacks: share_empty(share),
                },
            ),
            Err(e) => Err(e),
        }
    }

    /// Sets up a listener on `path`, which shares the store's callback table.
    /// Once that has succeeded the store has it, in place of an earlier one.
    pub fn set_listener<'a>(&'a mut self, path: &'a PathBuf) -> (listening: Listening<
        'a,
        L,
        (),
        K,
    >) where K: Clone
        ensures
            listening.target() == *path,
            cloned(old(self)@.callbacks, listening.callbacks()),
            *listening.slot() == old(self)@.listener,
            final(self)@ == (StoreView { listener: *final(listening.slot()), ..old(self)@ }),
    {
        let callbacks = self.callbacks.clone();
        Listening::new(&mut self.listener, path, (), callbacks)
    }

    /// Puts `callback` under `key` into the store's callback table, once that is
    /// locked.
    pub fn set_callback<'a, C>(&'a self, key: &'a str, callback: C) -> (step: SetCallback<
        'a,
        K,
        C,
    >)
        ensures
            step.table() == self@.callbacks,
            step.key() == key@,
            step.callback() == callback,
    {
        SetCallback::new(&self.callbacks, key, callback)
    }

    /// Takes the callback under `key` out of the store's callback table, once
    /// that is locked.
    pub fn remove_callback<'a>(&'a self, key: &'a str) -> (step: RemoveCallback<'a, K>)
        ensures
            step.table() == self@.callbacks,
            step.key() == key@,
    {
        RemoveCallback::new(&self.callbacks, key)
    }

    /// Puts `new_data` in the place of the data, once it is written to the
    /// file.
    pub fn replace<T>(&mut self, new_data: T) -> (replacing: Replacing<'_, D, T>)
        ensures
            replacing.owned() == old(self)@.data,
            replacing.value() == new_data,
            replacing.target() == old(self)@.path,
            final(self)@ == old(self)@,
    {
        Replacing { data: &self.data, value: new_data, path: &self.path }
    }

    /// Puts a copy of the data that `f` has edited in the place of the data,
    /// once it is written to the file.
    pub fn update_with<F>(&mut self, f: F) -> (updating: Updating<'_, D, F>)
        ensures
            updating.owned() == old(self)@.data,
            updating.edit() == f,
            updating.target() == old(self)@.path,
            final(self)@ == old(self)@,
    {
        Updating { data: &self.data, edit: f, path: &self.path }
    }

    /// A copy of the data.
    pub fn get_data(&self) -> (copying: Copying<'_, D>)
        ensures
            copying.owned() == self@.data,
    {
        Copying { data: &self.data }
    }

    /// Exclusive access to the data, to edit it in place.
    #[must_use]
    pub fn get_mut(&self) -> (borrowing: Borrowing<'_, D>)
        ensures
            borrowing.owned() == self@.data,
            borrowing.target() == self@.path,
    {
        Borrowing { data: &self.data, path: &self.path }
    }
}

} // verus!
