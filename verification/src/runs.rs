//! Whole operations: what comes of them when every step is carried out and given
//! its outcome.
use crate::arc_store::ArcSyncedJsonStore;
use crate::arc_store::Edited;
use crate::arc_store::Replacement;
use crate::arc_store::SharedCreation;
use crate::arc_store::SharedListenedCreation;
use crate::arc_store::SharedStarting;
use crate::arc_store::Update;
use crate::arc_store::WrittenReplacement;
use crate::callbacks::Callbacks;
use crate::callbacks::RemoveCallback;
use crate::callbacks::SetCallback;
use crate::create::Loading;
use crate::error::ErrorKind;
use crate::error::SyncError;
use crate::error::WatchError;
use crate::file::FileWrite;
use crate::file::OpenFlags;
use crate::guard::Edit;
use crate::guard::SyncGuard;
use crate::listener::Handler;
use crate::listener::Listening;
use crate::listener::Making;
use crate::listener::Rooting;
use crate::listener::Watching;
use crate::pending::Pending;
use crate::store::Borrowing;
use crate::store::Copying;
use crate::store::Creation;
use crate::store::ListenedCreation;
use crate::store::Replacing;
use crate::store::Starting;
use crate::store::SyncedJsonStore;
use crate::store::Updating;
use std::ops::Deref;
use std::path::PathBuf;
use vstd::prelude::*;

verus! {

/// A listener that could be made, could watch its path and was taken into the
/// cache is the listener of the store; the one that was there before is handed
/// back to be ended. So of the earlier listener and the new one, the store runs
/// just the new one.
pub proof fn law_listener_is_exchanged<'a, L, D, K, N>(
    listening: Listening<'a, L, D, K>,
    making: Making<'a, L>,
    handler: Handler<D, K>,
    listener: L,
    watching: Watching<'a, L>,
    rooting: Rooting<'a, L>,
    earlier: Option<L>,
)
    requires
        call_ensures(
            Listening::<'a, L, D, K>::handler,
            (listening,),
            (making, handler),
        ),
        call_ensures(
            Making::<'a, L>::made::<N>,
            (making, Ok::<L, N>(listener)),
            Ok::<Watching<'a, L>, WatchError<N>>(watching),
        ),
        call_ensures(
            Watching::<'a, L>::watched::<N>,
            (watching, Ok::<(), N>(())),
            Ok::<Rooting<'a, L>, WatchError<N>>(rooting),
        ),
        call_ensures(Rooting::<'a, L>::rooted, (rooting,), earlier),
    ensures
        *final(listening.slot()) == Some(listener),
        earlier == *listening.slot(),
        handler.data() == listening.data(),
        handler.callbacks() == listening.callbacks(),
{
}

/// A listener that could not be made, or could not watch its path, is reported
/// with the cause and as an error of another kind; the store keeps the listener
/// that it had.
pub proof fn law_failed_listener_changes_nothing<'a, L, D, K, N>(
    listening: Listening<'a, L, D, K>,
    making: Making<'a, L>,
    handler: Handler<D, K>,
    unmade: Result<Watching<'a, L>, WatchError<N>>,
    watching: Watching<'a, L>,
    unwatched: Result<Rooting<'a, L>, WatchError<N>>,
    cause: N,
)
    requires
        call_ensures(
            Listening::<'a, L, D, K>::handler,
            (listening,),
            (making, handler),
        ),
        call_ensures(Making::<'a, L>::made::<N>, (making, Err::<L, N>(cause)), unmade),
        call_ensures(
            Watching::<'a, L>::watched::<N>,
            (watching, Err::<(), N>(cause)),
            unwatched,
        ),
    ensures
        unmade matches Err(e) && e.cause == cause,
        *final(listening.slot()) == *listening.slot(),
        unwatched matches Err(e) && e.cause == cause,
        *final(watching.slot()) == *watching.slot(),
{
}

/// A listener gathers events for half a second, at a tick rate of the watcher's
/// own choice, and watches its path and caches it without what lies below.
pub proof fn law_listener_settings<'a, L>(
    making: &Making<'a, L>,
    delay: u64,
    tick: Option<u64>,
    watching: &Watching<'a, L>,
    watched: &'a PathBuf,
    below: bool,
    rooting: &Rooting<'a, L>,
    cached: &'a PathBuf,
    cached_below: bool,
)
    requires
        call_ensures(Making::<'a, L>::delay_millis, (making,), delay),
        call_ensures(Making::<'a, L>::tick_millis, (making,), tick),
        call_ensures(Watching::<'a, L>::path, (watching,), watched),
        call_ensures(Watching::<'a, L>::recursive, (watching,), below),
        call_ensures(Rooting::<'a, L>::path, (rooting,), cached),
        call_ensures(Rooting::<'a, L>::recursive, (rooting,), cached_below),
    ensures
        delay == 500,
        tick is None,
        *watched == watching.target(),
        !below,
        *cached == rooting.target(),
        !cached_below,
{
}

/// Setting a listener on a store exchanges its listener and nothing else: the new
/// one watches the given path and shares the store's callback table, and the
/// earlier one is handed back.
pub proof fn law_set_listener<'a, D, L, K: Clone, N>(
    store: &'a mut SyncedJsonStore<D, L, K>,
    path: &'a PathBuf,
    listening: Listening<'a, L, (), K>,
    making: Making<'a, L>,
    handler: Handler<(), K>,
    listener: L,
    watching: Watching<'a, L>,
    watched: &'a PathBuf,
    rooting: Rooting<'a, L>,
    earlier: Option<L>,
)
    requires
        call_ensures(SyncedJsonStore::<D, L, K>::set_listener, (store, path), listening),
        call_ensures(
            Listening::<'a, L, (), K>::handler,
            (listening,),
            (making, handler),
        ),
        call_ensures(
            Making::<'a, L>::made::<N>,
            (making, Ok::<L, N>(listener)),
            Ok::<Watching<'a, L>, WatchError<N>>(watching),
        ),
        call_ensures(Watching::<'a, L>::path, (&watching,), watched),
        call_ensures(
            Watching::<'a, L>::watched::<N>,
            (watching, Ok::<(), N>(())),
            Ok::<Rooting<'a, L>, WatchError<N>>(rooting),
        ),
        call_ensures(Rooting::<'a, L>::rooted, (rooting,), earlier),
    ensures
        *watched == *path,
        cloned(old(store)@.callbacks, handler.callbacks()),
        earlier == old(store)@.listener,
        final(store)@.listener == Some(listener),
        final(store)@.data == old(store)@.data,
        final(store)@.path == old(store)@.path,
        final(store)@.callbacks == old(store)@.callbacks,
{
}

/// Adding a listener to a shared store exchanges its listener and nothing else:
/// the new one watches the given path, refreshes the data behind the given handle
/// and shares the store's callback table, and the earlier one is handed back.
pub proof fn law_add_listener<'a, D, L, K: Clone, N>(
    store: &'a mut ArcSyncedJsonStore<D, L, K>,
    data: D,
    path: &'a PathBuf,
    listening: Listening<'a, L, D, K>,
    making: Making<'a, L>,
    handler: Handler<D, K>,
    listener: L,
    watching: Watching<'a, L>,
    watched: &'a PathBuf,
    rooting: Rooting<'a, L>,
    earlier: Option<L>,
)
    requires
        call_ensures(
            ArcSyncedJsonStore::<D, L, K>::add_listener,
            (store, data, path),
            listening,
        ),
        call_ensures(
            Listening::<'a, L, D, K>::handler,
            (listening,),
            (making, handler),
        ),
        call_ensures(
            Making::<'a, L>::made::<N>,
            (making, Ok::<L, N>(listener)),
            Ok::<Watching<'a, L>, WatchError<N>>(watching),
        ),
        call_ensures(Watching::<'a, L>::path, (&watching,), watched),
        call_ensures(
            Watching::<'a, L>::watched::<N>,
            (watching, Ok::<(), N>(())),
            Ok::<Rooting<'a, L>, WatchError<N>>(rooting),
        ),
        call_ensures(Rooting::<'a, L>::rooted, (rooting,), earlier),
    ensures
        *watched == *path,
        handler.data() == data,
        cloned(old(store)@.callbacks, handler.callbacks()),
        earlier == old(store)@.listener,
        final(store)@.listener == Some(listener),
        final(store)@.data == old(store)@.data,
        final(store)@.path == old(store)@.path,
        final(store)@.callbacks == old(store)@.callbacks,
{
}

/// A store of its own data starts with a listener on its own file that shares its
/// callback table, and is there whether or not the listener could be set up.
pub proof fn law_starting_store<'a, D, L, K: Clone, N>(
    starting: &'a mut Starting<D, L, K>,
    listening: Listening<'a, L, (), K>,
    started: Starting<D, L, K>,
    outcome: Result<(), WatchError<N>>,
    store: SyncedJsonStore<D, L, K>,
)
    requires
        call_ensures(Starting::<D, L, K>::listen, (starting,), listening),
        call_ensures(Starting::<D, L, K>::started::<N>, (started, outcome), store),
    ensures
        listening.target() == old(starting).store()@.path,
        cloned(old(starting).store()@.callbacks, listening.callbacks()),
        *listening.slot() == old(starting).store()@.listener,
        final(starting).store()@.listener == *final(listening.slot()),
        final(starting).store()@.data == old(starting).store()@.data,
        final(starting).store()@.path == old(starting).store()@.path,
        final(starting).store()@.callbacks == old(starting).store()@.callbacks,
        store == started.store(),
{
}

/// A shared store starts with a listener on its own file that refreshes its own
/// data and shares its callback table, and is there only if the listener could be
/// set up.
pub proof fn law_starting_shared_store<'a, D: Clone, L, K: Clone, N>(
    starting: &'a mut SharedStarting<D, L, K>,
    listening: Listening<'a, L, D, K>,
    started: SharedStarting<D, L, K>,
    outcome: Result<(), WatchError<N>>,
    store: Result<ArcSyncedJsonStore<D, L, K>, WatchError<N>>,
)
    requires
        call_ensures(SharedStarting::<D, L, K>::listen, (starting,), listening),
        call_ensures(SharedStarting::<D, L, K>::started::<N>, (started, outcome), store),
    ensures
        listening.target() == old(starting).store()@.path,
        cloned(old(starting).store()@.data, listening.data()),
        cloned(old(starting).store()@.callbacks, listening.callbacks()),
        *listening.slot() == old(starting).store()@.listener,
        final(starting).store()@.listener == *final(listening.slot()),
        final(starting).store()@.data == old(starting).store()@.data,
        final(starting).store()@.path == old(starting).store()@.path,
        final(starting).store()@.callbacks == old(starting).store()@.callbacks,
        outcome is Ok ==> (store matches Ok(s) && s == started.store()),
        outcome matches Err(e) ==> (store matches Err(f) && f == e),
{
}

/// A write goes to its file, opened in its way, and hands its value out only once
/// the file is open.
pub proof fn law_write_opens_first<'a, T, F, E>(
    write: FileWrite<'a, T>,
    path: &'a PathBuf,
    file: Result<F, E>,
    opened: Result<(F, &'a T), E>,
)
    requires
        call_ensures(FileWrite::<'a, T>::path, (&write,), path),
        call_ensures(FileWrite::<'a, T>::opened::<F, E>, (write, file), opened),
    ensures
        *path == write.target(),
        file matches Ok(f) ==> (opened matches Ok(o) && o.0 == f && *o.1 == write.value()),
        file matches Err(e) ==> (opened matches Err(f) && f == e),
{
}

/// A new store first writes its data to its file: over a file that is there if
/// told to overwrite, and else to a file that must not be there. After a
/// successful write there is a store of that data and that file, with no listener
/// and no callbacks; after a failure there is none.
pub proof fn law_new_store<'w, T, D, L, C, K, E, P: FnOnce(T) -> D, S: FnOnce(Callbacks<C>) -> K>(
    data: T,
    path: PathBuf,
    overwrite: bool,
    creation: Creation<T>,
    write: FileWrite<'w, T>,
    flags: OpenFlags,
    written: Result<(), E>,
    own: P,
    share: S,
    store: Result<SyncedJsonStore<D, L, K>, E>,
)
    requires
        call_ensures(SyncedJsonStore::<D, L, K>::new::<T>, (data, path, overwrite), creation),
        call_ensures(Creation::<T>::write, (&creation,), write),
        call_ensures(FileWrite::<'w, T>::flags, (&write,), flags),
        call_ensures(
            Creation::<T>::finish::<D, L, C, K, E, P, S>,
            (creation, written, own, share),
            store,
        ),
    ensures
        write.target() == path,
        write.value() == data,
        flags.write,
        flags.create_new == !overwrite,
        flags.create == overwrite,
        flags.truncate == overwrite,
        written matches Err(e) ==> (store matches Err(f) && f == e),
        written is Ok ==> (store matches Ok(s) && call_ensures(own, (data,), s@.data) && s@.path
            == path && s@.listener is None && exists|empty: Callbacks<C>|
            empty@ == Map::<Seq<char>, C>::empty() && #[trigger] call_ensures(
                share,
                (empty,),
                s@.callbacks,
            )),
{
}

/// As `law_new_store`, for a store that is to have a listener.
pub proof fn law_new_store_with_listener<
    'w,
    T,
    D,
    L,
    C,
    K,
    E,
    P: FnOnce(T) -> D,
    S: FnOnce(Callbacks<C>) -> K,
>(
    data: T,
    path: PathBuf,
    overwrite: bool,
    creation: ListenedCreation<T>,
    write: FileWrite<'w, T>,
    flags: OpenFlags,
    written: Result<(), E>,
    own: P,
    share: S,
    starting: Result<Starting<D, L, K>, E>,
)
    requires
        call_ensures(
            SyncedJsonStore::<D, L, K>::new_with_listener::<T>,
            (data, path, overwrite),
            creation,
        ),
        call_ensures(ListenedCreation::<T>::write, (&creation,), write),
        call_ensures(FileWrite::<'w, T>::flags, (&write,), flags),
        call_ensures(
            ListenedCreation::<T>::finish::<D, L, C, K, E, P, S>,
            (creation, written, own, share),
            starting,
        ),
    ensures
        write.target() == path,
        write.value() == data,
        flags.write,
        flags.create_new == !overwrite,
        flags.create == overwrite,
        flags.truncate == overwrite,
        written matches Err(e) ==> (starting matches Err(f) && f == e),
        written is Ok ==> (starting matches Ok(s) && call_ensures(own, (data,), s.store()@.data)
            && s.store()@.path == path && s.store()@.listener is None && exists|
            empty: Callbacks<C>,
        |
            empty@ == Map::<Seq<char>, C>::empty() && #[trigger] call_ensures(
                share,
                (empty,),
                s.store()@.callbacks,
            )),
{
}

/// As `law_new_store`, for a shared store.
pub proof fn law_new_shared_store<
    'w,
    T,
    D,
    L,
    C,
    K,
    E,
    P: FnOnce(T) -> D,
    S: FnOnce(Callbacks<C>) -> K,
>(
    data: T,
    path: PathBuf,
    overwrite: bool,
    creation: SharedCreation<T>,
    write: FileWrite<'w, T>,
    flags: OpenFlags,
    written: Result<(), E>,
    share_data: P,
    share: S,
    store: Result<ArcSyncedJsonStore<D, L, K>, E>,
)
    requires
        call_ensures(ArcSyncedJsonStore::<D, L, K>::new::<T>, (data, path, overwrite), creation),
        call_ensures(SharedCreation::<T>::write, (&creation,), write),
        call_ensures(FileWrite::<'w, T>::flags, (&write,), flags),
        call_ensures(
            SharedCreation::<T>::finish::<D, L, C, K, E, P, S>,
            (creation, written, share_data, share),
            store,
        ),
    ensures
        write.target() == path,
        write.value() == data,
        flags.write,
        flags.create_new == !overwrite,
        flags.create == overwrite,
        flags.truncate == overwrite,
        written matches Err(e) ==> (store matches Err(f) && f == e),
        written is Ok ==> (store matches Ok(s) && call_ensures(share_data, (data,), s@.data)
            && s@.path == path && s@.listener is None && exists|empty: Callbacks<C>|
            empty@ == Map::<Seq<char>, C>::empty() && #[trigger] call_ensures(
                share,
                (empty,),
                s@.callbacks,
            )),
{
}

/// As `law_new_store`, for a shared store that is to have a listener.
pub proof fn law_new_shared_store_with_listener<
    'w,
    T,
    D,
    L,
    C,
    K,
    E,
    P: FnOnce(T) -> D,
    S: FnOnce(Callbacks<C>) -> K,
>(
    data: T,
    path: PathBuf,
    overwrite: bool,
    creation: SharedListenedCreation<T>,
    write: FileWrite<'w, T>,
    flags: OpenFlags,
    written: Result<(), E>,
    share_data: P,
    share: S,
    starting: Result<SharedStarting<D, L, K>, E>,
)
    requires
        call_ensures(
            ArcSyncedJsonStore::<D, L, K>::new_with_listener::<T>,
            (data, path, overwrite),
            creation,
        ),
        call_ensures(SharedListenedCreation::<T>::write, (&creation,), write),
        call_ensures(FileWrite::<'w, T>::flags, (&write,), flags),
        call_ensures(
            SharedListenedCreation::<T>::finish::<D, L, C, K, E, P, S>,
            (creation, written, share_data, share),
            starting,
        ),
    ensures
        write.target() == path,
        write.value() == data,
        flags.write,
        flags.create_new == !overwrite,
        flags.create == overwrite,
        flags.truncate == overwrite,
        written matches Err(e) ==> (starting matches Err(f) && f == e),
        written is Ok ==> (starting matches Ok(s) && call_ensures(
            share_data,
            (data,),
            s.store()@.data,
        ) && s.store()@.path == path && s.store()@.listener is None && exists|
            empty: Callbacks<C>,
        |
            empty@ == Map::<Seq<char>, C>::empty() && #[trigger] call_ensures(
                share,
                (empty,),
                s.store()@.callbacks,
            )),
{
}

/// A store made from a file reads that file and has the value that was read, that
/// file, no listener and no callbacks; if nothing could be read there is none.
pub proof fn law_store_from_file<T, D, L, C, K, E, P: FnOnce(T) -> D, S: FnOnce(Callbacks<C>) -> K>(
    path: PathBuf,
    loading: Loading,
    opened: &PathBuf,
    flags: OpenFlags,
    value: Result<T, E>,
    own: P,
    share: S,
    store: Result<SyncedJsonStore<D, L, K>, E>,
)
    requires
        call_ensures(SyncedJsonStore::<D, L, K>::from_file, (path,), loading),
        call_ensures(Loading::path, (&loading,), opened),
        call_ensures(Loading::flags, (&loading,), flags),
        call_ensures(
            SyncedJsonStore::<D, L, K>::loaded::<T, C, E, P, S>,
            (loading, value, own, share),
            store,
        ),
    ensures
        *opened == path,
        flags.read && !flags.write && !flags.create && !flags.truncate && !flags.create_new,
        value matches Err(e) ==> (store matches Err(f) && f == e),
        value matches Ok(v) ==> (store matches Ok(s) && call_ensures(own, (v,), s@.data) && s@.path
            == path && s@.listener is None && exists|empty: Callbacks<C>|
            empty@ == Map::<Seq<char>, C>::empty() && #[trigger] call_ensures(
                share,
                (empty,),
                s@.callbacks,
            )),
{
}

/// As `law_store_from_file`, for a shared store.
pub proof fn law_shared_store_from_file<
    T,
    D,
    L,
    C,
    K,
    E,
    P: FnOnce(T) -> D,
    S: FnOnce(Callbacks<C>) -> K,
>(
    path: PathBuf,
    loading: Loading,
    opened: &PathBuf,
    flags: OpenFlags,
    value: Result<T, E>,
    share_data: P,
    share: S,
    store: Result<ArcSyncedJsonStore<D, L, K>, E>,
)
    requires
        call_ensures(ArcSyncedJsonStore::<D, L, K>::from_file, (path,), loading),
        call_ensures(Loading::path, (&loading,), opened),
        call_ensures(Loading::flags, (&loading,), flags),
        call_ensures(
            ArcSyncedJsonStore::<D, L, K>::loaded::<T, C, E, P, S>,
            (loading, value, share_data, share),
            store,
        ),
    ensures
        *opened == path,
        flags.read && !flags.write && !flags.create && !flags.truncate && !flags.create_new,
        value matches Err(e) ==> (store matches Err(f) && f == e),
        value matches Ok(v) ==> (store matches Ok(s) && call_ensures(share_data, (v,), s@.data)
            && s@.path == path && s@.listener is None && exists|empty: Callbacks<C>|
            empty@ == Map::<Seq<char>, C>::empty() && #[trigger] call_ensures(
                share,
                (empty,),
                s@.callbacks,
            )),
{
}

/// Replacing the data of a store writes the value over the store's file, and puts
/// it in the place of the data if that succeeded; else the data stays and the
/// error is handed on.
pub proof fn law_replace<'a, 'b, 'w, D, L, K, T, E>(
    store: &'a mut SyncedJsonStore<D, L, K>,
    value: T,
    replacing: Replacing<'a, D, T>,
    handle: &'a D,
    slot: &'b mut T,
    pending: Pending<'b, T>,
    write: FileWrite<'w, T>,
    flags: OpenFlags,
    written: Result<(), E>,
    res: Result<(), E>,
)
    requires
        call_ensures(SyncedJsonStore::<D, L, K>::replace::<T>, (store, value), replacing),
        call_ensures(Replacing::<'a, D, T>::handle, (&replacing,), handle),
        call_ensures(Replacing::<'a, D, T>::borrowed, (replacing, slot), pending),
        call_ensures(Pending::<'b, T>::write, (&pending,), write),
        call_ensures(FileWrite::<'w, T>::flags, (&write,), flags),
        call_ensures(Pending::<'b, T>::finish::<E>, (pending, written), res),
    ensures
        *handle == old(store)@.data,
        final(store)@ == old(store)@,
        write.target() == old(store)@.path,
        write.value() == value,
        flags.write && flags.create && flags.truncate && !flags.create_new,
        res == written,
        written is Ok ==> *final(slot) == value,
        written is Err ==> *final(slot) == *old(slot),
{
}

/// Updating a store edits a copy of its data and goes on as replacing does.
pub proof fn law_update_with<'a, 'b, 'w, D, L, K, T: Clone, F: FnOnce(&mut T), E>(
    store: &'a mut SyncedJsonStore<D, L, K>,
    edit: F,
    updating: Updating<'a, D, F>,
    handle: &'a D,
    slot: &'b mut T,
    pending: Pending<'b, T>,
    write: FileWrite<'w, T>,
    flags: OpenFlags,
    written: Result<(), E>,
    res: Result<(), E>,
)
    requires
        call_ensures(SyncedJsonStore::<D, L, K>::update_with::<F>, (store, edit), updating),
        call_ensures(Updating::<'a, D, F>::handle, (&updating,), handle),
        call_ensures(Updating::<'a, D, F>::borrowed::<T>, (updating, slot), pending),
        call_ensures(Pending::<'b, T>::write, (&pending,), write),
        call_ensures(FileWrite::<'w, T>::flags, (&write,), flags),
        call_ensures(Pending::<'b, T>::finish::<E>, (pending, written), res),
    ensures
        *handle == old(store)@.data,
        final(store)@ == old(store)@,
        write.target() == old(store)@.path,
        exists|copy: &mut T|
            cloned(*old(slot), *copy) && *final(copy) == write.value() && #[trigger] call_ensures(
                edit,
                (copy,),
                (),
            ),
        flags.write && flags.create && flags.truncate && !flags.create_new,
        res == written,
        written is Ok ==> *final(slot) == write.value(),
        written is Err ==> *final(slot) == *old(slot),
{
}

/// Asking a store for its data gives a copy of it.
pub proof fn law_get_data<'a, D, L, K, T: Clone>(
    store: &'a SyncedJsonStore<D, L, K>,
    copying: Copying<'a, D>,
    handle: &'a D,
    data: &T,
    copy: T,
)
    requires
        call_ensures(SyncedJsonStore::<D, L, K>::get_data, (store,), copying),
        call_ensures(Copying::<'a, D>::handle, (&copying,), handle),
        call_ensures(Copying::<'a, D>::borrowed::<T>, (copying, data), copy),
    ensures
        *handle == store@.data,
        cloned(*data, copy),
{
}

/// A guard that was never asked for write access shows the data, and has nothing
/// to write when it is given up.
pub proof fn law_guard_only_read<'a, D, L, K, G: Deref<Target = T>, T>(
    store: &'a SyncedJsonStore<D, L, K>,
    borrowing: Borrowing<'a, D>,
    handle: &'a D,
    borrow: G,
    guard: SyncGuard<'a, G, T>,
    shown: &T,
    given_up: Option<(G, Edit<'a, T>)>,
)
    requires
        call_ensures(SyncedJsonStore::<D, L, K>::get_mut, (store,), borrowing),
        call_ensures(Borrowing::<'a, D>::handle, (&borrowing,), handle),
        call_ensures(Borrowing::<'a, D>::borrowed::<G, T>, (borrowing, borrow), guard),
        call_ensures(SyncGuard::<'a, G, T>::deref, (&guard,), shown),
        call_ensures(SyncGuard::<'a, G, T>::drop, (guard,), given_up),
    ensures
        *handle == store@.data,
        call_ensures(G::deref, (&borrow,), shown),
        given_up is None,
{
}

/// A guard that was asked for write access gives out a copy of the data, shows it
/// as edited, and gives it out again as edited the next time.
pub proof fn law_guard_shows_its_edit<'a, 's, G: Deref<Target = T>, T: Clone>(
    guard: &'s mut SyncGuard<'a, G, T>,
    data: &'s mut T,
    edited: &SyncGuard<'a, G, T>,
    shown: &T,
    again: &'s mut SyncGuard<'a, G, T>,
    again_data: &'s mut T,
)
    requires
        call_ensures(SyncGuard::<'a, G, T>::deref_mut, (guard,), data),
        *edited == *final(guard),
        call_ensures(SyncGuard::<'a, G, T>::deref, (edited,), shown),
        *old(again) == *final(guard),
        call_ensures(SyncGuard::<'a, G, T>::deref_mut, (again,), again_data),
    ensures
        old(guard).copy() matches Some(copy) ==> *old(data) == copy,
        old(guard).copy() is None ==> exists|current: &T| #[trigger]
            call_ensures(G::deref, (&old(guard).borrow(),), current) && cloned(
                *current,
                *old(data),
            ),
        *shown == *final(data),
        *old(again_data) == *final(data),
        final(again).borrow() == old(guard).borrow(),
        final(again).target() == old(guard).target(),
{
    if guard.copy() is None {
        let current = choose|current: T| #[trigger] guard.shows(current) && cloned(current, *data);
        assert(call_ensures(G::deref, (&guard.borrow(),), &current));
    }
}

/// A guard with an edited copy hands back the borrow when it is given up. The copy
/// is written over the store's file, and takes the place of the data if that
/// succeeded; else the data stays.
pub proof fn law_guard_commits_its_edit<'a, 'b, 'w, G, T, E>(
    guard: SyncGuard<'a, G, T>,
    copy: T,
    given_up: Option<(G, Edit<'a, T>)>,
    borrow: G,
    edit: Edit<'a, T>,
    slot: &'b mut T,
    pending: Pending<'b, T>,
    write: FileWrite<'w, T>,
    flags: OpenFlags,
    written: Result<(), E>,
    res: Result<(), E>,
)
    requires
        guard.copy() == Some(copy),
        call_ensures(SyncGuard::<'a, G, T>::drop, (guard,), given_up),
        given_up == Some((borrow, edit)),
        call_ensures(Edit::<'a, T>::borrowed, (edit, slot), pending),
        call_ensures(Pending::<'b, T>::write, (&pending,), write),
        call_ensures(FileWrite::<'w, T>::flags, (&write,), flags),
        call_ensures(Pending::<'b, T>::finish::<E>, (pending, written), res),
    ensures
        borrow == guard.borrow(),
        write.target() == guard.target(),
        write.value() == copy,
        flags.write && flags.create && flags.truncate && !flags.create_new,
        res == written,
        written is Ok ==> *final(slot) == copy,
        written is Err ==> *final(slot) == *old(slot),
{
}

/// Replacing the data of a shared store writes the value over the store's file
/// first, and only then puts it in the place of the locked data. A failed write
/// is handed on and the data is not reached; a poisoned lock is reported.
pub proof fn law_shared_replace<'a, 'w, D, L, K, T, E>(
    store: &'a ArcSyncedJsonStore<D, L, K>,
    value: T,
    replacement: Replacement<'a, D, T>,
    write: FileWrite<'w, T>,
    flags: OpenFlags,
    error: E,
    unwritten: Result<WrittenReplacement<'a, D, T>, SyncError<E>>,
    written: WrittenReplacement<'a, D, T>,
    handle: &'a D,
    slot: &mut T,
    res: Result<(), SyncError<E>>,
    message: String,
    poisoned: Result<(), SyncError<E>>,
)
    requires
        call_ensures(ArcSyncedJsonStore::<D, L, K>::replace::<T>, (store, value), replacement),
        call_ensures(Replacement::<'a, D, T>::write, (&replacement,), write),
        call_ensures(FileWrite::<'w, T>::flags, (&write,), flags),
        call_ensures(
            Replacement::<'a, D, T>::written::<E>,
            (replacement, Err::<(), E>(error)),
            unwritten,
        ),
        call_ensures(
            Replacement::<'a, D, T>::written::<E>,
            (replacement, Ok::<(), E>(())),
            Ok::<WrittenReplacement<'a, D, T>, SyncError<E>>(written),
        ),
        call_ensures(WrittenReplacement::<'a, D, T>::handle, (&written,), handle),
        call_ensures(
            WrittenReplacement::<'a, D, T>::locked::<E>,
            (written, Ok::<&mut T, String>(slot)),
            res,
        ),
        call_ensures(
            WrittenReplacement::<'a, D, T>::locked::<E>,
            (written, Err::<&mut T, String>(message)),
            poisoned,
        ),
    ensures
        write.target() == store@.path,
        write.value() == value,
        flags.write && flags.create && flags.truncate && !flags.create_new,
        unwritten matches Err(e) && e == SyncError::Io(error),
        *handle == store@.data,
        res is Ok,
        *final(slot) == value,
        poisoned matches Err(e) && e == SyncError::<E>::Poisoned(message),
{
}

/// Updating a shared store edits the locked data itself, and then writes it over
/// the store's file. A failed write is handed on, and the data stays edited; a
/// poisoned lock is reported.
pub proof fn law_shared_update<'a, 'b, 'w, D, L, K, T, F: FnOnce(&mut T), E>(
    store: &'a ArcSyncedJsonStore<D, L, K>,
    edit: F,
    update: Update<'a, D, F>,
    handle: &'a D,
    slot: &'b mut T,
    edited: Edited<'b, T>,
    message: String,
    poisoned: Result<Edited<'b, T>, SyncError<E>>,
    write: FileWrite<'w, T>,
    flags: OpenFlags,
    written: Result<(), E>,
    res: Result<(), SyncError<E>>,
) where 'a: 'b
    requires
        call_ensures(ArcSyncedJsonStore::<D, L, K>::update_with::<F>, (store, edit), update),
        call_ensures(Update::<'a, D, F>::handle, (&update,), handle),
        call_ensures(
            Update::<'a, D, F>::locked::<T, E>,
            (update, Ok::<&'b mut T, String>(slot)),
            Ok::<Edited<'b, T>, SyncError<E>>(edited),
        ),
        call_ensures(
            Update::<'a, D, F>::locked::<T, E>,
            (update, Err::<&'b mut T, String>(message)),
            poisoned,
        ),
        call_ensures(Edited::<'b, T>::write, (&edited,), write),
        call_ensures(FileWrite::<'w, T>::flags, (&write,), flags),
        call_ensures(Edited::<'b, T>::written::<E>, (edited, written), res),
    ensures
        *handle == store@.data,
        exists|data: &mut T|
            *data == *old(slot) && *final(data) == *final(slot) && #[trigger] call_ensures(
                edit,
                (data,),
                (),
            ),
        poisoned matches Err(e) && e == SyncError::<E>::Poisoned(message),
        write.target() == store@.path,
        write.value() == *final(slot),
        flags.write && flags.create && flags.truncate && !flags.create_new,
        written is Ok ==> res is Ok,
        written matches Err(e) ==> (res matches Err(f) && f == SyncError::Io(e)),
{
}

/// Putting a callback under a key reaches the store's own table, of either kind of
/// store, and sets it there; a poisoned lock is reported.
pub proof fn law_set_callback<'a, D, E, L, K, C>(
    store: &'a SyncedJsonStore<D, L, K>,
    step: SetCallback<'a, K, C>,
    shared: &'a ArcSyncedJsonStore<E, L, K>,
    shared_step: SetCallback<'a, K, C>,
    key: &'a str,
    callback: C,
    handle: &'a K,
    shared_handle: &'a K,
    table: &mut Callbacks<C>,
    res: Result<(), String>,
    message: String,
    poisoned: Result<(), String>,
)
    requires
        call_ensures(
            SyncedJsonStore::<D, L, K>::set_callback::<C>,
            (store, key, callback),
            step,
        ),
        call_ensures(
            ArcSyncedJsonStore::<E, L, K>::set_callback::<C>,
            (shared, key, callback),
            shared_step,
        ),
        call_ensures(SetCallback::<'a, K, C>::handle, (&step,), handle),
        call_ensures(SetCallback::<'a, K, C>::handle, (&shared_step,), shared_handle),
        call_ensures(
            SetCallback::<'a, K, C>::locked,
            (step, Ok::<&mut Callbacks<C>, String>(table)),
            res,
        ),
        call_ensures(
            SetCallback::<'a, K, C>::locked,
            (shared_step, Err::<&mut Callbacks<C>, String>(message)),
            poisoned,
        ),
    ensures
        *handle == store@.callbacks,
        *shared_handle == shared@.callbacks,
        shared_step.key() == step.key() && shared_step.callback() == step.callback(),
        res is Ok,
        final(table)@ == old(table)@.insert(key@, callback),
        poisoned matches Err(m) && m == message,
{
}

/// Taking a key out reaches the store's own table, of either kind of store, and
/// removes it there, if it was there; a poisoned lock is reported.
pub proof fn law_remove_callback<'a, D, E, L, K, C>(
    store: &'a SyncedJsonStore<D, L, K>,
    step: RemoveCallback<'a, K>,
    shared: &'a ArcSyncedJsonStore<E, L, K>,
    shared_step: RemoveCallback<'a, K>,
    key: &'a str,
    handle: &'a K,
    shared_handle: &'a K,
    table: &mut Callbacks<C>,
    res: Result<(), String>,
    message: String,
    poisoned: Result<(), String>,
)
    requires
        call_ensures(SyncedJsonStore::<D, L, K>::remove_callback, (store, key), step),
        call_ensures(ArcSyncedJsonStore::<E, L, K>::remove_callback, (shared, key), shared_step),
        call_ensures(RemoveCallback::<'a, K>::handle, (&step,), handle),
        call_ensures(RemoveCallback::<'a, K>::handle, (&shared_step,), shared_handle),
        call_ensures(
            RemoveCallback::<'a, K>::locked::<C>,
            (step, Ok::<&mut Callbacks<C>, String>(table)),
            res,
        ),
        call_ensures(
            RemoveCallback::<'a, K>::locked::<C>,
            (shared_step, Err::<&mut Callbacks<C>, String>(message)),
            poisoned,
        ),
    ensures
        *handle == store@.callbacks,
        *shared_handle == shared@.callbacks,
        shared_step.key() == step.key(),
        res is Ok,
        final(table)@ == old(table)@.remove(key@),
        poisoned matches Err(m) && m == message,
{
}

/// A poisoned lock is reported as invalid data, a failed write under the kind it
/// came with, and a listener that could not be set up as an error of another kind.
pub proof fn law_error_kinds<E, N>(
    error: E,
    message: String,
    io: Option<ErrorKind>,
    poisoned: Option<ErrorKind>,
    unwatched: &WatchError<N>,
    other: ErrorKind,
)
    requires
        call_ensures(SyncError::<E>::kind, (&SyncError::<E>::Io(error),), io),
        call_ensures(SyncError::<E>::kind, (&SyncError::<E>::Poisoned(message),), poisoned),
        call_ensures(WatchError::<N>::kind, (unwatched,), other),
    ensures
        io is None,
        poisoned == Some(ErrorKind::InvalidData),
        other == ErrorKind::Other,
{
}

} // verus!
