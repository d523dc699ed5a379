use std::cell::{RefCell, RefMut};
use std::path::PathBuf;
use std::rc::Rc;
use synced_json_store::callbacks::{Callbacks, Caller};
use synced_json_store::dispatch::dispatch;
use synced_json_store::error::{ErrorKind, SyncError, WatchError};
use synced_json_store::events::{received, EventKind, FileEvent, ModifyKind};
use synced_json_store::file::{write_data_to_file, OpenFlags, OpenMode};
use synced_json_store::listener::{Handler, DEBOUNCE_MILLIS};
use synced_json_store::reload::Reload;
use synced_json_store::{ArcSyncedJsonStore, SyncGuard, SyncedJsonStore};

type Store = SyncedJsonStore<RefCell<i32>, u8, ()>;
type ArcStore = ArcSyncedJsonStore<i32, u8, ()>;
type Table = Callbacks<Box<dyn Fn(&u32)>>;
type Log = Rc<RefCell<Vec<(u32, u32)>>>;

fn path() -> PathBuf {
    PathBuf::from("data.json")
}

fn forget(_table: Callbacks<u8>) {}

fn same(data: i32) -> i32 {
    data
}

fn store(data: i32) -> Store {
    Store::new(data, path(), true)
        .finish::<RefCell<i32>, u8, u8, (), (), _, _>(Ok(()), RefCell::new, forget)
        .unwrap()
}

/// The data of a store.
fn read(store: &Store) -> i32 {
    let copying = store.get_data();
    let data = copying.handle().borrow();
    copying.borrowed(&*data)
}

/// Replaces the data of a store, with a write that ends so.
fn replace<E>(store: &mut Store, value: i32, written: Result<(), E>) -> Result<(), E> {
    let replacing = store.replace(value);
    let mut slot = replacing.handle().borrow_mut();
    let pending = replacing.borrowed(&mut *slot);
    assert_eq!(pending.write().opened::<(), ()>(Ok(())), Ok(((), &value)));
    assert_eq!(pending.write().path(), &path());
    pending.finish(written)
}

/// Edits the data of a store into `value`, with a write that ends so.
fn update<E>(
    store: &mut Store,
    edit: impl FnOnce(&mut i32),
    value: i32,
    written: Result<(), E>,
) -> Result<(), E> {
    let updating = store.update_with(edit);
    let mut slot = updating.handle().borrow_mut();
    let pending = updating.borrowed(&mut *slot);
    assert_eq!(pending.write().opened::<(), ()>(Ok(())), Ok(((), &value)));
    assert_eq!(pending.write().path(), &path());
    pending.finish(written)
}

/// A guard on the data of a store.
fn guard(store: &Store) -> SyncGuard<'_, RefMut<'_, i32>, i32> {
    let borrowing = store.get_mut();
    let borrow = borrowing.handle().borrow_mut();
    borrowing.borrowed(borrow)
}

fn arc_store(data: i32) -> ArcStore {
    ArcStore::new(data, path(), true)
        .finish::<i32, u8, u8, (), (), _, _>(Ok(()), same, forget)
        .unwrap()
}

/// The handler of a listener on a shared store.
fn handler() -> Handler<i32, ()> {
    arc_store(1).add_listener(1, &path()).handler().1
}

/// The handle whose lock the handler asks for.
fn refreshed(handler: &Handler<i32, ()>) -> i32 {
    match handler.start::<u32, ()>(Ok(vec![modified(0)])) {
        Reload::Open(opening) => *opening.opened::<u8, ()>(Ok(1)).unwrap().handle(),
        Reload::Done => panic!("the event asks for a reload"),
    }
}

fn event(kind: EventKind, paths: Vec<PathBuf>, origin: u32) -> FileEvent<u32> {
    FileEvent { kind, paths, origin }
}

fn modified(origin: u32) -> FileEvent<u32> {
    event(EventKind::Modify(ModifyKind::Any), vec![path()], origin)
}

fn logging(log: &Log, name: u32) -> Box<dyn Fn(&u32)> {
    let log = log.clone();
    Box::new(move |event| log.borrow_mut().push((*event, name)))
}

/// Tells the callbacks of a table of a batch of events.
fn tell(batch: Result<Vec<u32>, Vec<&str>>, table: &Table) {
    dispatch(batch, &mut Caller::new(table));
}

#[test]
fn flags_of_each_mode() {
    assert_eq!(
        OpenMode::Truncate.flags(),
        OpenFlags { read: false, write: true, create: true, truncate: true, create_new: false }
    );
    assert_eq!(
        OpenMode::CreateNew.flags(),
        OpenFlags { read: true, write: true, create: false, truncate: false, create_new: true }
    );
    assert_eq!(
        OpenMode::Read.flags(),
        OpenFlags { read: true, write: false, create: false, truncate: false, create_new: false }
    );
}

#[test]
fn write_opens_before_it_hands_the_value_out() {
    let file = path();
    let write = write_data_to_file(&5, &file);
    assert_eq!(write.path(), &file);
    assert_eq!(write.flags(), OpenMode::Truncate.flags());
    assert_eq!(write.opened::<u8, &str>(Ok(3)), Ok((3, &5)));
    let write = write_data_to_file(&5, &file);
    assert_eq!(write.opened::<u8, &str>(Err("denied")), Err("denied"));
}

#[test]
fn new_opens_by_the_overwrite_flag() {
    let creation = Store::new(1, path(), true);
    assert_eq!(creation.write().flags(), OpenMode::Truncate.flags());
    let creation = Store::new(1, path(), false);
    assert_eq!(creation.write().flags(), OpenMode::CreateNew.flags());
    let creation = Store::new_with_listener(1, path(), false);
    assert_eq!(creation.write().flags(), OpenMode::CreateNew.flags());
    let creation = ArcStore::new(1, path(), false);
    assert_eq!(creation.write().flags(), OpenMode::CreateNew.flags());
    let creation = ArcStore::new_with_listener(1, path(), true);
    assert_eq!(creation.write().flags(), OpenMode::Truncate.flags());
}

#[test]
fn replace_keeps_the_old_data_when_the_write_fails() {
    let mut s = store(1);
    assert_eq!(replace(&mut s, 2, Err("full")), Err("full"));
    assert_eq!(read(&s), 1);
    assert_eq!(replace::<&str>(&mut s, 3, Ok(())), Ok(()));
    assert_eq!(read(&s), 3);
}

#[test]
fn update_with_edits_a_copy() {
    let mut s = store(1);
    assert_eq!(update(&mut s, |d| *d += 10, 11, Err("full")), Err("full"));
    assert_eq!(read(&s), 1);
    assert_eq!(update::<()>(&mut s, |d| *d += 10, 11, Ok(())), Ok(()));
    assert_eq!(read(&s), 11);
}

#[test]
fn memory_is_the_last_value_written() {
    let mut s = store(0);
    let outcomes = vec![Ok(()), Err("full"), Ok(()), Err("full"), Err("full")];
    for (i, outcome) in outcomes.into_iter().enumerate() {
        let _ = replace(&mut s, i as i32 + 1, outcome);
    }
    assert_eq!(read(&s), 3);
}

#[test]
fn guard_only_read_has_nothing_to_write() {
    let s = store(1);
    let g = guard(&s);
    assert_eq!(*g.deref(), 1);
    assert!(g.drop().is_none());
    assert_eq!(read(&s), 1);
}

#[test]
fn guard_shows_its_edit_and_commits_it() {
    let s = store(1);
    let mut g = guard(&s);
    *g.deref_mut() = 5;
    assert_eq!(*g.deref(), 5);
    *g.deref_mut() += 1;
    assert_eq!(*g.deref(), 6);
    {
        let (mut borrow, edit) = g.drop().unwrap();
        assert_eq!(*borrow, 1);
        let pending = edit.borrowed(&mut *borrow);
        assert_eq!(pending.write().opened::<(), ()>(Ok(())), Ok(((), &6)));
        assert_eq!(pending.write().path(), &path());
        assert_eq!(pending.finish::<()>(Ok(())), Ok(()));
    }
    assert_eq!(read(&s), 6);
}

#[test]
fn guard_edit_is_lost_when_the_write_fails() {
    let s = store(1);
    let mut g = guard(&s);
    *g.deref_mut() = 5;
    {
        let (mut borrow, edit) = g.drop().unwrap();
        assert_eq!(edit.borrowed(&mut *borrow).finish(Err("full")), Err("full"));
    }
    assert_eq!(read(&s), 1);
}

#[test]
fn guard_asked_to_write_is_written_even_if_unchanged() {
    let s = store(1);
    let mut g = guard(&s);
    let _ = g.deref_mut();
    let (mut borrow, edit) = g.drop().unwrap();
    let pending = edit.borrowed(&mut *borrow);
    assert_eq!(pending.write().opened::<(), ()>(Ok(())), Ok(((), &1)));
}

#[test]
fn guard_of_a_shared_reference_excludes_others() {
    let s = store(1);
    let (first, second) = (&s, &s);
    let g = guard(first);
    assert!(second.get_mut().handle().try_borrow_mut().is_err());
    assert!(second.get_data().handle().try_borrow().is_err());
    assert!(g.drop().is_none());
    assert!(second.get_mut().handle().try_borrow_mut().is_ok());
}

#[test]
fn shared_steps_name_the_store_s_own_lock() {
    let s = arc_store(7);
    let replacement = s.replace(2).written::<()>(Ok(())).unwrap();
    assert_eq!(*replacement.handle(), 7);
    assert_eq!(*s.update_with(|_: &mut i32| {}).handle(), 7);
}

#[test]
fn shared_replace_needs_write_and_lock() {
    let s = arc_store(1);
    let mut locked: i32 = 1;
    match s.replace(2).written(Err("full")) {
        Err(e) => {
            assert!(matches!(e, SyncError::Io("full")));
            assert_eq!(e.kind(), None);
        }
        Ok(_) => panic!("the write failed"),
    }
    assert_eq!(locked, 1);
    let replacement = s.replace(2);
    assert_eq!(replacement.write().flags(), OpenMode::Truncate.flags());
    assert_eq!(replacement.write().path(), &path());
    let res: Result<(), SyncError<&str>> =
        replacement.written::<&str>(Ok(())).unwrap().locked(Ok(&mut locked));
    assert!(res.is_ok());
    assert_eq!(locked, 2);
    let res: Result<(), SyncError<&str>> =
        s.replace(3).written::<&str>(Ok(())).unwrap().locked(Err("poisoned".to_string()));
    let e = res.unwrap_err();
    assert_eq!(e.kind(), Some(ErrorKind::InvalidData));
    assert!(matches!(e, SyncError::Poisoned(m) if m == "poisoned"));
}

#[test]
fn shared_update_stays_when_the_write_fails() {
    let s = arc_store(1);
    let mut locked: i32 = 1;
    let edited = s
        .update_with(|d: &mut i32| *d = 4)
        .locked::<i32, &str>(Ok(&mut locked))
        .unwrap();
    assert_eq!(edited.write().opened::<(), ()>(Ok(())), Ok(((), &4)));
    assert_eq!(edited.write().path(), &path());
    assert!(matches!(edited.written(Err("full")), Err(SyncError::Io("full"))));
    assert_eq!(locked, 4);
    let edited = s
        .update_with(|d: &mut i32| *d += 1)
        .locked::<i32, &str>(Ok(&mut locked))
        .unwrap();
    assert!(edited.written::<&str>(Ok(())).is_ok());
    assert_eq!(locked, 5);
}

#[test]
fn shared_update_reports_a_poisoned_lock_without_editing() {
    let s = arc_store(1);
    let ran = RefCell::new(false);
    let update = s.update_with(|_: &mut i32| *ran.borrow_mut() = true);
    let e = update.locked::<i32, &str>(Err("poisoned".to_string())).err().unwrap();
    assert!(matches!(&e, SyncError::Poisoned(m) if m == "poisoned"));
    assert!(!*ran.borrow());
}

#[test]
fn listener_is_set_after_all_steps() {
    let mut s = store(1);
    let watched = PathBuf::from("elsewhere.json");
    let (making, handler) = s.set_listener(&watched).handler();
    assert_eq!(*handler.table(), ());
    assert_eq!(making.delay_millis(), 500);
    assert_eq!(DEBOUNCE_MILLIS, 500);
    assert_eq!(making.tick_millis(), None);
    let mut watching = making.made::<&str>(Ok(7)).unwrap();
    assert_eq!(watching.path(), &watched);
    assert!(!watching.recursive());
    *watching.listener() = 8;
    let mut rooting = watching.watched::<&str>(Ok(())).unwrap();
    assert_eq!(rooting.path(), &watched);
    assert!(!rooting.recursive());
    assert_eq!(*rooting.listener(), 8);
    rooting.rooted();
}

#[test]
fn listener_failures_are_other_errors() {
    let mut s = arc_store(1);
    let watched = path();
    let e = s.add_listener(1, &watched).handler().0.made(Err("no watcher")).err().unwrap();
    assert_eq!(e.cause, "no watcher");
    assert_eq!(e.kind(), ErrorKind::Other);
    let watching = s.add_listener(1, &watched).handler().0.made::<&str>(Ok(7)).unwrap();
    let e = watching.watched(Err("no such path")).err().unwrap();
    assert_eq!(e.cause, "no such path");
    assert_eq!(e.kind(), ErrorKind::Other);
}

#[test]
fn listener_shares_the_handle_that_add_listener_is_given() {
    let mut s = arc_store(1);
    let watched = path();
    let (_, handler) = s.add_listener(10, &watched).handler();
    assert_eq!(refreshed(&handler), 10);
    assert_eq!(s.get_data(), 1);
}

#[test]
fn only_a_shared_store_insists_on_its_listener() {
    let creation = Store::new_with_listener(1, path(), true);
    let mut starting = creation
        .finish::<RefCell<i32>, u8, u8, (), (), _, _>(Ok(()), RefCell::new, forget)
        .unwrap();
    let listening = starting.listen().handler().0.made(Err("no watcher")).map(|_| ());
    let s: Store = starting.started(listening);
    assert_eq!(read(&s), 1);

    let creation = ArcStore::new_with_listener(1, path(), true);
    let mut starting =
        creation.finish::<i32, u8, u8, (), (), _, _>(Ok(()), same, forget).unwrap();
    assert_eq!(refreshed(&starting.listen().handler().1), 1);
    let listening = starting.listen().handler().0.made(Err("no watcher")).map(|_| ());
    let refused: Result<ArcStore, WatchError<&str>> = starting.started(listening);
    assert_eq!(refused.err().unwrap().cause, "no watcher");

    let creation = ArcStore::new_with_listener(1, path(), true);
    let refused = creation.finish::<i32, u8, u8, (), &str, _, _>(Err("full"), same, forget);
    assert_eq!(refused.err(), Some("full"));

    let creation = Store::new_with_listener(1, path(), true);
    let refused = creation
        .finish::<RefCell<i32>, u8, u8, (), &str, _, _>(Err("full"), RefCell::new, forget);
    assert_eq!(refused.err(), Some("full"));
}

#[test]
fn callbacks_by_key() {
    let mut table: Callbacks<u8> = Callbacks::new();
    assert_eq!(table.len(), 0);
    table.set("a", 1);
    table.set("b", 2);
    table.set("a", 3);
    assert_eq!(table.len(), 2);
    table.remove("c");
    assert_eq!(table.len(), 2);
    table.remove("a");
    assert_eq!(table.len(), 1);
    table.remove("a");
    assert_eq!(table.len(), 1);
    table.remove("b");
    assert_eq!(table.len(), 0);
}

#[test]
fn callbacks_through_the_stores() {
    let s = store(1);
    let a = arc_store(1);
    let mut table: Callbacks<u8> = Callbacks::new();
    assert_eq!(s.set_callback("a", 1).locked(Ok(&mut table)), Ok(()));
    assert_eq!(a.set_callback("b", 2).locked(Ok(&mut table)), Ok(()));
    assert_eq!(table.len(), 2);
    assert_eq!(s.remove_callback("b").locked(Ok(&mut table)), Ok(()));
    assert_eq!(table.len(), 1);
    assert_eq!(a.remove_callback("a").locked(Ok(&mut table)), Ok(()));
    assert_eq!(table.len(), 0);
    let poisoned = "poisoned".to_string();
    assert_eq!(a.set_callback("a", 1u8).locked(Err(poisoned.clone())), Err(poisoned.clone()));
    assert_eq!(a.remove_callback("a").locked::<u8>(Err(poisoned.clone())), Err(poisoned.clone()));
    assert_eq!(s.set_callback("a", 1u8).locked(Err(poisoned.clone())), Err(poisoned.clone()));
    assert_eq!(s.remove_callback("a").locked::<u8>(Err(poisoned.clone())), Err(poisoned));
}

#[test]
fn callback_steps_name_the_store_s_own_table() {
    let share = |_: Callbacks<u8>| 4u16;
    let s: SyncedJsonStore<RefCell<i32>, u8, u16> = Store::new(1, path(), true)
        .finish::<_, _, _, _, (), _, _>(Ok(()), RefCell::new, share)
        .unwrap();
    assert_eq!(*s.set_callback("a", 1u8).handle(), 4);
    assert_eq!(*s.remove_callback("a").handle(), 4);
    let a: ArcSyncedJsonStore<i32, u8, u16> = ArcStore::new(1, path(), true)
        .finish::<_, _, _, _, (), _, _>(Ok(()), same, share)
        .unwrap();
    assert_eq!(*a.set_callback("a", 1u8).handle(), 4);
    assert_eq!(*a.remove_callback("a").handle(), 4);
}

#[test]
fn dispatch_calls_every_callback_on_every_event() {
    let log: Log = Rc::new(RefCell::new(Vec::new()));
    let mut table: Table = Callbacks::new();
    table.set("x", logging(&log, 0));
    table.set("y", logging(&log, 1));
    tell(Ok(vec![10, 11, 12]), &table);
    assert_eq!(*log.borrow(), vec![(10, 0), (10, 1), (11, 0), (11, 1), (12, 0), (12, 1)]);
    log.borrow_mut().clear();
    tell(Err(vec!["lost"]), &table);
    tell(Ok(vec![]), &table);
    assert!(log.borrow().is_empty());
}

#[test]
fn a_key_set_twice_has_its_second_callback_called() {
    let log: Log = Rc::new(RefCell::new(Vec::new()));
    let mut table: Table = Callbacks::new();
    table.set("k", logging(&log, 0));
    table.set("k", logging(&log, 1));
    tell(Ok(vec![10]), &table);
    assert_eq!(*log.borrow(), vec![(10, 1)]);
}

#[test]
fn a_removed_callback_is_not_called() {
    let log: Log = Rc::new(RefCell::new(Vec::new()));
    let mut table: Table = Callbacks::new();
    table.set("a", logging(&log, 0));
    table.set("b", logging(&log, 1));
    table.remove("a");
    table.remove("zzz");
    tell(Ok(vec![10]), &table);
    assert_eq!(*log.borrow(), vec![(10, 1)]);
}

#[test]
fn a_caller_tells_each_callback_once() {
    let log: Log = Rc::new(RefCell::new(Vec::new()));
    let mut table: Table = Callbacks::new();
    table.set("x", logging(&log, 0));
    table.set("y", logging(&log, 1));
    let mut caller = Caller::new(&table);
    assert_eq!(caller.count(), 2);
    caller.tell(&7);
    assert_eq!(*log.borrow(), vec![(7, 0), (7, 1)]);
    caller.tell_all(&vec![8, 9]);
    assert_eq!(log.borrow().len(), 6);
}

#[test]
fn two_updates_leave_what_one_leaves() {
    let mut s = store(5);
    update::<()>(&mut s, |d| *d += 1, 6, Ok(())).unwrap();
    update::<()>(&mut s, |d| *d *= 10, 60, Ok(())).unwrap();
    let mut once = store(5);
    update::<()>(&mut once, |d| *d = (*d + 1) * 10, 60, Ok(())).unwrap();
    assert_eq!(read(&s), 60);
    assert_eq!(read(&once), 60);

    let a = arc_store(5);
    let mut locked: i32 = 5;
    a.update_with(|d: &mut i32| *d += 1).locked::<i32, ()>(Ok(&mut locked)).unwrap();
    a.update_with(|d: &mut i32| *d *= 10).locked::<i32, ()>(Ok(&mut locked)).unwrap();
    assert_eq!(locked, 60);
}

#[test]
fn an_assigning_update_is_a_replacement() {
    let mut updated = store(1);
    let mut replaced = store(1);
    for outcome in [Err("full"), Ok(())] {
        assert_eq!(update(&mut updated, |d| *d = 9, 9, outcome), outcome);
        assert_eq!(replace(&mut replaced, 9, outcome), outcome);
        assert_eq!(read(&updated), read(&replaced));
    }
    assert_eq!(read(&updated), 9);
}

#[test]
fn errors_count_as_no_events() {
    assert_eq!(received::<u8, &str>(Ok(vec![1, 2])), vec![1, 2]);
    assert_eq!(received::<u8, &str>(Err(vec!["lost"])), Vec::<u8>::new());
    assert!(matches!(handler().start::<u32, &str>(Err(vec!["lost"])), Reload::Done));
}

#[test]
fn only_unspecified_modifications_ask_for_a_reload() {
    let first = PathBuf::from("first.json");
    let e = event(EventKind::Modify(ModifyKind::Any), vec![first.clone(), path()], 0);
    assert_eq!(e.reload_path(), Some(&first));
    let others = vec![
        EventKind::Any,
        EventKind::Access,
        EventKind::Create,
        EventKind::Modify(ModifyKind::Data),
        EventKind::Modify(ModifyKind::Metadata),
        EventKind::Modify(ModifyKind::Name),
        EventKind::Modify(ModifyKind::Other),
        EventKind::Remove,
        EventKind::Other,
    ];
    for kind in others {
        assert_eq!(event(kind, vec![path()], 0).reload_path(), None);
    }
    let e = event(EventKind::Modify(ModifyKind::Any), vec![], 0);
    assert_eq!(e.reload_path(), None);
}

/// Runs a batch; the reply for an event is the value parsed from its file.
fn run(
    batch: Vec<FileEvent<u32>>,
    replies: Vec<Option<i32>>,
    data: &mut i32,
    table: &Table,
) {
    let mut caller = Caller::new(table);
    let handler = handler();
    let mut next = handler.start::<u32, ()>(Ok(batch));
    let mut replies = replies.into_iter();
    while let Reload::Open(opening) = next {
        let locking = opening.opened::<u8, ()>(Ok(1)).unwrap();
        let mut parsing = locking.locked::<i32, ()>(Ok(&mut *data)).unwrap();
        assert_eq!(*parsing.reader(), 1);
        let value = replies.next().unwrap().ok_or("bad");
        next = match parsing.parsed(value) {
            Some(telling) => telling.tell(&mut caller),
            None => return,
        };
    }
}

#[test]
fn reload_follows_events_up_to_the_first_it_cannot() {
    let log: Log = Rc::new(RefCell::new(Vec::new()));
    let mut table: Table = Callbacks::new();
    table.set("x", logging(&log, 0));
    table.set("y", logging(&log, 1));

    let mut data: i32 = 0;
    let batch = vec![modified(10), modified(11)];
    run(batch, vec![Some(5), Some(6)], &mut data, &table);
    assert_eq!(data, 6);
    assert_eq!(*log.borrow(), vec![(10, 0), (10, 1), (11, 0), (11, 1)]);

    log.borrow_mut().clear();
    let batch = vec![modified(10), modified(11), modified(12)];
    run(batch, vec![Some(7), None, Some(8)], &mut data, &table);
    assert_eq!(data, 7);
    assert_eq!(*log.borrow(), vec![(10, 0), (10, 1)]);

    log.borrow_mut().clear();
    let batch = vec![modified(10), event(EventKind::Create, vec![path()], 11), modified(12)];
    run(batch, vec![Some(9), Some(10), Some(11)], &mut data, &table);
    assert_eq!(data, 9);
    assert_eq!(*log.borrow(), vec![(10, 0), (10, 1)]);

    log.borrow_mut().clear();
    let batch = vec![event(EventKind::Remove, vec![path()], 10), modified(11)];
    run(batch, vec![Some(12), Some(13)], &mut data, &table);
    assert_eq!(data, 9);
    assert!(log.borrow().is_empty());
}

#[test]
fn reload_sets_the_data_before_it_tells() {
    let handler = handler();
    let log: Log = Rc::new(RefCell::new(Vec::new()));
    let mut table: Table = Callbacks::new();
    table.set("x", logging(&log, 0));
    let opening = match handler.start::<u32, ()>(Ok(vec![modified(1)])) {
        Reload::Open(opening) => opening,
        Reload::Done => panic!("the event asks for a reload"),
    };
    let mut data: i32 = 0;
    let parsing = opening
        .opened::<u8, ()>(Ok(1))
        .unwrap()
        .locked::<i32, ()>(Ok(&mut data))
        .unwrap();
    let telling = parsing.parsed::<()>(Ok(5)).unwrap();
    assert!(log.borrow().is_empty());
    assert!(matches!(telling.tell(&mut Caller::new(&table)), Reload::Done));
    assert_eq!(*log.borrow(), vec![(1, 0)]);
    assert_eq!(data, 5);
}

#[test]
fn reload_ends_when_file_or_lock_fails() {
    let handler = handler();
    let opening = match handler.start::<u32, ()>(Ok(vec![modified(1), modified(2)])) {
        Reload::Open(opening) => opening,
        Reload::Done => panic!("the event asks for a reload"),
    };
    assert_eq!(opening.path(), &path());
    assert_eq!(opening.flags(), OpenMode::Read.flags());
    assert!(opening.opened::<u8, &str>(Err("gone")).is_none());

    let opening = match handler.start::<u32, ()>(Ok(vec![modified(1)])) {
        Reload::Open(opening) => opening,
        Reload::Done => panic!("the event asks for a reload"),
    };
    let locking = opening.opened::<u8, &str>(Ok(1)).unwrap();
    assert!(locking.locked::<i32, &str>(Err("poisoned")).is_none());
}
