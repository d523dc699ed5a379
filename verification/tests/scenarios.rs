use std::cell::{Cell, RefCell};
use std::path::PathBuf;
use std::sync::{Arc, Mutex};
use synced_json_store::callbacks::{Callbacks, Caller};
use synced_json_store::create::Loading;
use synced_json_store::dispatch::dispatch;
use synced_json_store::error::{SyncError, WatchError};
use synced_json_store::events::{EventKind, FileEvent, ModifyKind};
use synced_json_store::file::{write_data_to_file, FileWrite};
use synced_json_store::listener::{Handler, Making};
use synced_json_store::reload::Reload;
use synced_json_store::{ArcSyncedJsonStore, SyncedJsonStore};

type Data = (i32, String);
type Callback = Box<dyn Fn(&u32)>;
type Table = Arc<Mutex<Callbacks<Callback>>>;
type Store = SyncedJsonStore<RefCell<Data>, &'static str, Table>;
type ArcStore = ArcSyncedJsonStore<Arc<Mutex<Data>>, &'static str, Table>;

/// A single file, in memory.
struct Disk {
    path: PathBuf,
    content: Option<Vec<u8>>,
}

impl Disk {
    fn new(path: &str) -> Disk {
        Disk { path: PathBuf::from(path), content: None }
    }

    fn write(&mut self, write: FileWrite<'_, Data>) -> Result<(), String> {
        let flags = write.flags();
        assert_eq!(write.path(), &self.path);
        assert!(flags.write);
        let opened = match &self.content {
            Some(_) if flags.create_new => Err("exists".to_string()),
            None if !flags.create && !flags.create_new => Err("missing".to_string()),
            _ => Ok(()),
        };
        let (_, data) = write.opened(opened)?;
        self.content = Some(serde_json::to_vec(data).unwrap());
        Ok(())
    }

    fn read(&self, loading: &Loading) -> Result<Data, String> {
        assert_eq!(loading.path(), &self.path);
        assert!(loading.flags().read && !loading.flags().write);
        match &self.content {
            Some(bytes) => serde_json::from_slice(bytes).map_err(|e| e.to_string()),
            None => Err("missing".to_string()),
        }
    }

    fn held(&self) -> Data {
        serde_json::from_slice(self.content.as_ref().unwrap()).unwrap()
    }
}

fn share<C>(table: Callbacks<C>) -> Arc<Mutex<Callbacks<C>>> {
    Arc::new(Mutex::new(table))
}

fn share_data(data: Data) -> Arc<Mutex<Data>> {
    Arc::new(Mutex::new(data))
}

fn data(number: i32, text: &str) -> Data {
    (number, text.to_string())
}

fn listen(making: Making<'_, &'static str>) -> Result<(), WatchError<String>> {
    let mut watching = making.made::<String>(Ok("running"))?;
    assert_eq!(*watching.listener(), "running");
    let rooting = watching.watched::<String>(Ok(()))?;
    rooting.rooted();
    Ok(())
}

fn modified(path: &str, origin: u32) -> FileEvent<u32> {
    FileEvent {
        kind: EventKind::Modify(ModifyKind::Any),
        paths: vec![PathBuf::from(path)],
        origin,
    }
}

/// The data of a store.
fn read(store: &Store) -> Data {
    let copying = store.get_data();
    let data = copying.handle().borrow();
    copying.borrowed(&*data)
}

/// Replaces the data of a store.
fn replace(store: &mut Store, value: Data, disk: &mut Disk) -> Result<(), String> {
    let replacing = store.replace(value);
    let mut slot = replacing.handle().borrow_mut();
    let pending = replacing.borrowed(&mut *slot);
    let written = disk.write(pending.write());
    pending.finish(written)
}

/// Registers a callback, with the lock that is asked for.
fn register(store: &Store, key: &str, callback: Callback) {
    let step = store.set_callback(key, callback);
    let mut table = step.handle().lock().unwrap();
    step.locked(Ok(&mut *table)).unwrap();
}

/// Registers a callback, with the lock that is asked for.
fn register_arc(store: &ArcStore, key: &str, callback: Callback) {
    let step = store.set_callback(key, callback);
    let mut table = step.handle().lock().unwrap();
    step.locked(Ok(&mut *table)).unwrap();
}

/// Tells the callbacks of a batch, as a listener thread does.
fn tell(batch: Vec<u32>, handler: &Handler<(), Table>) {
    let table = handler.table().lock().unwrap();
    dispatch::<u32, String, _>(Ok(batch), &mut Caller::new(&*table));
}

fn counting(count: &Arc<Cell<i32>>) -> Callback {
    let count = count.clone();
    Box::new(move |_| count.set(count.get() + 1))
}

/// Runs a batch against a disk and shared data, as a listener thread does.
fn follow(batch: Vec<FileEvent<u32>>, disk: &Disk, handler: &Handler<Arc<Mutex<Data>>, Table>) {
    let table = handler.table().lock().unwrap();
    let mut caller = Caller::new(&*table);
    let mut next = handler.start::<u32, String>(Ok(batch));
    while let Reload::Open(opening) = next {
        assert_eq!(opening.path(), &disk.path);
        let locking = match opening.opened(disk.content.clone().ok_or("missing")) {
            Some(locking) => locking,
            None => return,
        };
        let mut locked = locking.handle().lock().unwrap();
        let mut parsing = match locking.locked::<Data, String>(Ok(&mut *locked)) {
            Some(parsing) => parsing,
            None => return,
        };
        let value = serde_json::from_slice::<Data>(parsing.reader());
        next = match parsing.parsed(value) {
            Some(telling) => telling.tell(&mut caller),
            None => return,
        };
    }
}

#[test]
fn test_new() {
    let mut disk = Disk::new("test_new.json");
    let creation = Store::new(data(42, "Hello, World!"), disk.path.clone(), true);
    let written = disk.write(creation.write());
    let store: Store = creation.finish(written, RefCell::new, share).unwrap();
    let borrowing = store.get_mut();
    let borrow = borrowing.handle().borrow_mut();
    let mut guard = borrowing.borrowed(borrow);
    guard.deref_mut().0 = 43;
    let (mut borrow, edit) = guard.drop().unwrap();
    let pending = edit.borrowed(&mut *borrow);
    let written = disk.write(pending.write());
    pending.finish(written).unwrap();
    drop(borrow);
    assert_eq!(disk.held().0, 43);
    assert_eq!(read(&store), data(43, "Hello, World!"));
}

#[test]
fn test_sync_callback() {
    let mut disk = Disk::new("test_sync_callback.json");
    let creation = Store::new_with_listener(data(42, "Hello, World!"), disk.path.clone(), true);
    let written = disk.write(creation.write());
    let mut starting = creation.finish(written, RefCell::new, share).unwrap();
    let (making, handler) = starting.listen().handler();
    let listening = listen(making);
    let store: Store = starting.started(listening);

    let shared1 = Arc::new(Cell::new(0));
    let shared1_curr = shared1.clone();
    register(&store, "setValue", Box::new(move |_| shared1.set(1)));

    let new_data = data(139, "New string");
    disk.write(write_data_to_file(&new_data, &PathBuf::from("test_sync_callback.json"))).unwrap();
    tell(vec![7], &handler);
    assert_eq!(disk.held().0, 139);
    assert_eq!(read(&store).0, 42);
    assert_eq!(shared1_curr.get(), 1);
}

#[test]
fn test_new_arc() {
    let mut disk = Disk::new("test_new_arc.json");
    let creation =
        ArcStore::new_with_listener(data(42, "Hello, World!"), disk.path.clone(), true);
    let written = disk.write(creation.write());
    let mut starting = creation.finish(written, share_data, share).unwrap();
    let listening = listen(starting.listen().handler().0);
    let store: ArcStore = starting.started(listening).unwrap();
    {
        let update = store.update_with(|d: &mut Data| {
            d.0 = 4;
        });
        let mut locked = update.handle().lock().unwrap();
        let edited = update.locked::<Data, String>(Ok(&mut *locked)).unwrap();
        let written = disk.write(edited.write());
        edited.written(written).unwrap();
    }
    let held = disk.held();
    assert_eq!(held.0, 4);

    let creation = ArcStore::new_with_listener(held, disk.path.clone(), true);
    let written = disk.write(creation.write());
    let mut starting = creation.finish(written, share_data, share).unwrap();
    let (making, handler) = starting.listen().handler();
    let listening = listen(making);
    let store: ArcStore = starting.started(listening).unwrap();
    disk.write(write_data_to_file(&data(42, "hi"), &PathBuf::from("test_new_arc.json"))).unwrap();
    follow(vec![modified("test_new_arc.json", 1)], &disk, &handler);
    assert_eq!(store.get_data().lock().unwrap().0, 42);
}

#[test]
fn test_arc_callback() {
    let mut disk = Disk::new("test_arc_callback.json");
    let creation =
        ArcStore::new_with_listener(data(42, "Hello, World!"), disk.path.clone(), true);
    let written = disk.write(creation.write());
    let mut starting = creation.finish(written, share_data, share).unwrap();
    let (making, handler) = starting.listen().handler();
    let listening = listen(making);
    let store: ArcStore = starting.started(listening).unwrap();

    let shared1 = Arc::new(Cell::new(0));
    let shared1_clone = shared1.clone();
    register_arc(&store, "valueSetter1", Box::new(move |_| shared1.set(shared1.get() + 1)));

    let new_data = data(45, "Hello, World!");
    disk.write(write_data_to_file(&new_data, &PathBuf::from("test_arc_callback.json"))).unwrap();
    follow(vec![modified("test_arc_callback.json", 1)], &disk, &handler);
    assert_eq!(shared1_clone.get(), 1);
    assert_eq!(store.get_data().lock().unwrap().0, 45);
}

#[test]
fn from_file_gives_back_what_was_kept() {
    let mut disk = Disk::new("kept.json");
    let creation = Store::new(data(1, "one"), disk.path.clone(), false);
    let written = disk.write(creation.write());
    let mut store: Store = creation.finish(written, RefCell::new, share).unwrap();
    replace(&mut store, data(2, "two"), &mut disk).unwrap();

    let loading = Store::from_file(disk.path.clone());
    let value = disk.read(&loading);
    let loaded: Store = Store::loaded(loading, value, RefCell::new, share).unwrap();
    assert_eq!(read(&loaded), read(&store));
    assert_eq!(read(&loaded), data(2, "two"));
    assert_eq!(loaded.remove_callback("none").handle().lock().unwrap().len(), 0);

    let loading = ArcStore::from_file(disk.path.clone());
    let value = disk.read(&loading);
    let shared: ArcStore = ArcStore::loaded(loading, value, share_data, share).unwrap();
    assert_eq!(*shared.get_data().lock().unwrap(), data(2, "two"));
}

#[test]
fn new_refuses_an_existing_file_unless_told_to_overwrite() {
    let mut disk = Disk::new("there.json");
    disk.content = Some(b"[7,\"seven\"]".to_vec());

    let creation = Store::new(data(1, "one"), disk.path.clone(), false);
    let written = disk.write(creation.write());
    let refused: Result<Store, String> = creation.finish(written, RefCell::new, share);
    assert_eq!(refused.err(), Some("exists".to_string()));
    assert_eq!(disk.held(), data(7, "seven"));

    let creation = ArcStore::new(data(1, "one"), disk.path.clone(), false);
    let written = disk.write(creation.write());
    let refused: Result<ArcStore, String> = creation.finish(written, share_data, share);
    assert_eq!(refused.err(), Some("exists".to_string()));
    assert_eq!(disk.held(), data(7, "seven"));

    let creation = ArcStore::new(data(1, "one"), disk.path.clone(), true);
    let written = disk.write(creation.write());
    let store: ArcStore = creation.finish(written, share_data, share).unwrap();
    assert_eq!(disk.held(), data(1, "one"));
    assert_eq!(*store.get_data().lock().unwrap(), data(1, "one"));
}

#[test]
fn from_file_hands_a_failure_on() {
    let mut disk = Disk::new("broken.json");
    let loading = Store::from_file(disk.path.clone());
    let value = disk.read(&loading);
    let store: Result<Store, String> = Store::loaded(loading, value, RefCell::new, share);
    assert_eq!(store.err(), Some("missing".to_string()));

    disk.content = Some(b"[7,".to_vec());
    let loading = ArcStore::from_file(disk.path.clone());
    let value = disk.read(&loading);
    let store: Result<ArcStore, String> = ArcStore::loaded(loading, value, share_data, share);
    assert!(store.is_err());
}

#[test]
fn reload_keeps_the_data_when_the_file_cannot_be_read() {
    let mut disk = Disk::new("torn.json");
    let creation = ArcStore::new(data(1, "one"), disk.path.clone(), true);
    let written = disk.write(creation.write());
    let mut store: ArcStore = creation.finish(written, share_data, share).unwrap();
    let (own, path) = (store.get_data(), disk.path.clone());
    let (_, handler) = store.add_listener(own, &path).handler();
    let count = Arc::new(Cell::new(0));
    register_arc(&store, "count", counting(&count));
    disk.content = Some(b"[2,".to_vec());
    let batch = vec![modified("torn.json", 1), modified("torn.json", 2)];
    follow(batch, &disk, &handler);
    assert_eq!(*store.get_data().lock().unwrap(), data(1, "one"));
    assert_eq!(count.get(), 0);

    disk.content = Some(b"[3,\"three\"]".to_vec());
    let batch = vec![modified("torn.json", 3), modified("torn.json", 4)];
    follow(batch, &disk, &handler);
    assert_eq!(*store.get_data().lock().unwrap(), data(3, "three"));
    assert_eq!(count.get(), 2);
}

#[test]
fn poisoned_replacement_is_in_the_file_only() {
    let mut disk = Disk::new("poisoned.json");
    let creation = ArcStore::new(data(1, "one"), disk.path.clone(), true);
    let written = disk.write(creation.write());
    let store: ArcStore = creation.finish(written, share_data, share).unwrap();
    let replacement = store.replace(data(2, "two"));
    let written = disk.write(replacement.write());
    let res: Result<(), SyncError<String>> =
        replacement.written(written).unwrap().locked(Err("poisoned lock".to_string()));
    match res {
        Err(SyncError::Poisoned(message)) => assert_eq!(message, "poisoned lock"),
        _ => panic!("the lock was poisoned"),
    }
    assert_eq!(disk.held(), data(2, "two"));
    assert_eq!(*store.get_data().lock().unwrap(), data(1, "one"));
}

#[test]
fn listener_of_an_owned_store_tells_of_every_event() {
    let mut disk = Disk::new("told.json");
    let creation = Store::new(data(1, "one"), disk.path.clone(), true);
    let written = disk.write(creation.write());
    let mut store: Store = creation.finish(written, RefCell::new, share).unwrap();
    let path = disk.path.clone();
    let (making, handler) = store.set_listener(&path).handler();
    listen(making).unwrap();
    let count = Arc::new(Cell::new(0));
    register(&store, "c", counting(&count));
    tell(vec![1, 2, 3], &handler);
    assert_eq!(count.get(), 3);
    assert_eq!(read(&store), data(1, "one"));
}

#[test]
fn listener_refreshes_the_handle_it_was_given() {
    let mut disk = Disk::new("other.json");
    let creation = ArcStore::new(data(1, "one"), disk.path.clone(), true);
    let written = disk.write(creation.write());
    let mut store: ArcStore = creation.finish(written, share_data, share).unwrap();
    let other = share_data(data(10, "ten"));
    let path = disk.path.clone();
    let (making, handler) = store.add_listener(other.clone(), &path).handler();
    listen(making).unwrap();
    disk.content = Some(b"[2,\"two\"]".to_vec());
    follow(vec![modified("other.json", 1)], &disk, &handler);
    assert_eq!(*other.lock().unwrap(), data(2, "two"));
    assert_eq!(*store.get_data().lock().unwrap(), data(1, "one"));
}

#[test]
fn an_event_of_another_kind_ends_the_batch() {
    let mut disk = Disk::new("ended.json");
    let creation = ArcStore::new(data(1, "one"), disk.path.clone(), true);
    let written = disk.write(creation.write());
    let mut store: ArcStore = creation.finish(written, share_data, share).unwrap();
    let (own, path) = (store.get_data(), disk.path.clone());
    let (making, handler) = store.add_listener(own, &path).handler();
    listen(making).unwrap();
    let (replaced, count) = (Arc::new(Cell::new(0)), Arc::new(Cell::new(0)));
    register_arc(&store, "c", counting(&replaced));
    register_arc(&store, "c", counting(&count));
    disk.content = Some(b"[2,\"two\"]".to_vec());
    let created =
        FileEvent { kind: EventKind::Create, paths: vec![disk.path.clone()], origin: 2 };
    let batch = vec![modified("ended.json", 1), created, modified("ended.json", 3)];
    follow(batch, &disk, &handler);
    assert_eq!(*store.get_data().lock().unwrap(), data(2, "two"));
    assert_eq!(count.get(), 1);
    assert_eq!(replaced.get(), 0);
}

#[test]
fn a_reload_of_the_own_write_is_told_too() {
    let mut disk = Disk::new("own.json");
    let creation = ArcStore::new_with_listener(data(1, "one"), disk.path.clone(), true);
    let written = disk.write(creation.write());
    let mut starting = creation.finish(written, share_data, share).unwrap();
    let (making, handler) = starting.listen().handler();
    let listening = listen(making);
    let store: ArcStore = starting.started(listening).unwrap();
    let count = Arc::new(Cell::new(0));
    register_arc(&store, "c", counting(&count));
    {
        let replacement = store.replace(data(2, "two"));
        let written = disk.write(replacement.write());
        let written = replacement.written(written).unwrap();
        let mut locked = written.handle().lock().unwrap();
        written.locked::<String>(Ok(&mut *locked)).unwrap();
    }
    follow(vec![modified("own.json", 1)], &disk, &handler);
    assert_eq!(*store.get_data().lock().unwrap(), data(2, "two"));
    assert_eq!(disk.held(), data(2, "two"));
    assert_eq!(count.get(), 1);
}
