# synced_json_store

Keeps a value in memory and a JSON file in step.

`src/` is the verified library. It decides what is opened, written, borrowed,
locked, watched and called, and what becomes of the data for every outcome; it
touches no file, lock or watcher itself. An operation returns a value that names
the next outside step, with the path or the handle that it is to be made on, and
goes on when it is given the outcome.

- `store`, `guard`, `pending`: `SyncedJsonStore`, whose data has one owner. A
  new value reaches memory only after it was written to the file.
- `arc_store`: `ArcSyncedJsonStore`, whose data is shared behind a lock.
- `create`, `file`: new files, existing files, and how they are opened.
- `listener`, `events`, `dispatch`, `reload`: what happens when the file
  changes.
- `callbacks`, `calls`: the callback table, and the log of the calls made on it.
- `history`, `laws`: what holds over whole histories. `calls` and `reload` hold
  the laws on who hears which event and on following a file.

`app/` carries the steps out, with `serde_json`, a debounced `notify` watcher
and std's cells and locks.
