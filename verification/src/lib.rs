//! Stores that keep a value in memory and a JSON file in step.
//!
//! Files, cells, locks and watchers belong to the caller. An operation that needs
//! one of them returns a value that says what is to be done next, and on which
//! path or through which handle, and goes on when that value is given the
//! outcome.
pub mod arc_store;
pub mod callbacks;
pub mod calls;
pub mod create;
pub mod dispatch;
pub mod error;
pub mod events;
pub mod file;
pub mod guard;
pub mod history;
pub mod laws;
pub mod listener;
pub mod pending;
pub mod reload;
pub mod runs;
pub mod store;
pub mod turn;

pub use arc_store::ArcSyncedJsonStore;
pub use guard::SyncGuard;
pub use store::SyncedJsonStore;
