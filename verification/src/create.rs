//! Bringing a store into being: with a new file, or from a file that exists.
use crate::callbacks::Callbacks;
use crate::file::FileWrite;
use crate::file::OpenFlags;
use crate::file::OpenMode;
use std::path::PathBuf;
use vstd::prelude::*;

verus! {

/// What a store consists of.
pub struct StoreView<D, L, K> {
    /// The handle on the data.
    pub data: D,
    /// The file.
    pub path: PathBuf,
    /// The listener on the file, if one was set up.
    pub listener: Option<L>,
    /// The handle on the callback table that is shared with the listener.
    pub callbacks: K,
}

/// How the file of a new store is opened.
pub open spec fn creation_mode(overwrite: bool) -> OpenMode {
    if overwrite {
        OpenMode::Truncate
    } else {
        OpenMode::CreateNew
    }
}

/// Whether `table` is what `share` makes of a table without callbacks.
pub open spec fn shares_empty<C, K, S: FnOnce(Callbacks<C>) -> K>(share: S, table: K) -> bool {
    exists|empty: Callbacks<C>|
        empty@ == Map::<Seq<char>, C>::empty() && #[trigger] call_ensures(share, (empty,), table)
}

/// Whether `share` can be called on a table without callbacks.
pub open spec fn can_share_empty<C, K, S: FnOnce(Callbacks<C>) -> K>(share: S) -> bool {
    forall|empty: Callbacks<C>|
        empty@ == Map::<Seq<char>, C>::empty() ==> #[trigger] call_requires(share, (empty,))
}

/// Shares a table without callbacks.
pub(crate) fn share_empty<C, K, S: FnOnce(Callbacks<C>) -> K>(share: S) -> (table: K)
    requires
        can_share_empty::<C, K, S>(share),
    ensures
        shares_empty::<C, K, S>(share, table),
{
    share(Callbacks::new())
}

/// The data of a new store and the file that it is written to first.
pub(crate) struct NewFile<T> {
    pub(crate) data: T,
    pub(crate) path: PathBuf,
    pub(crate) mode: OpenMode,
}

impl<T> NewFile<T> {
    pub(crate) fn new(data: T, path: PathBuf, overwrite: bool) -> (file: Self)
        ensures
            file.data == data,
            file.path == path,
            file.mode == creation_mode(overwrite),
    {
        let mode = if overwrite {
            OpenMode::Truncate
        } else {
            OpenMode::CreateNew
        };
        NewFile { data, path, mode }
    }

    pub(crate) fn write(&self) -> (write: FileWrite<'_, T>)
        ensures
            write.target() == self.path,
            write.mode() == self.mode,
            write.value() == self.data,
    {
        FileWrite::new(&self.path, self.mode, &self.data)
    }
}

/// A file that a store is to be made from.
pub struct Loading {
    path: PathBuf,
}

impl Loading {
    /// The file.
    pub closed spec fn target(self) -> PathBuf {
        self.path
    }

    pub(crate) fn new(path: PathBuf) -> (loading: Self)
        ensures
            loading.target() == path,
    {
        Loading { path }
    }

    pub(crate) fn into_path(self) -> (path: PathBuf)
        ensures
            path == self.target(),
    {
        self.path
    }

    /// The file to open.
    pub fn path(&self) -> (path: &PathBuf)
        ensures
            *path == self.target(),
    {
        &self.path
    }

    /// The options to open it with.
    pub fn flags(&self) -> (flags: OpenFlags)
        ensures
            flags == OpenMode::Read.spec_flags(),
    {
        OpenMode::Read.flags()
    }
}

} // verus!
