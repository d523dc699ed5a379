//! A new value that reaches memory only after it has reached the file.
use crate::file::write_data_to_file;
use crate::file::FileWrite;
use crate::file::OpenMode;
use std::path::PathBuf;
use vstd::prelude::*;

verus! {

/// The data of a store after an attempt to put `value` in its place: the value
/// if it was written to the file, else the data as it was.
pub open spec fn committed<T>(data: T, value: T, written: bool) -> T {
    if written {
        value
    } else {
        data
    }
}

/// A value that is to take the place of a store's data once it is written to
/// the store's file.
pub struct Pending<'a, T> {
    slot: &'a mut T,
    value: T,
    path: &'a PathBuf,
}

impl<'a, T> Pending<'a, T> {
    /// The data of the store.
    pub closed spec fn slot(self) -> &'a mut T {
        self.slot
    }

    /// The value that is to take its place.
    pub closed spec fn value(self) -> T {
        self.value
    }

    /// The file of the store.
    pub closed spec fn target(self) -> PathBuf {
        *self.path
    }

    pub(crate) fn new(slot: &'a mut T, value: T, path: &'a PathBuf) -> (pending: Self)
        ensures
            *pending.slot() == *old(slot),
            *final(slot) == *final(pending.slot()),
            pending.value() == value,
            pending.target() == *path,
    {
        Pending { slot, value, path }
    }

    /// The write that has to succeed first.
    pub fn write(&self) -> (write: FileWrite<'_, T>)
        ensures
            write.target() == self.target(),
            write.mode() == OpenMode::Truncate,
            write.value() == self.value(),
    {
        write_data_to_file(&self.value, self.path)
    }

    /// Takes the outcome of the write: on success the value becomes the data,
    /// on failure the data stays and the error is handed on.
    pub fn finish<E>(self, written: Result<(), E>) -> (res: Result<(), E>)
        ensures
            res == written,
            *final(self.slot()) == committed(*self.slot(), self.value(), written is Ok),
            written is Ok ==> *final(self.slot()) == self.value(),
            written is Err ==> *final(self.slot()) == *self.slot(),
    {
        if written.is_ok() {
            *self.slot = self.value;
        }
        written
    }
}

} // verus!
