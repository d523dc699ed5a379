//! Editing a store's data in place.
use crate::pending::Pending;
use std::ops::Deref;
use std::path::PathBuf;
use vstd::prelude::*;

verus! {

/// Exclusive access to the data of a store, through a borrow `G` of it. Reading
/// goes to the data itself; the first request to write makes a copy, and from
/// then on the copy is read and edited. When the guard is given up, an edited
/// copy is written to the file, and takes the place of the data if that
/// succeeds.
pub struct SyncGuard<'a, G, T> {
    guard: G,
    buf: Option<T>,
    path: &'a PathBuf,
}

/// An edited copy that is to take the place of the data.
pub struct Edit<'a, T> {
    value: T,
    path: &'a PathBuf,
}

impl<'a, G, T> SyncGuard<'a, G, T> {
    /// The borrow of the store's data.
    pub closed spec fn borrow(self) -> G {
        self.guard
    }

    /// The copy under edit, if writing was ever asked for.
    pub closed spec fn copy(self) -> Option<T> {
        self.buf
    }

    /// The file of the store.
    pub closed spec fn target(self) -> PathBuf {
        *self.path
    }

    /// Whether `data` is what the guard shows.
    pub open spec fn shows(self, data: T) -> bool where G: Deref<Target = T> {
        match self.copy() {
            Some(copy) => data == copy,
            None => call_ensures(G::deref, (&self.borrow(),), &data),
        }
    }

    pub(crate) fn new(guard: G, path: &'a PathBuf) -> (res: Self)
        ensures
            res.borrow() == guard,
            res.copy() is None,
            res.target() == *path,
    {
        SyncGuard { guard, buf: None, path }
    }

    /// The data, as edited so far.
    pub fn deref(&self) -> (data: &T) where G: Deref<Target = T>
        ensures
            self.shows(*data),
            self.copy() matches Some(copy) ==> *data == copy,
            self.copy() is None ==> call_ensures(G::deref, (&self.borrow(),), data),
    {
        match &self.buf {
            Some(buf) => buf,
            None => self.guard.deref(),
        }
    }

    /// The data, to be edited. Neither the store nor its file sees the edit
    /// before the guard is given up.
    pub fn deref_mut(&mut self) -> (data: &mut T) where G: Deref<Target = T>, T: Clone
        ensures
            match old(self).copy() {
                Some(copy) => *data == copy,
                None => exists|current: T| #[trigger]
                    old(self).shows(current) && cloned(current, *data),
            },
            final(self).copy() == Some(*final(data)),
            final(self).borrow() == old(self).borrow(),
            final(self).target() == old(self).target(),
    {
        let copy = match self.buf.take() {
            Some(copy) => copy,
            None => {
                let current = self.guard.deref();
                assert(old(self).shows(*current));
                current.clone()
            },
        };
        self.buf.insert(copy)
    }

    /// Gives the guard up. An edited copy is still to be written to the file,
    /// and the borrow is kept for that long; without one there is nothing to
    /// write.
    pub fn drop(self) -> (edit: Option<(G, Edit<'a, T>)>)
        ensures
            self.copy() is None ==> edit is None,
            self.copy() matches Some(copy) ==> (edit matches Some(e) && e.0 == self.borrow()
                && e.1.value() == copy && e.1.target() == self.target()),
    {
        match self.buf {
            Some(buf) => Some((self.guard, Edit { value: buf, path: self.path })),
            None => None,
        }
    }
}

impl<'a, T> Edit<'a, T> {
    /// The edited copy.
    pub closed spec fn value(self) -> T {
        self.value
    }

    /// The file of the store.
    pub closed spec fn target(self) -> PathBuf {
        *self.path
    }

    /// Takes the data that the borrow reaches.
    pub fn borrowed<'b>(self, slot: &'b mut T) -> (pending: Pending<'b, T>) where 'a: 'b
        ensures
            *pending.slot() == *old(slot),
            *final(slot) == *final(pending.slot()),
            pending.value() == self.value(),
            pending.target() == self.target(),
    {
        Pending::new(slot, self.value, self.path)
    }
}

} // verus!
