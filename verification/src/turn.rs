//! The turn of one callback.
use crate::callbacks::Hears;
use crate::callbacks::Log;
use vstd::prelude::*;

verus! {

/// A callback whose turn it is, and the log that its call goes to.
///
/// The callback is reached only through `Hears`, so that no call of it is left
/// out of the log.
pub struct Turn<'t, 'a, V, C> {
    callback: &'a C,
    place: Ghost<int>,
    log: &'t mut Log<V>,
}

impl<'t, 'a, V, C> Turn<'t, 'a, V, C> {
    /// The callback.
    pub closed spec fn callback(self) -> C {
        *self.callback
    }

    /// Its place in the walk.
    pub closed spec fn place(self) -> int {
        self.place@
    }

    /// The log.
    pub closed spec fn log(self) -> &'t mut Log<V> {
        self.log
    }

    pub(crate) fn new(callback: &'a C, place: Ghost<int>, log: &'t mut Log<V>) -> (turn: Self)
        ensures
            turn.callback() == *callback,
            turn.place() == place@,
            *turn.log() == *old(log),
            *final(log) == *final(turn.log()),
    {
        Turn { callback, place, log }
    }

    /// Takes the turn: calls the callback on `event`.
    pub fn take(self, event: &V) where &'a C: Hears<V>
        requires
            Hears::<V>::can_hear(&self.callback(), event),
        ensures
            final(self.log()).made() == self.log().made().push((*event, self.place())),
            Hears::<V>::came_back(&self.callback(), event),
    {
        self.callback.hear(event, self.place, self.log);
    }
}

} // verus!
