//! The listener of a store that tells its callbacks of file events and leaves
//! its data alone.
use crate::callbacks::covers;
use crate::callbacks::Caller;
use crate::calls::rows;
use crate::events::received;
use vstd::prelude::*;

verus! {

/// Handles a batch that the watcher delivered: calls every callback on every
/// event, whatever its kind, event by event. A batch of errors counts as one
/// without events.
pub fn dispatch<V, N, C: Fn(&V)>(batch: Result<Vec<V>, Vec<N>>, caller: &mut Caller<'_, V, C>)
    requires
        batch matches Ok(events) ==> forall|i: int|
            0 <= i < events@.len() ==> old(caller).can_tell(#[trigger] events@[i]),
    ensures
        final(caller).table() == old(caller).table(),
        covers(old(caller).table().walk(), old(caller).table()@),
        batch is Err ==> final(caller).made() == old(caller).made(),
        batch matches Ok(events) ==> {
            &&& final(caller).made() == old(caller).made() + rows(
                events@,
                events@.len(),
                old(caller).table().walk().len(),
            )
            &&& forall|i: int| 0 <= i < events@.len() ==> old(caller).told(#[trigger] events@[i])
        },
{
    let events = received(batch);
    caller.tell_all(&events);
}

} // verus!
