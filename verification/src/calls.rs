//! Calling the callbacks of a table, and what each of them hears.
//!
//! A sequence of calls says of each call which event the callback was called
//! on and at which place of the walk it stands.
use crate::callbacks::covers;
use crate::callbacks::keys_of;
use crate::callbacks::Caller;
use crate::callbacks::Callbacks;
use crate::callbacks::Hears;
use crate::callbacks::Log;
use crate::dispatch::dispatch;
use crate::laws::law_walk_meets_each_once;
use crate::turn::Turn;
use vstd::prelude::*;

verus! {

/// The calls of the first `callbacks` callbacks on one event, in the order of
/// the walk.
pub open spec fn row<V>(event: V, callbacks: nat) -> Seq<(V, int)> {
    Seq::new(callbacks, |i: int| (event, i))
}

/// The calls of `callbacks` callbacks on each of the first `n` events, event by
/// event.
pub open spec fn rows<V>(events: Seq<V>, n: nat, callbacks: nat) -> Seq<(V, int)>
    decreases n,
{
    if n == 0 {
        Seq::empty()
    } else {
        rows(events, (n - 1) as nat, callbacks) + row(events[n - 1], callbacks)
    }
}

/// The events that the callback under `key` was called on, in the order of the
/// calls.
pub open spec fn heard<V, C>(
    made: Seq<(V, int)>,
    walk: Seq<(Seq<char>, C)>,
    key: Seq<char>,
) -> Seq<V>
    decreases made.len(),
{
    if made.len() == 0 {
        Seq::empty()
    } else {
        let before = heard(made.drop_last(), walk, key);
        if walk[made.last().1].0 == key {
            before.push(made.last().0)
        } else {
            before
        }
    }
}

/// Calls made later are heard later.
proof fn lemma_heard_later<V, C>(
    first: Seq<(V, int)>,
    then_made: Seq<(V, int)>,
    walk: Seq<(Seq<char>, C)>,
    key: Seq<char>,
)
    ensures
        heard(first + then_made, walk, key) == heard(first, walk, key) + heard(
            then_made,
            walk,
            key,
        ),
    decreases then_made.len(),
{
    if then_made.len() == 0 {
        assert(first + then_made =~= first);
        assert(heard(first, walk, key) + heard(then_made, walk, key) =~= heard(first, walk, key));
    } else {
        let rest = then_made.drop_last();
        lemma_heard_later(first, rest, walk, key);
        assert((first + then_made).drop_last() =~= first + rest);
        assert(heard(first + then_made, walk, key) =~= heard(first, walk, key) + heard(
            then_made,
            walk,
            key,
        ));
    }
}

/// Of the calls on one event, a callback hears its own.
proof fn lemma_heard_row<V, C>(
    event: V,
    callbacks: nat,
    walk: Seq<(Seq<char>, C)>,
    key: Seq<char>,
)
    requires
        keys_of(walk).no_duplicates(),
        callbacks <= walk.len(),
    ensures
        (exists|i: int| 0 <= i < callbacks && (#[trigger] walk[i]).0 == key) ==> heard(
            row(event, callbacks),
            walk,
            key,
        ) == seq![event],
        !(exists|i: int| 0 <= i < callbacks && (#[trigger] walk[i]).0 == key) ==> heard(
            row(event, callbacks),
            walk,
            key,
        ) == Seq::<V>::empty(),
    decreases callbacks,
{
    if callbacks > 0 {
        let last = callbacks - 1;
        lemma_heard_row(event, last as nat, walk, key);
        assert(row(event, callbacks).drop_last() =~= row(event, last as nat));
        assert(row(event, callbacks).last() == (event, last));
        if walk[last].0 == key {
            assert forall|i: int| 0 <= i < last implies (#[trigger] walk[i]).0 != key by {
                assert(keys_of(walk)[i] == walk[i].0 && keys_of(walk)[last] == walk[last].0);
            }
            assert(heard(row(event, callbacks), walk, key) =~= seq![event]);
        }
    }
}

/// When a listener goes through its table for each of a number of events,
/// every callback in the table is called on every event exactly once, in the
/// order of the events, and nothing else is called.
pub proof fn law_each_hears_every_event_once<V, C>(
    events: Seq<V>,
    n: nat,
    walk: Seq<(Seq<char>, C)>,
    table: Map<Seq<char>, C>,
    key: Seq<char>,
)
    requires
        n <= events.len(),
        covers(walk, table),
    ensures
        table.contains_key(key) ==> heard(rows(events, n, walk.len()), walk, key) == events.take(
            n as int,
        ),
        !table.contains_key(key) ==> heard(rows(events, n, walk.len()), walk, key) == Seq::<
            V,
        >::empty(),
    decreases n,
{
    let all = rows(events, n, walk.len());
    if n == 0 {
        assert(events.take(0) =~= Seq::empty());
    } else {
        let event = events[n - 1];
        law_each_hears_every_event_once(events, (n - 1) as nat, walk, table, key);
        lemma_heard_later(
            rows(events, (n - 1) as nat, walk.len()),
            row(event, walk.len()),
            walk,
            key,
        );
        lemma_heard_row(event, walk.len(), walk, key);
        if table.contains_key(key) {
            let i = keys_of(walk).index_of(key);
            assert(keys_of(walk).contains(key));
            assert(keys_of(walk)[i] == walk[i].0);
            assert(events.take(n as int) =~= events.take(n - 1) + seq![event]);
        } else {
            assert forall|i: int| 0 <= i < walk.len() implies (#[trigger] walk[i]).0 != key by {
                assert(keys_of(walk)[i] == walk[i].0);
            }
            assert(heard(all, walk, key) =~= Seq::empty());
        }
    }
}

impl<'a, V, C> Caller<'a, V, C> {
    /// Whether every callback of the table can be called on `event`.
    pub open spec fn can_tell(self, event: V) -> bool where C: Fn(&V) {
        forall|i: int|
            0 <= i < self.table().walk().len() ==> call_requires(
                (#[trigger] self.table().walk()[i]).1,
                (&event,),
            )
    }

    /// Whether every callback of the table can have come back from a call on
    /// `event`.
    pub open spec fn told(self, event: V) -> bool where C: Fn(&V) {
        forall|i: int|
            0 <= i < self.table().walk().len() ==> call_ensures(
                (#[trigger] self.table().walk()[i]).1,
                (&event,),
                (),
            )
    }

    /// Calls the callback at place `i` of the walk on `event`.
    pub(crate) fn call(&mut self, event: &V, i: usize) where C: Fn(&V)
        requires
            i < old(self).table().walk().len(),
            call_requires(old(self).table().walk()[i as int].1, (event,)),
        ensures
            final(self).table() == old(self).table(),
            final(self).made() == old(self).made().push((*event, i as int)),
            call_ensures(old(self).table().walk()[i as int].1, (event,), ()),
    {
        self.turn(i).take(event);
    }

    /// Calls the callbacks, whose number is given, once each on `event`.
    fn tell_each(&mut self, event: &V, callbacks: usize) where C: Fn(&V)
        requires
            callbacks == old(self).table().walk().len(),
            old(self).can_tell(*event),
        ensures
            final(self).table() == old(self).table(),
            final(self).made() == old(self).made() + row(*event, callbacks as nat),
            old(self).told(*event),
    {
        let ghost walk = self.table().walk();
        let mut i: usize = 0;
        while i < callbacks
            invariant
                i <= callbacks,
                callbacks == walk.len(),
                self.table() == old(self).table(),
                walk == self.table().walk(),
                self.made() =~= old(self).made() + row(*event, i as nat),
                forall|j: int|
                    0 <= j < walk.len() ==> call_requires((#[trigger] walk[j]).1, (event,)),
                forall|j: int| 0 <= j < i ==> call_ensures((#[trigger] walk[j]).1, (event,), ()),
            decreases callbacks - i,
        {
            self.call(event, i);
            i += 1;
        }
    }

    /// Calls every callback of the table once on `event`, in the order of the
    /// walk.
    pub fn tell(&mut self, event: &V) where C: Fn(&V)
        requires
            old(self).can_tell(*event),
        ensures
            final(self).table() == old(self).table(),
            final(self).made() == old(self).made() + row(*event, old(self).table().walk().len()),
            covers(old(self).table().walk(), old(self).table()@),
            old(self).told(*event),
    {
        let callbacks: usize = self.count();
        self.tell_each(event, callbacks);
    }

    /// Calls every callback of the table once on every event, event by event.
    pub fn tell_all(&mut self, events: &Vec<V>) where C: Fn(&V)
        requires
            forall|i: int|
                0 <= i < events@.len() ==> old(self).can_tell(#[trigger] events@[i]),
        ensures
            final(self).table() == old(self).table(),
            final(self).made() == old(self).made() + rows(
                events@,
                events@.len(),
                old(self).table().walk().len(),
            ),
            covers(old(self).table().walk(), old(self).table()@),
            forall|i: int| 0 <= i < events@.len() ==> old(self).told(#[trigger] events@[i]),
    {
        let callbacks: usize = self.count();
        let mut i: usize = 0;
        while i < events.len()
            invariant
                i <= events.len(),
                callbacks == self.table().walk().len(),
                self.table() == old(self).table(),
                self.made() =~= old(self).made() + rows(events@, i as nat, callbacks as nat),
                forall|j: int|
                    0 <= j < events@.len() ==> old(self).can_tell(#[trigger] events@[j]),
                forall|j: int| 0 <= j < i ==> old(self).told(#[trigger] events@[j]),
            decreases events.len() - i,
        {
            self.tell_each(&events[i], callbacks);
            i += 1;
        }
    }
}

/// A call of a callback is one entry in the log: the event that it was called on,
/// under the place that it was called for. The callback can be called no more
/// than once, as it is given up by the call.
pub proof fn law_a_call_is_one_entry<V, F: FnOnce(&V)>(
    callback: F,
    event: &V,
    place: Ghost<int>,
    log: &mut Log<V>,
)
    requires
        call_ensures(<F as Hears<V>>::hear, (callback, event, place, log), ()),
    ensures
        final(log).made().len() == old(log).made().len() + 1,
        final(log).made().last() == (*event, place@),
        final(log).made().drop_last() == old(log).made(),
        call_ensures(callback, (event,), ()),
{
    assert(log.made().push((*event, place@)).drop_last() =~= log.made());
}

/// A callback is called in its turn, and a turn is one entry in the log. To take
/// the turn nothing is known of the callback but that its call makes an entry;
/// to give the turn nothing is known of it at all.
pub proof fn law_a_turn_is_one_entry<'t, 'a, V, C>(
    caller: &'t mut Caller<'a, V, C>,
    i: usize,
    turn: Turn<'t, 'a, V, C>,
    event: &V,
) where &'a C: Hears<V>
    requires
        i < old(caller).table().walk().len(),
        call_ensures(Caller::<'a, V, C>::turn, (caller, i), turn),
        call_ensures(Turn::<'t, 'a, V, C>::take, (turn, event), ()),
    ensures
        final(caller).table() == old(caller).table(),
        final(caller).made().len() == old(caller).made().len() + 1,
        final(caller).made().last() == (*event, i as int),
        final(caller).made().drop_last() == old(caller).made(),
        Hears::<V>::came_back(&old(caller).table().walk()[i as int].1, event),
{
    assert(caller.made().push((*event, i as int)).drop_last() =~= caller.made());
}

/// Telling of one event makes one call of each callback: as many entries as there
/// are callbacks, the one for the callback at place `i` at place `i`, and what was
/// in the log before stays.
pub proof fn law_tell_calls_each_once<'a, V, C: Fn(&V)>(
    caller: &mut Caller<'a, V, C>,
    event: &V,
)
    requires
        call_ensures(Caller::<'a, V, C>::tell, (caller, event), ()),
    ensures
        ({
            let before = old(caller).made();
            let after = final(caller).made();
            let walk = old(caller).table().walk();
            &&& after.len() == before.len() + walk.len()
            &&& forall|k: int| 0 <= k < before.len() ==> after[k] == before[k]
            &&& forall|i: int|
                0 <= i < walk.len() ==> #[trigger] after[before.len() + i] == (*event, i)
            &&& forall|i: int|
                0 <= i < walk.len() ==> call_ensures((#[trigger] walk[i]).1, (event,), ())
        }),
{
}

/// Callbacks that can be called on an event can be told of it, and nothing more is
/// asked.
pub proof fn law_what_can_be_called_can_be_told<'a, V, C: Fn(&V)>(
    caller: &mut Caller<'a, V, C>,
    event: &V,
)
    requires
        forall|i: int|
            0 <= i < old(caller).table().walk().len() ==> call_requires(
                (#[trigger] old(caller).table().walk()[i]).1,
                (event,),
            ),
    ensures
        call_requires(Caller::<'a, V, C>::tell, (caller, event)),
{
}

/// The calls for `n` events are as many as there are pairs of an event and a
/// callback, and stand event by event: here for the event at `k` and the callback
/// at `i`.
pub proof fn law_rows_event_by_event<V>(
    events: Seq<V>,
    n: nat,
    callbacks: nat,
    k: int,
    i: int,
)
    ensures
        rows(events, n, callbacks).len() == n * callbacks,
        0 <= k < n && 0 <= i < callbacks ==> 0 <= k * callbacks + i < n * callbacks && rows(
            events,
            n,
            callbacks,
        )[k * callbacks + i] == (events[k], i),
    decreases n,
{
    if n == 0 {
        assert(n * callbacks == 0) by (nonlinear_arith)
            requires
                n == 0,
        ;
    } else {
        let m = (n - 1) as nat;
        law_rows_event_by_event(events, m, callbacks, k, i);
        assert(n * callbacks == m * callbacks + callbacks) by (nonlinear_arith)
            requires
                n == m + 1,
        ;
        if 0 <= k < n && 0 <= i < callbacks {
            if k == m {
                assert(k * callbacks == m * callbacks);
                assert(0 <= m * callbacks) by (nonlinear_arith);
                assert(row(events[n - 1], callbacks)[i] == (events[k], i));
            }
        }
    }
}

/// The listener that only tells makes, for a batch of events, one call of each
/// callback on each event, in the order of the batch: here for the event at `k`
/// and the callback at `i`. For a batch of errors it makes none.
pub proof fn law_dispatch_calls_each_once<'a, V, N, C: Fn(&V)>(
    batch: Result<Vec<V>, Vec<N>>,
    caller: &mut Caller<'a, V, C>,
    k: int,
    i: int,
)
    requires
        call_ensures(dispatch::<V, N, C>, (batch, caller), ()),
    ensures
        ({
            let before = old(caller).made();
            let after = final(caller).made();
            let walk = old(caller).table().walk();
            &&& batch is Err ==> after == before
            &&& batch matches Ok(events) ==> {
                &&& after.len() == before.len() + events@.len() * walk.len()
                &&& forall|j: int| 0 <= j < before.len() ==> after[j] == before[j]
                &&& 0 <= k < events@.len() && 0 <= i < walk.len() ==> {
                    &&& before.len() + k * walk.len() + i < after.len()
                    &&& after[before.len() + k * walk.len() + i] == (events@[k], i)
                    &&& call_ensures(walk[i].1, (&events@[k],), ())
                }
            }
        }),
{
    if let Ok(events) = batch {
        let walk = caller.table().walk();
        law_rows_event_by_event(events@, events@.len(), walk.len(), k, i);
        if 0 <= k < events@.len() && 0 <= i < walk.len() {
            assert(caller.told(events@[k]));
            assert(call_ensures(walk[i].1, (&events@[k],), ()));
        }
    }
}

/// A callback that was put under a key is called once when the table is told of
/// an event: it stands at one place of the walk, and there is no other place with
/// that key.
pub proof fn law_registered_is_called_once<'a, V, C: Fn(&V)>(
    table: &mut Callbacks<C>,
    key: &str,
    callback: C,
    caller: &mut Caller<'a, V, C>,
    event: &V,
)
    requires
        call_ensures(Callbacks::<C>::set, (table, key, callback), ()),
        old(caller).table() == *final(table),
        call_ensures(Caller::<'a, V, C>::tell, (caller, event), ()),
    ensures
        ({
            let walk = old(caller).table().walk();
            let told = final(caller).made().skip(old(caller).made().len() as int);
            exists|i: int|
                {
                    &&& 0 <= i < walk.len()
                    &&& (#[trigger] walk[i]) == (key@, callback)
                    &&& told[i] == (*event, i)
                    &&& forall|j: int| 0 <= j < told.len() && (#[trigger] told[j]).1 == i ==> j == i
                    &&& forall|j: int|
                        0 <= j < walk.len() && (#[trigger] walk[j]).0 == key@ ==> j == i
                }
        }),
{
    let walk = caller.table().walk();
    let map = caller.table()@;
    law_walk_meets_each_once(walk, map);
    assert(map.contains_key(key@));
    let i = choose|i: int| 0 <= i < walk.len() && (#[trigger] walk[i]).0 == key@;
    assert(walk[i] == (key@, callback));
    let told = (caller.made() + row(*event, walk.len())).skip(caller.made().len() as int);
    assert(told =~= row(*event, walk.len()));
    assert(told[i] == (*event, i));
}

/// After a key was taken out, no callback under it is called.
pub proof fn law_removed_is_not_called<'a, V, C: Fn(&V)>(
    table: &mut Callbacks<C>,
    key: &str,
    caller: &mut Caller<'a, V, C>,
    event: &V,
)
    requires
        call_ensures(Callbacks::<C>::remove, (table, key), ()),
        old(caller).table() == *final(table),
        call_ensures(Caller::<'a, V, C>::tell, (caller, event), ()),
    ensures
        ({
            let walk = old(caller).table().walk();
            let told = final(caller).made().skip(old(caller).made().len() as int);
            forall|j: int|
                0 <= j < told.len() ==> 0 <= (#[trigger] told[j]).1 < walk.len()
                    && walk[told[j].1].0 != key@
        }),
{
    let walk = caller.table().walk();
    let map = caller.table()@;
    law_walk_meets_each_once(walk, map);
    assert(!map.contains_key(key@));
    let told = (caller.made() + row(*event, walk.len())).skip(caller.made().len() as int);
    assert(told =~= row(*event, walk.len()));
}

} // verus!
