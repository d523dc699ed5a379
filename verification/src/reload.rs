//! The listener of a store that follows its file: on an event that asks for
//! it, the data is read again before the callbacks are called.
//!
//! Opening the file, taking the lock and parsing are done outside, in that
//! order; each step takes the outcome of one of them. The callbacks are called
//! in the last step, while the data is still locked.
use crate::callbacks::covers;
use crate::callbacks::Caller;
use crate::calls::heard;
use crate::calls::law_each_hears_every_event_once;
use crate::calls::row;
use crate::calls::rows;
use crate::events::origins;
use crate::events::received;
use crate::events::EventKind;
use crate::events::FileEvent;
use crate::events::ModifyKind;
use crate::file::OpenFlags;
use crate::file::OpenMode;
use crate::history::shared_memory;
use crate::history::SharedStep;
use crate::listener::Handler;
use std::path::PathBuf;
use vstd::prelude::*;

verus! {

/// Where the listener stands in a batch of events.
pub enum ReloadStage {
    /// The file of the event at this place is to be opened.
    Open(int),
    /// The batch is done.
    Done,
}

/// Where the listener stands before the event at `place`: an event that does
/// not ask for a reload ends the batch.
pub open spec fn reload_stage<V>(events: Seq<FileEvent<V>>, place: int) -> ReloadStage {
    if 0 <= place < events.len() && events[place].asks_reload() {
        ReloadStage::Open(place)
    } else {
        ReloadStage::Done
    }
}

/// What the listener does next.
pub enum Reload<'h, D, V> {
    /// Open the file of an event.
    Open(OpenFile<'h, D, V>),
    /// Nothing more.
    Done,
}

/// A file to be opened, for the data behind the handle `D`.
pub struct OpenFile<'h, D, V> {
    data: &'h D,
    events: Vec<FileEvent<V>>,
    place: usize,
}

/// An open file, for which the lock on the data is to be taken.
pub struct LockData<'h, D, V, F> {
    opening: OpenFile<'h, D, V>,
    file: F,
}

/// An open file to be parsed, and the data that takes the value.
pub struct ParseFile<'a, 'h, D, V, F, T> {
    opening: OpenFile<'h, D, V>,
    file: F,
    slot: &'a mut T,
}

/// Data that was just read from the file and is still locked, of which the
/// callbacks are to be told.
pub struct Telling<'a, 'h, D, V, T> {
    opening: OpenFile<'h, D, V>,
    data: &'a T,
}

impl<'h, D, V> Reload<'h, D, V> {
    /// Where the listener stands.
    pub open spec fn stage(self) -> ReloadStage {
        match self {
            Reload::Open(opening) => ReloadStage::Open(opening.place()),
            Reload::Done => ReloadStage::Done,
        }
    }

    /// Whether a file to be opened belongs to the batch `events`, and is for the
    /// data behind the handle `data`.
    pub open spec fn of_batch(self, events: Seq<FileEvent<V>>, data: D) -> bool {
        self matches Reload::Open(opening) ==> opening.events() == events && opening.shared()
            == data
    }

    /// Begins a batch that the watcher delivered. A batch of errors counts as
    /// one without events.
    pub(crate) fn start<N>(batch: Result<Vec<FileEvent<V>>, Vec<N>>, data: &'h D) -> (next: Self)
        ensures
            batch matches Ok(events) ==> next.stage() == reload_stage(events@, 0)
                && next.of_batch(events@, *data),
            batch is Err ==> next is Done,
    {
        Self::at(received(batch), 0, data)
    }

    fn at(events: Vec<FileEvent<V>>, place: usize, data: &'h D) -> (next: Self)
        ensures
            next.stage() == reload_stage(events@, place as int),
            next.of_batch(events@, *data),
    {
        if place < events.len() && events[place].reload_path().is_some() {
            Reload::Open(OpenFile { data, events, place })
        } else {
            Reload::Done
        }
    }
}

impl<'h, D, V> OpenFile<'h, D, V> {
    /// The handle on the data.
    pub closed spec fn shared(self) -> D {
        *self.data
    }

    /// The batch.
    pub closed spec fn events(self) -> Seq<FileEvent<V>> {
        self.events@
    }

    /// The place in the batch of the event at hand.
    pub closed spec fn place(self) -> int {
        self.place as int
    }

    /// The event at hand.
    pub open spec fn event(self) -> FileEvent<V> {
        self.events()[self.place()]
    }

    #[verifier::type_invariant]
    spec fn in_range(self) -> bool {
        &&& self.place < self.events@.len()
        &&& self.events@[self.place as int].asks_reload()
    }

    /// The file to open.
    pub fn path(&self) -> (path: &PathBuf)
        ensures
            0 <= self.place() < self.events().len(),
            self.event().asks_reload(),
            self.events()[self.place()].paths@.len() > 0,
            *path == self.events()[self.place()].paths@[0],
    {
        proof {
            use_type_invariant(self);
        }
        &self.events[self.place].paths[0]
    }

    /// The options to open it with.
    pub fn flags(&self) -> (flags: OpenFlags)
        ensures
            flags == OpenMode::Read.spec_flags(),
    {
        OpenMode::Read.flags()
    }

    /// Takes the outcome of opening the file; a failure ends the batch.
    pub fn opened<F, E>(self, file: Result<F, E>) -> (next: Option<
        LockData<'h, D, V, F>,
    >)
        ensures
            file is Err ==> next is None,
            file matches Ok(f) ==> (next matches Some(locking) && locking.opening() == self
                && locking.file() == f),
    {
        match file {
            Ok(file) => Some(LockData { opening: self, file }),
            Err(_) => None,
        }
    }
}

impl<'h, D, V, F> LockData<'h, D, V, F> {
    /// The event at hand.
    pub closed spec fn opening(self) -> OpenFile<'h, D, V> {
        self.opening
    }

    /// The open file.
    pub closed spec fn file(self) -> F {
        self.file
    }

    /// The handle on the data to lock.
    pub fn handle(&self) -> (data: &'h D)
        ensures
            *data == self.opening().shared(),
    {
        self.opening.data
    }

    /// Takes the outcome of locking the data; a failure ends the batch.
    pub fn locked<'a, T, E>(self, slot: Result<&'a mut T, E>) -> (next: Option<
        ParseFile<'a, 'h, D, V, F, T>,
    >)
        ensures
            slot is Err ==> next is None,
            slot matches Ok(s) ==> (next matches Some(parsing) && parsing.opening()
                == self.opening() && parsing.file() == self.file() && *parsing.slot() == *s
                && *final(parsing.slot()) == *final(s)),
    {
        match slot {
            Ok(slot) => Some(ParseFile { opening: self.opening, file: self.file, slot }),
            Err(_) => None,
        }
    }
}

impl<'a, 'h, D, V, F, T> ParseFile<'a, 'h, D, V, F, T> {
    /// The event at hand.
    pub closed spec fn opening(self) -> OpenFile<'h, D, V> {
        self.opening
    }

    /// The open file.
    pub closed spec fn file(self) -> F {
        self.file
    }

    /// The locked data.
    pub closed spec fn slot(self) -> &'a mut T {
        self.slot
    }

    /// The open file, to be read.
    pub fn reader(&mut self) -> (file: &mut F)
        ensures
            *file == old(self).file(),
            final(self).file() == *final(file),
            final(self).opening() == old(self).opening(),
            final(self).slot() == old(self).slot(),
    {
        &mut self.file
    }

    /// Takes the outcome of parsing the file. A value goes into the data, of
    /// which the callbacks are told next; a failure leaves the data as it is
    /// and ends the batch.
    pub fn parsed<E>(self, value: Result<T, E>) -> (next: Option<
        Telling<'a, 'h, D, V, T>,
    >)
        ensures
            value is Err ==> next is None && *final(self.slot()) == *self.slot(),
            value matches Ok(v) ==> (next matches Some(telling) && telling.opening()
                == self.opening() && telling.data() == v && *final(self.slot()) == v
                && *final(self.slot()) == shared_memory(*self.slot(), SharedStep::Reload(v))),
    {
        let ParseFile { opening, file: _, slot } = self;
        match value {
            Ok(value) => {
                *slot = value;
                Some(Telling { opening, data: &*slot })
            },
            Err(_) => None,
        }
    }
}

impl<'a, 'h, D, V, T> Telling<'a, 'h, D, V, T> {
    /// The event at hand.
    pub closed spec fn opening(self) -> OpenFile<'h, D, V> {
        self.opening
    }

    /// The data as read from the file.
    pub closed spec fn data(self) -> T {
        *self.data
    }

    /// Calls every callback on the event and moves on to the next one.
    pub fn tell<C: Fn(&V)>(self, caller: &mut Caller<'_, V, C>) -> (next: Reload<
        'h,
        D,
        V,
    >)
        requires
            old(caller).can_tell(
                self.opening().events()[self.opening().place()].origin,
            ),
        ensures
            final(caller).table() == old(caller).table(),
            covers(old(caller).table().walk(), old(caller).table()@),
            final(caller).made() == old(caller).made() + row(
                self.opening().events()[self.opening().place()].origin,
                old(caller).table().walk().len(),
            ),
            old(caller).told(self.opening().events()[self.opening().place()].origin),
            next.stage() == reload_stage(self.opening().events(), self.opening().place() + 1),
            next.of_batch(self.opening().events(), self.opening().shared()),
    {
        let opening = self.opening;
        proof {
            use_type_invariant(&opening);
        }
        let OpenFile { data, events, place } = opening;
        assert(place < events.len());
        caller.tell(&events[place].origin);
        Reload::at(events, place + 1, data)
    }
}

/// What a batch does when taken up at `stage`: the data it leaves and the calls
/// it makes. `replies[i]` is the value read for the event at `i`, or `None`
/// where the file could not be opened or parsed or the data not locked.
pub open spec fn reload_run<V, T>(
    events: Seq<FileEvent<V>>,
    callbacks: nat,
    replies: Seq<Option<T>>,
    stage: ReloadStage,
    data: T,
) -> (T, Seq<(V, int)>)
    decreases
            (match stage {
                ReloadStage::Open(place) => events.len() - place,
                ReloadStage::Done => 0,
            }),
{
    match stage {
        ReloadStage::Open(place) => if place < events.len() && replies[place] is Some {
            let (left, made) = reload_run(
                events,
                callbacks,
                replies,
                reload_stage(events, place + 1),
                replies[place]->0,
            );
            (left, row(events[place].origin, callbacks) + made)
        } else {
            (data, Seq::empty())
        },
        ReloadStage::Done => (data, Seq::empty()),
    }
}

/// Whether the event at `place` is followed.
pub open spec fn is_followed<V, T>(
    events: Seq<FileEvent<V>>,
    replies: Seq<Option<T>>,
    place: int,
) -> bool {
    events[place].asks_reload() && replies[place] is Some
}

/// How far from `place` on the events are followed one after the other.
pub open spec fn followed_up_to<V, T>(
    events: Seq<FileEvent<V>>,
    replies: Seq<Option<T>>,
    place: nat,
) -> nat
    decreases events.len() - place,
{
    if place < events.len() && is_followed(events, replies, place as int) {
        followed_up_to(events, replies, place + 1)
    } else {
        place
    }
}

/// Taken up before the event at `place`, a batch follows the events up to the
/// first that it cannot follow.
proof fn lemma_reload_from<V, T>(
    events: Seq<FileEvent<V>>,
    callbacks: nat,
    replies: Seq<Option<T>>,
    place: nat,
    data: T,
)
    requires
        place <= events.len(),
    ensures
        ({
            let end = followed_up_to(events, replies, place);
            let run = reload_run(
                events,
                callbacks,
                replies,
                reload_stage(events, place as int),
                data,
            );
            &&& place <= end <= events.len()
            &&& forall|i: int| place <= i < end ==> is_followed(events, replies, i)
            &&& end < events.len() ==> !is_followed(events, replies, end as int)
            &&& run.0 == (if end == place {
                data
            } else {
                replies[end - 1]->0
            })
            &&& rows(origins(events), place, callbacks) + run.1 == rows(
                origins(events),
                end,
                callbacks,
            )
        }),
    decreases events.len() - place,
{
    let before = rows(origins(events), place, callbacks);
    let run = reload_run(events, callbacks, replies, reload_stage(events, place as int), data);
    if place < events.len() && is_followed(events, replies, place as int) {
        let value = replies[place as int]->0;
        lemma_reload_from(events, callbacks, replies, place + 1, value);
        let rest = reload_run(
            events,
            callbacks,
            replies,
            reload_stage(events, place as int + 1),
            value,
        );
        assert(run.1 == row(events[place as int].origin, callbacks) + rest.1);
        assert(before + run.1 =~= rows(origins(events), place + 1, callbacks) + rest.1);
    } else {
        assert(before + run.1 =~= before);
    }
}

/// A batch is followed up to the first event that is not an unspecified
/// modification, has no path or cannot be read: the data ends as the last value
/// read before that, if any, and the calls made are those due for the events up
/// to there, in order.
pub proof fn law_reload_follows_prefix<V, T>(
    events: Seq<FileEvent<V>>,
    callbacks: nat,
    replies: Seq<Option<T>>,
    data: T,
)
    ensures
        ({
            let end = followed_up_to(events, replies, 0);
            let run = reload_run(events, callbacks, replies, reload_stage(events, 0), data);
            &&& end <= events.len()
            &&& forall|i: int|
                0 <= i < end ==> (#[trigger] events[i]).kind == EventKind::Modify(ModifyKind::Any)
                    && events[i].paths@.len() > 0 && replies[i] is Some
            &&& end < events.len() ==> !(events[end as int].kind == EventKind::Modify(
                ModifyKind::Any,
            ) && events[end as int].paths@.len() > 0 && replies[end as int] is Some)
            &&& run.0 == (if end == 0 {
                data
            } else {
                replies[end - 1]->0
            })
            &&& run.1 == rows(origins(events), end, callbacks)
        }),
{
    let end = followed_up_to(events, replies, 0);
    let run = reload_run(events, callbacks, replies, reload_stage(events, 0), data);
    lemma_reload_from(events, callbacks, replies, 0, data);
    assert(rows(origins(events), 0, callbacks) + run.1 =~= run.1);
    assert forall|i: int| 0 <= i < end implies (#[trigger] events[i]).kind == EventKind::Modify(
        ModifyKind::Any,
    ) && events[i].paths@.len() > 0 && replies[i] is Some by {
        assert(is_followed(events, replies, i));
    }
}

/// Whether the file of an event is opened when its turn comes depends on that
/// event alone: on an unspecified modification with a path it is, on any other
/// event it is not, whatever else is in the batch.
pub proof fn law_event_alone_decides<V>(events: Seq<FileEvent<V>>, i: int)
    requires
        0 <= i < events.len(),
    ensures
        events[i].kind == EventKind::Modify(ModifyKind::Any) && events[i].paths@.len() > 0
            ==> reload_stage(events, i) == ReloadStage::Open(i),
        !(events[i].kind == EventKind::Modify(ModifyKind::Any) && events[i].paths@.len() > 0)
            ==> reload_stage(events, i) == ReloadStage::Done,
        reload_stage(events, events.len() as int) == ReloadStage::Done,
{
}

/// A batch that is cut off is followed as far as the whole, or up to the cut.
proof fn lemma_followed_alike<V, T>(
    events: Seq<FileEvent<V>>,
    replies: Seq<Option<T>>,
    k: nat,
    place: nat,
)
    requires
        place <= k <= events.len(),
    ensures
        followed_up_to(events.take(k as int), replies, place) == (if followed_up_to(
            events,
            replies,
            place,
        ) <= k {
            followed_up_to(events, replies, place)
        } else {
            k
        }),
        place <= followed_up_to(events, replies, place),
    decreases events.len() - place,
{
    let cut = events.take(k as int);
    if place < k {
        assert(cut[place as int] == events[place as int]);
        if is_followed(events, replies, place as int) {
            lemma_followed_alike(events, replies, k, place + 1);
        }
    } else {
        lemma_followed_far(events, replies, place);
    }
}

/// Events are followed from a place on, not before it.
proof fn lemma_followed_far<V, T>(
    events: Seq<FileEvent<V>>,
    replies: Seq<Option<T>>,
    place: nat,
)
    ensures
        place <= followed_up_to(events, replies, place),
    decreases events.len() - place,
{
    if place < events.len() && is_followed(events, replies, place as int) {
        lemma_followed_far(events, replies, place + 1);
    }
}

/// The calls for fewer events come first among those for more.
proof fn lemma_rows_start<V>(events: Seq<V>, n: nat, k: nat, callbacks: nat)
    requires
        k <= n,
    ensures
        rows(events, k, callbacks).is_prefix_of(rows(events, n, callbacks)),
    decreases n,
{
    if k < n {
        lemma_rows_start(events, (n - 1) as nat, k, callbacks);
    }
}

/// The same events are due the same calls.
proof fn lemma_rows_alike<V>(events: Seq<V>, others: Seq<V>, n: nat, callbacks: nat)
    requires
        forall|i: int| 0 <= i < n ==> events[i] == others[i],
    ensures
        rows(events, n, callbacks) == rows(others, n, callbacks),
    decreases n,
{
    if n > 0 {
        lemma_rows_alike(events, others, (n - 1) as nat, callbacks);
    }
}

/// What comes later in a batch changes nothing of what came before: the calls for
/// the first `k` events are those that a batch of only these events makes, and if
/// the batch ends there, so does the data.
pub proof fn law_later_events_change_nothing_before<V, T>(
    events: Seq<FileEvent<V>>,
    callbacks: nat,
    replies: Seq<Option<T>>,
    data: T,
    k: nat,
)
    requires
        k <= events.len(),
    ensures
        ({
            let cut = events.take(k as int);
            let all = reload_run(events, callbacks, replies, reload_stage(events, 0), data);
            let part = reload_run(cut, callbacks, replies, reload_stage(cut, 0), data);
            &&& part.1.is_prefix_of(all.1)
            &&& (k < events.len() && (events[k as int].kind != EventKind::Modify(ModifyKind::Any)
                || events[k as int].paths@.len() == 0 || replies[k as int] is None)) ==> part == all
        }),
{
    let cut = events.take(k as int);
    let end = followed_up_to(events, replies, 0);
    let part_end = followed_up_to(cut, replies, 0);
    law_reload_follows_prefix(events, callbacks, replies, data);
    law_reload_follows_prefix(cut, callbacks, replies, data);
    lemma_followed_alike(events, replies, k, 0);
    lemma_rows_start(origins(events), end, part_end, callbacks);
    lemma_rows_alike(origins(events), origins(cut), part_end, callbacks);
    if k < events.len() && (events[k as int].kind != EventKind::Modify(ModifyKind::Any)
        || events[k as int].paths@.len() == 0 || replies[k as int] is None) {
        if end > k {
            assert(events[k as int].kind == EventKind::Modify(ModifyKind::Any));
        }
        assert(part_end == end);
    }
}

/// A batch is begun with the file of its first event, if that is an unspecified
/// modification with a path, and else not at all, whatever comes after it. A batch
/// of errors is not begun.
pub proof fn law_batch_begins_with_first_event<'h, D, K, V, N>(
    handler: &'h Handler<D, K>,
    batch: Result<Vec<FileEvent<V>>, Vec<N>>,
    next: Reload<'h, D, V>,
)
    requires
        call_ensures(Handler::<D, K>::start::<V, N>, (handler, batch), next),
    ensures
        batch is Err ==> next is Done,
        batch matches Ok(events) ==> (next is Open <==> events@.len() > 0 && events@[0].kind
            == EventKind::Modify(ModifyKind::Any) && events@[0].paths@.len() > 0),
        batch matches Ok(events) ==> (next matches Reload::Open(opening) ==> opening.events()
            == events@ && opening.place() == 0 && opening.shared() == handler.data()),
{
}

/// The file to open for an event is the first path of that very event, opened for
/// reading.
pub proof fn law_opens_the_event_s_own_path<'h, D, V>(
    opening: &OpenFile<'h, D, V>,
    path: &PathBuf,
    flags: OpenFlags,
)
    requires
        call_ensures(OpenFile::<'h, D, V>::path, (opening,), path),
        call_ensures(OpenFile::<'h, D, V>::flags, (opening,), flags),
    ensures
        0 <= opening.place() < opening.events().len(),
        opening.events()[opening.place()].paths@.len() > 0,
        *path == opening.events()[opening.place()].paths@[0],
        flags.read && !flags.write && !flags.create && !flags.truncate && !flags.create_new,
{
}

/// An event whose file could be opened and parsed and whose data could be locked
/// is followed: the data becomes the value read, each callback is called once on
/// that very event, and the next event is taken up, which asks for its file if it
/// is an unspecified modification with a path and else ends the batch.
pub proof fn law_event_is_followed<'a, 'h, 'c, D, V, F, T, C: Fn(&V), E1, E2, E3>(
    opening: OpenFile<'h, D, V>,
    file: F,
    locking: LockData<'h, D, V, F>,
    handle: &'h D,
    slot: &'a mut T,
    parsing: ParseFile<'a, 'h, D, V, F, T>,
    value: T,
    telling: Telling<'a, 'h, D, V, T>,
    caller: &mut Caller<'c, V, C>,
    next: Reload<'h, D, V>,
)
    requires
        call_ensures(
            OpenFile::<'h, D, V>::opened::<F, E1>,
            (opening, Ok::<F, E1>(file)),
            Some(locking),
        ),
        call_ensures(LockData::<'h, D, V, F>::handle, (&locking,), handle),
        call_ensures(
            LockData::<'h, D, V, F>::locked::<T, E2>,
            (locking, Ok::<&'a mut T, E2>(slot)),
            Some(parsing),
        ),
        call_ensures(
            ParseFile::<'a, 'h, D, V, F, T>::parsed::<E3>,
            (parsing, Ok::<T, E3>(value)),
            Some(telling),
        ),
        call_ensures(Telling::<'a, 'h, D, V, T>::tell::<C>, (telling, caller), next),
    ensures
        *handle == opening.shared(),
        parsing.file() == file,
        *parsing.slot() == *old(slot),
        *final(slot) == value,
        ({
            let before = old(caller).made();
            let after = final(caller).made();
            let walk = old(caller).table().walk();
            let event = opening.events()[opening.place()];
            let p = opening.place() + 1;
            &&& after.len() == before.len() + walk.len()
            &&& forall|j: int| 0 <= j < before.len() ==> after[j] == before[j]
            &&& forall|i: int|
                0 <= i < walk.len() ==> #[trigger] after[before.len() + i] == (event.origin, i)
            &&& forall|i: int|
                0 <= i < walk.len() ==> call_ensures(
                    (#[trigger] walk[i]).1,
                    (&event.origin,),
                    (),
                )
            &&& (next is Open <==> 0 <= p < opening.events().len() && opening.events()[p].kind
                == EventKind::Modify(ModifyKind::Any) && opening.events()[p].paths@.len() > 0)
            &&& (next matches Reload::Open(o) ==> o.events() == opening.events() && o.place() == p
                && o.shared() == opening.shared())
        }),
{
}

/// What is read for an event is the file that was opened for it.
pub proof fn law_reads_the_open_file<'a, 'h, 's, D, V, F, T>(
    parsing: &'s mut ParseFile<'a, 'h, D, V, F, T>,
    reader: &'s mut F,
)
    requires
        call_ensures(ParseFile::<'a, 'h, D, V, F, T>::reader, (parsing,), reader),
    ensures
        *old(reader) == old(parsing).file(),
        final(parsing).file() == *final(reader),
        final(parsing).opening() == old(parsing).opening(),
        final(parsing).slot() == old(parsing).slot(),
{
}

/// An event whose file could not be opened or parsed, or whose data could not be
/// locked, ends the batch; the data stays.
pub proof fn law_event_that_fails_ends_the_batch<'a, 'h, D, V, F, T, E>(
    opening: OpenFile<'h, D, V>,
    unopened: Option<LockData<'h, D, V, F>>,
    locking: LockData<'h, D, V, F>,
    unlocked: Option<ParseFile<'a, 'h, D, V, F, T>>,
    parsing: ParseFile<'a, 'h, D, V, F, T>,
    unparsed: Option<Telling<'a, 'h, D, V, T>>,
    error: E,
)
    requires
        call_ensures(
            OpenFile::<'h, D, V>::opened::<F, E>,
            (opening, Err::<F, E>(error)),
            unopened,
        ),
        call_ensures(
            LockData::<'h, D, V, F>::locked::<T, E>,
            (locking, Err::<&'a mut T, E>(error)),
            unlocked,
        ),
        call_ensures(
            ParseFile::<'a, 'h, D, V, F, T>::parsed::<E>,
            (parsing, Err::<T, E>(error)),
            unparsed,
        ),
    ensures
        unopened is None,
        unlocked is None,
        unparsed is None,
        *final(parsing.slot()) == *parsing.slot(),
{
}

/// Each callback hears exactly the events that a batch follows, each once and
/// in the order of the batch, and nothing is called that is not in the table.
pub proof fn law_reload_tells_each_once<V, T, C>(
    events: Seq<FileEvent<V>>,
    replies: Seq<Option<T>>,
    data: T,
    walk: Seq<(Seq<char>, C)>,
    table: Map<Seq<char>, C>,
    key: Seq<char>,
)
    requires
        covers(walk, table),
    ensures
        ({
            let end = followed_up_to(events, replies, 0);
            let made = reload_run(
                events,
                walk.len(),
                replies,
                reload_stage(events, 0),
                data,
            ).1;
            heard(made, walk, key) == (if table.contains_key(key) {
                origins(events).take(end as int)
            } else {
                Seq::empty()
            })
        }),
{
    law_reload_follows_prefix(events, walk.len(), replies, data);
    law_each_hears_every_event_once(
        origins(events),
        followed_up_to(events, replies, 0),
        walk,
        table,
        key,
    );
}

} // verus!
