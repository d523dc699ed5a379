//! The table of callbacks that a store's listener calls.
use crate::turn::Turn;
use vstd::prelude::*;

verus! {

/// Callbacks by key, at most one under each key.
///
/// The view is the table as a map. `walk` is the order in which a listener
/// goes through it.
pub struct Callbacks<C> {
    entries: Vec<(String, C)>,
}

/// The entries of a table, keys as character sequences.
pub open spec fn entries_of<C>(entries: Seq<(String, C)>) -> Seq<(Seq<char>, C)> {
    entries.map_values(|e: (String, C)| (e.0@, e.1))
}

/// The keys of a sequence of entries.
pub open spec fn keys_of<C>(walk: Seq<(Seq<char>, C)>) -> Seq<Seq<char>> {
    walk.map_values(|e: (Seq<char>, C)| e.0)
}

/// The map that a sequence of entries stands for.
pub open spec fn table_of<C>(walk: Seq<(Seq<char>, C)>) -> Map<Seq<char>, C> {
    Map::new(
        |key: Seq<char>| keys_of(walk).contains(key),
        |key: Seq<char>| walk[keys_of(walk).index_of(key)].1,
    )
}

/// A walk that meets every entry of `table`, each once.
pub open spec fn covers<C>(walk: Seq<(Seq<char>, C)>, table: Map<Seq<char>, C>) -> bool {
    &&& keys_of(walk).no_duplicates()
    &&& table == table_of(walk)
}

/// In a walk without repeated keys, an entry is what the table has at its key.
proof fn lemma_entry<C>(walk: Seq<(Seq<char>, C)>, i: int)
    requires
        keys_of(walk).no_duplicates(),
        0 <= i < walk.len(),
    ensures
        keys_of(walk).index_of(walk[i].0) == i,
        table_of(walk).contains_key(walk[i].0),
        table_of(walk)[walk[i].0] == walk[i].1,
{
    let keys = keys_of(walk);
    assert(keys[i] == walk[i].0);
    assert(keys.contains(walk[i].0));
    let at = keys.index_of(walk[i].0);
    assert(keys[at] == walk[i].0);
}

/// A key of the table is met on the walk.
proof fn lemma_key<C>(walk: Seq<(Seq<char>, C)>, key: Seq<char>) -> (i: int)
    requires
        keys_of(walk).no_duplicates(),
        table_of(walk).contains_key(key),
    ensures
        0 <= i < walk.len(),
        walk[i].0 == key,
        walk[i].1 == table_of(walk)[key],
{
    let i = keys_of(walk).index_of(key);
    assert(keys_of(walk).contains(key));
    assert(keys_of(walk)[i] == key);
    i
}

/// A walk without repeated keys that meets just the entries of `table` stands
/// for it.
proof fn lemma_same_table<C>(walk: Seq<(Seq<char>, C)>, table: Map<Seq<char>, C>)
    requires
        keys_of(walk).no_duplicates(),
        forall|i: int|
            0 <= i < walk.len() ==> table.contains_key((#[trigger] walk[i]).0)
                && table[walk[i].0] == walk[i].1,
        forall|key: Seq<char>| #[trigger]
            table.contains_key(key) ==> exists|i: int|
                0 <= i < walk.len() && (#[trigger] walk[i]).0 == key,
    ensures
        table_of(walk) == table,
{
    let made = table_of(walk);
    assert forall|key: Seq<char>| made.contains_key(key) == table.contains_key(key) && (
    made.contains_key(key) ==> made[key] == table[key]) by {
        if made.contains_key(key) {
            let i = lemma_key(walk, key);
            assert(walk[i].0 == key);
        }
        if table.contains_key(key) {
            let i = choose|i: int| 0 <= i < walk.len() && (#[trigger] walk[i]).0 == key;
            lemma_entry(walk, i);
        }
    }
    assert(made =~= table);
}

/// Exchanging the callback of an entry sets it under the entry's key.
proof fn lemma_update<C>(walk: Seq<(Seq<char>, C)>, i: int, callback: C)
    requires
        keys_of(walk).no_duplicates(),
        0 <= i < walk.len(),
    ensures
        keys_of(walk.update(i, (walk[i].0, callback))).no_duplicates(),
        table_of(walk.update(i, (walk[i].0, callback))) == table_of(walk).insert(
            walk[i].0,
            callback,
        ),
{
    let next = walk.update(i, (walk[i].0, callback));
    let table = table_of(walk).insert(walk[i].0, callback);
    assert(keys_of(next) =~= keys_of(walk));
    assert forall|j: int| 0 <= j < next.len() implies table.contains_key((#[trigger] next[j]).0)
        && table[next[j].0] == next[j].1 by {
        lemma_entry(walk, j);
        assert(keys_of(walk)[i] == walk[i].0 && keys_of(walk)[j] == walk[j].0);
    }
    assert forall|key: Seq<char>| #[trigger] table.contains_key(key) implies exists|j: int|
        0 <= j < next.len() && (#[trigger] next[j]).0 == key by {
        if key == walk[i].0 {
            assert(next[i].0 == key);
        } else {
            let j = lemma_key(walk, key);
            assert(next[j].0 == key);
        }
    }
    lemma_same_table(next, table);
}

/// A new entry sets its callback under a key that was free.
proof fn lemma_push<C>(walk: Seq<(Seq<char>, C)>, key: Seq<char>, callback: C)
    requires
        keys_of(walk).no_duplicates(),
        !keys_of(walk).contains(key),
    ensures
        keys_of(walk.push((key, callback))).no_duplicates(),
        table_of(walk.push((key, callback))) == table_of(walk).insert(key, callback),
{
    let next = walk.push((key, callback));
    let table = table_of(walk).insert(key, callback);
    assert(keys_of(next) =~= keys_of(walk).push(key));
    assert forall|j: int| 0 <= j < next.len() implies table.contains_key((#[trigger] next[j]).0)
        && table[next[j].0] == next[j].1 by {
        if j < walk.len() {
            lemma_entry(walk, j);
            assert(keys_of(walk)[j] == walk[j].0);
        }
    }
    assert forall|k: Seq<char>| #[trigger] table.contains_key(k) implies exists|j: int|
        0 <= j < next.len() && (#[trigger] next[j]).0 == k by {
        if k == key {
            assert(next[walk.len() as int].0 == k);
        } else {
            let j = lemma_key(walk, k);
            assert(next[j].0 == k);
        }
    }
    lemma_same_table(next, table);
}

/// Taking an entry out removes its key.
proof fn lemma_remove<C>(walk: Seq<(Seq<char>, C)>, i: int)
    requires
        keys_of(walk).no_duplicates(),
        0 <= i < walk.len(),
    ensures
        keys_of(walk.remove(i)).no_duplicates(),
        table_of(walk.remove(i)) == table_of(walk).remove(walk[i].0),
{
    let next = walk.remove(i);
    let table = table_of(walk).remove(walk[i].0);
    assert(keys_of(next) =~= keys_of(walk).remove(i));
    assert forall|j: int| 0 <= j < next.len() implies table.contains_key((#[trigger] next[j]).0)
        && table[next[j].0] == next[j].1 by {
        let from = if j < i { j } else { j + 1 };
        assert(next[j] == walk[from]);
        lemma_entry(walk, from);
        assert(keys_of(walk)[i] == walk[i].0 && keys_of(walk)[from] == walk[from].0);
    }
    assert forall|k: Seq<char>| #[trigger] table.contains_key(k) implies exists|j: int|
        0 <= j < next.len() && (#[trigger] next[j]).0 == k by {
        let from = lemma_key(walk, k);
        let j = if from < i { from } else { from - 1 };
        assert(next[j] == walk[from]);
    }
    lemma_same_table(next, table);
}

impl<C> View for Callbacks<C> {
    type V = Map<Seq<char>, C>;

    closed spec fn view(&self) -> Map<Seq<char>, C> {
        table_of(self.walk())
    }
}

impl<C> Callbacks<C> {
    /// The entries in the order in which a listener goes through them.
    pub closed spec fn walk(self) -> Seq<(Seq<char>, C)> {
        entries_of(self.entries@)
    }

    #[verifier::type_invariant]
    spec fn keys_differ(self) -> bool {
        keys_of(self.walk()).no_duplicates()
    }

    /// A table without callbacks.
    pub fn new() -> (table: Self)
        ensures
            table@ == Map::<Seq<char>, C>::empty(),
            table.walk() == Seq::<(Seq<char>, C)>::empty(),
    {
        let table = Callbacks { entries: Vec::new() };
        assert(table.walk() =~= Seq::<(Seq<char>, C)>::empty());
        assert(table@ =~= Map::<Seq<char>, C>::empty());
        table
    }

    /// Where `key` stands in the table, if it does.
    fn position(&self, key: &String) -> (at: Option<usize>)
        ensures
            match at {
                Some(i) => i < self.walk().len() && keys_of(self.walk())[i as int] == key@,
                None => !keys_of(self.walk()).contains(key@),
            },
    {
        let mut i: usize = 0;
        while i < self.entries.len()
            invariant
                i <= self.entries.len(),
                forall|j: int| 0 <= j < i ==> keys_of(self.walk())[j] != key@,
            decreases self.entries.len() - i,
        {
            if self.entries[i].0 == *key {
                return Some(i);
            }
            i += 1;
        }
        None
    }

    /// Puts `callback` under `key`, in place of an earlier one under that key.
    pub fn set(&mut self, key: &str, callback: C)
        ensures
            final(self)@ == old(self)@.insert(key@, callback),
    {
        proof {
            use_type_invariant(&*self);
        }
        let key = key.to_owned();
        let at = self.position(&key);
        let ghost walk = self.walk();
        let mut entries: Vec<(String, C)> = Vec::new();
        std::mem::swap(&mut entries, &mut self.entries);
        match at {
            Some(i) => {
                proof {
                    assert(keys_of(walk)[i as int] == walk[i as int].0);
                    lemma_update(walk, i as int, callback);
                }
                entries[i] = (key, callback);
                assert(entries_of(entries@) =~= walk.update(i as int, (key@, callback)));
            },
            None => {
                proof {
                    lemma_push(walk, key@, callback);
                }
                entries.push((key, callback));
                assert(entries_of(entries@) =~= walk.push((key@, callback)));
            },
        }
        self.entries = entries;
    }

    /// Takes out the callback under `key`; without one, nothing changes.
    pub fn remove(&mut self, key: &str)
        ensures
            final(self)@ == old(self)@.remove(key@),
    {
        proof {
            use_type_invariant(&*self);
        }
        let key = key.to_owned();
        let ghost walk = self.walk();
        match self.position(&key) {
            Some(i) => {
                proof {
                    assert(keys_of(walk)[i as int] == walk[i as int].0);
                    lemma_remove(walk, i as int);
                }
                let mut entries: Vec<(String, C)> = Vec::new();
                std::mem::swap(&mut entries, &mut self.entries);
                let _ = entries.remove(i);
                assert(entries_of(entries@) =~= walk.remove(i as int));
                self.entries = entries;
            },
            None => {
                assert(self@ =~= old(self)@.remove(key@));
            },
        }
    }

    /// How many callbacks there are.
    pub fn len(&self) -> (n: usize)
        ensures
            n == self.walk().len(),
            covers(self.walk(), self@),
    {
        proof {
            use_type_invariant(self);
        }
        self.entries.len()
    }
}

/// The calls made on the callbacks of a table: what a callback was called on, and
/// its place in the walk. Only a call makes an entry, and every call makes one.
pub struct Log<V> {
    made: Ghost<Seq<(V, int)>>,
}

impl<V> Log<V> {
    /// The calls made so far, in order.
    pub closed spec fn made(self) -> Seq<(V, int)> {
        self.made@
    }
}

/// What can be called on an event once, with an entry in the log.
///
/// The callback is given up by the call, so that one call is all that can be made
/// of it.
pub trait Hears<V>: Sized {
    /// Whether it can be called on `event`.
    spec fn can_hear(self, event: &V) -> bool;

    /// Whether it can have come back from a call on `event`.
    spec fn came_back(self, event: &V) -> bool;

    /// Makes the call on `event`, and enters it under `place`.
    fn hear(self, event: &V, place: Ghost<int>, log: &mut Log<V>)
        requires
            self.can_hear(event),
        ensures
            final(log).made() == old(log).made().push((*event, place@)),
            self.came_back(event),
    ;
}

impl<V, F: FnOnce(&V)> Hears<V> for F {
    open spec fn can_hear(self, event: &V) -> bool {
        call_requires(self, (event,))
    }

    open spec fn came_back(self, event: &V) -> bool {
        call_ensures(self, (event,), ())
    }

    fn hear(self, event: &V, place: Ghost<int>, log: &mut Log<V>) {
        self(event);
        log.made = Ghost(log.made@.push((*event, place@)));
    }
}

/// The one way to call the callbacks of a table. It keeps the log of the calls.
pub struct Caller<'a, V, C> {
    table: &'a Callbacks<C>,
    log: Log<V>,
}

impl<'a, V, C> Caller<'a, V, C> {
    /// The table whose callbacks are called.
    pub closed spec fn table(self) -> Callbacks<C> {
        *self.table
    }

    /// The calls made so far, in order.
    pub closed spec fn made(self) -> Seq<(V, int)> {
        self.log.made()
    }

    /// Opens a log of calls on the callbacks of `table`.
    pub fn new(table: &'a Callbacks<C>) -> (caller: Self)
        ensures
            caller.table() == *table,
            caller.made() == Seq::<(V, int)>::empty(),
            covers(table.walk(), table@),
    {
        proof {
            use_type_invariant(table);
        }
        Caller { table, log: Log { made: Ghost(Seq::empty()) } }
    }

    /// How many callbacks the table has.
    pub fn count(&self) -> (n: usize)
        ensures
            n == self.table().walk().len(),
            covers(self.table().walk(), self.table()@),
    {
        self.table.len()
    }

    /// The turn of the callback at place `i` of the walk.
    pub fn turn(&mut self, i: usize) -> (turn: Turn<'_, 'a, V, C>)
        requires
            i < old(self).table().walk().len(),
        ensures
            turn.callback() == old(self).table().walk()[i as int].1,
            turn.place() == i,
            turn.log().made() == old(self).made(),
            final(self).made() == final(turn.log()).made(),
            final(self).table() == old(self).table(),
    {
        Turn::new(&self.table.entries[i].1, Ghost(i as int), &mut self.log)
    }
}

/// A callback that is to be put into the table behind the handle `K`, once the
/// table is locked.
pub struct SetCallback<'a, K, C> {
    table: &'a K,
    key: &'a str,
    callback: C,
}

/// A key that is to be taken out of the table behind the handle `K`, once the
/// table is locked.
pub struct RemoveCallback<'a, K> {
    table: &'a K,
    key: &'a str,
}

impl<'a, K, C> SetCallback<'a, K, C> {
    /// The handle on the table.
    pub closed spec fn table(self) -> K {
        *self.table
    }

    /// The key.
    pub closed spec fn key(self) -> Seq<char> {
        self.key@
    }

    /// The callback.
    pub closed spec fn callback(self) -> C {
        self.callback
    }

    pub(crate) fn new(table: &'a K, key: &'a str, callback: C) -> (step: Self)
        ensures
            step.table() == *table,
            step.key() == key@,
            step.callback() == callback,
    {
        SetCallback { table, key, callback }
    }

    /// The handle on the table to lock.
    pub fn handle(&self) -> (table: &'a K)
        ensures
            *table == self.table(),
    {
        self.table
    }

    /// Takes the outcome of locking the table. The callback takes its place
    /// under the key; a lock that could not be taken is reported.
    pub fn locked(self, table: Result<&mut Callbacks<C>, String>) -> (res: Result<(), String>)
        ensures
            table matches Err(message) ==> res == Err::<(), String>(message),
            table matches Ok(t) ==> res is Ok && final(t)@ == t@.insert(
                self.key(),
                self.callback(),
            ),
    {
        match table {
            Ok(table) => {
                table.set(self.key, self.callback);
                Ok(())
            },
            Err(message) => Err(message),
        }
    }
}

impl<'a, K> RemoveCallback<'a, K> {
    /// The handle on the table.
    pub closed spec fn table(self) -> K {
        *self.table
    }

    /// The key.
    pub closed spec fn key(self) -> Seq<char> {
        self.key@
    }

    pub(crate) fn new(table: &'a K, key: &'a str) -> (step: Self)
        ensures
            step.table() == *table,
            step.key() == key@,
    {
        RemoveCallback { table, key }
    }

    /// The handle on the table to lock.
    pub fn handle(&self) -> (table: &'a K)
        ensures
            *table == self.table(),
    {
        self.table
    }

    /// Takes the outcome of locking the table. A callback under the key is
    /// taken out; a lock that could not be taken is reported.
    pub fn locked<C>(self, table: Result<&mut Callbacks<C>, String>) -> (res: Result<(), String>)
        ensures
            table matches Err(message) ==> res == Err::<(), String>(message),
            table matches Ok(t) ==> res is Ok && final(t)@ == t@.remove(self.key()),
    {
        match table {
            Ok(table) => {
                table.remove(self.key);
                Ok(())
            },
            Err(message) => Err(message),
        }
    }
}

} // verus!
