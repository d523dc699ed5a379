//! What holds of the stores over whole histories.
use crate::callbacks::covers;
use crate::callbacks::keys_of;
use crate::callbacks::table_of;
use crate::create::creation_mode;
use crate::file::can_end;
use crate::file::file_after;
use crate::file::FileState;
use crate::file::WriteOutcome;
use crate::history::file_after_all;
use crate::history::memory_after;
use crate::history::settled;
use crate::history::shared_file;
use crate::history::shared_memory;
use crate::history::undisturbed;
use crate::history::Attempt;
use crate::history::SharedStep;
use vstd::prelude::*;

verus! {

/// A store's data is the value whose write last succeeded; while none has, it
/// is what it was.
pub proof fn law_memory_is_last_written<T>(data: T, attempts: Seq<Attempt<T>>)
    ensures
        (forall|i: int|
            0 <= i < attempts.len() ==> (#[trigger] attempts[i]).outcome != WriteOutcome::Written)
            ==> memory_after(data, attempts) == data,
        forall|i: int|
            0 <= i < attempts.len() && (#[trigger] attempts[i]).outcome == WriteOutcome::Written
                && (forall|j: int|
                i < j < attempts.len() ==> (#[trigger] attempts[j]).outcome
                    != WriteOutcome::Written) ==> memory_after(data, attempts)
                == attempts[i].value,
    decreases attempts.len(),
{
    if attempts.len() > 0 {
        let before = attempts.drop_last();
        law_memory_is_last_written(data, before);
        let last = attempts[attempts.len() - 1];
        assert forall|i: int|
            0 <= i < attempts.len() && (#[trigger] attempts[i]).outcome == WriteOutcome::Written
                && (forall|j: int|
                i < j < attempts.len() ==> (#[trigger] attempts[j]).outcome
                    != WriteOutcome::Written) implies memory_after(data, attempts)
            == attempts[i].value by {
            if i < attempts.len() - 1 {
                assert(last.outcome != WriteOutcome::Written);
                assert(before[i] == attempts[i]);
                assert forall|j: int| i < j < before.len() implies (#[trigger] before[j]).outcome
                    != WriteOutcome::Written by {
                    assert(before[j] == attempts[j]);
                }
            }
        }
        if forall|i: int|
            0 <= i < attempts.len() ==> (#[trigger] attempts[i]).outcome
                != WriteOutcome::Written {
            assert(last.outcome != WriteOutcome::Written);
            assert forall|i: int| 0 <= i < before.len() implies (#[trigger] before[i]).outcome
                != WriteOutcome::Written by {
                assert(before[i] == attempts[i]);
            }
        }
    }
}

/// From a file that holds the data, the file goes on to hold the data of the
/// store, but for the time between a value that could not be serialized into
/// the opened file and the next that could: there its content is not known.
pub proof fn law_file_in_step<T>(data: T, attempts: Seq<Attempt<T>>)
    ensures
        file_after_all(FileState::Holds(data), attempts) == (if settled(attempts) {
            FileState::Holds(memory_after(data, attempts))
        } else {
            FileState::Unknown
        }),
    decreases attempts.len(),
{
    if attempts.len() > 0 {
        let before = attempts.drop_last();
        let end = attempts.len() - 1;
        law_file_in_step(data, before);
        assert forall|i: int| 0 <= i < end implies #[trigger] before[i] == attempts[i] by {}
        if attempts[end].outcome == WriteOutcome::Written {
            assert forall|i: int|
                0 <= i < attempts.len() && (#[trigger] attempts[i]).outcome
                    == WriteOutcome::SerializeFailed implies exists|j: int|
                i < j < attempts.len() && (#[trigger] attempts[j]).outcome
                    == WriteOutcome::Written by {
                assert(i < end && attempts[end].outcome == WriteOutcome::Written);
            }
        } else if attempts[end].outcome == WriteOutcome::OpenFailed {
            if settled(before) {
                assert forall|i: int|
                    0 <= i < attempts.len() && (#[trigger] attempts[i]).outcome
                        == WriteOutcome::SerializeFailed implies exists|j: int|
                    i < j < attempts.len() && (#[trigger] attempts[j]).outcome
                        == WriteOutcome::Written by {
                    assert(before[i].outcome == WriteOutcome::SerializeFailed);
                    let j = choose|j: int|
                        i < j < before.len() && (#[trigger] before[j]).outcome
                            == WriteOutcome::Written;
                    assert(attempts[j].outcome == WriteOutcome::Written);
                }
            }
            if settled(attempts) {
                assert forall|i: int|
                    0 <= i < before.len() && (#[trigger] before[i]).outcome
                        == WriteOutcome::SerializeFailed implies exists|j: int|
                    i < j < before.len() && (#[trigger] before[j]).outcome
                        == WriteOutcome::Written by {
                    assert(attempts[i].outcome == WriteOutcome::SerializeFailed);
                    let j = choose|j: int|
                        i < j < attempts.len() && (#[trigger] attempts[j]).outcome
                            == WriteOutcome::Written;
                    assert(before[j].outcome == WriteOutcome::Written);
                }
            }
        } else {
            assert(attempts[end].outcome == WriteOutcome::SerializeFailed);
        }
    }
}

/// A store that was created and then changed any number of times has in memory
/// what its file holds, if no write has failed to serialize its value since the
/// last one that succeeded. Reading the file gives that value back where it
/// survives the way through JSON.
pub proof fn law_file_gives_back_memory<T>(
    found: FileState<T>,
    data: T,
    overwrite: bool,
    attempts: Seq<Attempt<T>>,
)
    requires
        can_end(creation_mode(overwrite), found, WriteOutcome::Written),
        settled(attempts),
    ensures
        file_after_all(file_after(found, data, WriteOutcome::Written), attempts)
            == FileState::Holds(memory_after(data, attempts)),
{
    law_file_in_step(data, attempts);
}

/// A store created without leave to overwrite fails on a file that is already
/// there and leaves that file as it was.
pub proof fn law_new_keeps_existing_file<T>(
    found: FileState<T>,
    data: T,
    outcome: WriteOutcome,
)
    requires
        !(found is Missing),
        can_end(creation_mode(false), found, outcome),
    ensures
        outcome == WriteOutcome::OpenFailed,
        file_after(found, data, outcome) == found,
{
}

/// A store created with leave to overwrite is stopped by no file that it
/// finds, and one created without such leave by no missing file.
pub proof fn law_new_can_create<T>(found: FileState<T>, outcome: WriteOutcome)
    ensures
        can_end(creation_mode(true), found, outcome),
        found is Missing ==> can_end(creation_mode(false), found, outcome),
{
}

/// An operation on a shared store in which nothing fails leaves file and data
/// in step, whatever they were before.
pub proof fn law_shared_in_step<T>(data: T, file: FileState<T>, step: SharedStep<T>)
    requires
        undisturbed(file, step),
    ensures
        shared_file(file, step) == FileState::Holds(shared_memory(data, step)),
{
}

/// A replacement whose write succeeded but whose lock was poisoned is in the
/// file and not in memory.
pub proof fn law_poisoned_replace_reaches_file_only<T>(data: T, file: FileState<T>, value: T)
    ensures
        ({
            let step = SharedStep::Replace(
                Attempt { value, outcome: WriteOutcome::Written },
                false,
            );
            &&& shared_memory(data, step) == data
            &&& shared_file(file, step) == FileState::Holds(value)
        }),
{
}

/// A replacement whose write failed leaves the shared data as it was, whether
/// or not the lock could be taken.
pub proof fn law_unwritten_replace_keeps_data<T>(data: T, attempt: Attempt<T>, locked: bool)
    requires
        attempt.outcome != WriteOutcome::Written,
    ensures
        shared_memory(data, SharedStep::Replace(attempt, locked)) == data,
{
}

/// An edit of the shared data stays in memory although its write failed.
pub proof fn law_unwritten_update_stays<T>(data: T, file: FileState<T>, attempt: Attempt<T>)
    requires
        attempt.outcome != WriteOutcome::Written,
    ensures
        shared_memory(data, SharedStep::Update(true, attempt)) == attempt.value,
        shared_file(file, SharedStep::Update(true, attempt)) == file || shared_file(
            file,
            SharedStep::Update(true, attempt),
        ) is Unknown,
{
}

/// Two updates that are both written leave in memory and in the file what one
/// update by both edits leaves. Of the edits it is known what they make of a
/// value, and of a copy that it is the value copied.
pub proof fn law_two_updates_as_one<
    T: Clone,
    F: FnOnce(&mut T),
    G: FnOnce(&mut T),
    H: FnOnce(&mut T),
>(
    first: F,
    second: G,
    both: H,
    first_effect: spec_fn(T) -> T,
    second_effect: spec_fn(T) -> T,
    data: T,
    file: FileState<T>,
    between: T,
    end: T,
    at_once: T,
)
    requires
        forall|a: T, b: T| #[trigger] cloned(a, b) ==> a == b,
        forall|m: &mut T| #[trigger]
            call_ensures(first, (m,), ()) ==> *final(m) == first_effect(*m),
        forall|m: &mut T| #[trigger]
            call_ensures(second, (m,), ()) ==> *final(m) == second_effect(*m),
        forall|m: &mut T| #[trigger]
            call_ensures(both, (m,), ()) ==> *final(m) == second_effect(first_effect(*m)),
        exists|copy: &mut T|
            cloned(data, *copy) && *final(copy) == between && #[trigger] call_ensures(
                first,
                (copy,),
                (),
            ),
        exists|copy: &mut T|
            cloned(between, *copy) && *final(copy) == end && #[trigger] call_ensures(
                second,
                (copy,),
                (),
            ),
        exists|copy: &mut T|
            cloned(data, *copy) && *final(copy) == at_once && #[trigger] call_ensures(
                both,
                (copy,),
                (),
            ),
    ensures
        at_once == end,
        ({
            let written = |value: T| Attempt { value, outcome: WriteOutcome::Written };
            let steps = seq![written(between), written(end)];
            let step = seq![written(at_once)];
            &&& memory_after(data, steps) == memory_after(data, step)
            &&& file_after_all(file, steps) == file_after_all(file, step)
        }),
{
    reveal_with_fuel(memory_after, 3);
    reveal_with_fuel(file_after_all, 3);
}

/// An update that assigns a value leaves in memory and in the file what
/// `replace` with that value leaves, however the write ends.
pub proof fn law_assigning_update_is_replace<T: Clone, F: FnOnce(&mut T)>(
    assign: F,
    value: T,
    data: T,
    file: FileState<T>,
    updated: T,
    outcome: WriteOutcome,
)
    requires
        forall|m: &mut T| #[trigger] call_ensures(assign, (m,), ()) ==> *final(m) == value,
        exists|copy: &mut T|
            cloned(data, *copy) && *final(copy) == updated && #[trigger] call_ensures(
                assign,
                (copy,),
                (),
            ),
    ensures
        updated == value,
        ({
            let update = seq![Attempt { value: updated, outcome }];
            let replace = seq![Attempt { value, outcome }];
            &&& memory_after(data, update) == memory_after(data, replace)
            &&& file_after_all(file, update) == file_after_all(file, replace)
        }),
{
}

/// Two updates of the shared data leave in memory what one update by both
/// edits leaves, however the writes end, and in the file too where the last
/// write succeeded. Of the edits it is known what they make of a value.
pub proof fn law_two_shared_updates_as_one<
    T,
    F: FnOnce(&mut T),
    G: FnOnce(&mut T),
    H: FnOnce(&mut T),
>(
    first: F,
    second: G,
    both: H,
    first_effect: spec_fn(T) -> T,
    second_effect: spec_fn(T) -> T,
    data: T,
    file: FileState<T>,
    between: Attempt<T>,
    end: Attempt<T>,
    at_once: Attempt<T>,
)
    requires
        forall|m: &mut T| #[trigger]
            call_ensures(first, (m,), ()) ==> *final(m) == first_effect(*m),
        forall|m: &mut T| #[trigger]
            call_ensures(second, (m,), ()) ==> *final(m) == second_effect(*m),
        forall|m: &mut T| #[trigger]
            call_ensures(both, (m,), ()) ==> *final(m) == second_effect(first_effect(*m)),
        exists|m: &mut T|
            *m == data && *final(m) == between.value && #[trigger] call_ensures(first, (m,), ()),
        exists|m: &mut T|
            *m == between.value && *final(m) == end.value && #[trigger] call_ensures(
                second,
                (m,),
                (),
            ),
        exists|m: &mut T|
            *m == data && *final(m) == at_once.value && #[trigger] call_ensures(both, (m,), ()),
    ensures
        at_once.value == end.value,
        ({
            let one = SharedStep::Update(true, between);
            let two = SharedStep::Update(true, end);
            let step = SharedStep::Update(true, at_once);
            &&& shared_memory(shared_memory(data, one), two) == shared_memory(data, step)
            &&& end.outcome == WriteOutcome::Written && at_once.outcome == WriteOutcome::Written
                ==> shared_file(shared_file(file, one), two) == shared_file(file, step)
        }),
{
}

/// An update that assigns a value to the shared data leaves in the file what
/// `replace` with that value leaves, however the write ends, and in memory too
/// where the write succeeded.
pub proof fn law_assigning_shared_update_is_replace<T, F: FnOnce(&mut T)>(
    assign: F,
    value: T,
    data: T,
    file: FileState<T>,
    updated: T,
    outcome: WriteOutcome,
)
    requires
        forall|m: &mut T| #[trigger] call_ensures(assign, (m,), ()) ==> *final(m) == value,
        exists|m: &mut T|
            *m == data && *final(m) == updated && #[trigger] call_ensures(assign, (m,), ()),
    ensures
        updated == value,
        ({
            let update = SharedStep::Update(true, Attempt { value: updated, outcome });
            let replace = SharedStep::Replace(Attempt { value, outcome }, true);
            &&& shared_file(file, update) == shared_file(file, replace)
            &&& outcome == WriteOutcome::Written ==> shared_memory(data, update) == shared_memory(
                data,
                replace,
            )
        }),
{
}

/// A callback takes the place of an earlier one under the same key.
pub proof fn law_set_replaces<C>(table: Map<Seq<char>, C>, key: Seq<char>, first: C, second: C)
    ensures
        table.insert(key, first).insert(key, second) == table.insert(key, second),
{
    assert(table.insert(key, first).insert(key, second) =~= table.insert(key, second));
}

/// Removing undoes setting under a key that was free, and changes nothing
/// where there is nothing to remove.
pub proof fn law_remove_undoes_set<C>(table: Map<Seq<char>, C>, key: Seq<char>, callback: C)
    ensures
        table.insert(key, callback).remove(key) == table.remove(key),
        !table.contains_key(key) ==> table.insert(key, callback).remove(key) == table,
        table.remove(key).remove(key) == table.remove(key),
        !table.contains_key(key) ==> table.remove(key) == table,
{
    assert(table.insert(key, callback).remove(key) =~= table.remove(key));
    assert(table.remove(key).remove(key) =~= table.remove(key));
    if !table.contains_key(key) {
        assert(table.remove(key) =~= table);
    }
}

/// Setting and removing under one key leave the callbacks under other keys.
pub proof fn law_other_keys_stay<C>(
    table: Map<Seq<char>, C>,
    key: Seq<char>,
    callback: C,
    other: Seq<char>,
)
    requires
        other != key,
    ensures
        table.insert(key, callback).contains_key(other) == table.contains_key(other),
        table.remove(key).contains_key(other) == table.contains_key(other),
        table.contains_key(other) ==> table.insert(key, callback)[other] == table[other]
            && table.remove(key)[other] == table[other],
{
}

/// A listener that goes through a table meets every callback under its key,
/// each exactly once.
pub proof fn law_walk_meets_each_once<C>(
    walk: Seq<(Seq<char>, C)>,
    table: Map<Seq<char>, C>,
)
    requires
        covers(walk, table),
    ensures
        walk.len() == table.dom().len(),
        forall|i: int|
            0 <= i < walk.len() ==> table.contains_key((#[trigger] walk[i]).0)
                && table[walk[i].0] == walk[i].1,
        forall|key: Seq<char>| #[trigger]
            table.contains_key(key) ==> exists|i: int|
                0 <= i < walk.len() && (#[trigger] walk[i]).0 == key,
        forall|i: int, j: int|
            0 <= i < j < walk.len() ==> (#[trigger] walk[i]).0 != (#[trigger] walk[j]).0,
{
    let keys = keys_of(walk);
    keys.unique_seq_to_set();
    assert(table.dom() =~= keys.to_set());
    assert forall|i: int| 0 <= i < walk.len() implies table.contains_key((#[trigger] walk[i]).0)
        && table[walk[i].0] == walk[i].1 by {
        assert(keys[i] == walk[i].0);
        assert(keys.contains(walk[i].0));
        assert(keys[keys.index_of(walk[i].0)] == walk[i].0);
    }
    assert forall|key: Seq<char>| #[trigger] table.contains_key(key) implies exists|i: int|
        0 <= i < walk.len() && (#[trigger] walk[i]).0 == key by {
        let i = keys.index_of(key);
        assert(keys.contains(key));
        assert(keys[i] == walk[i].0);
    }
    assert forall|i: int, j: int| 0 <= i < j < walk.len() implies (#[trigger] walk[i]).0 != (
    #[trigger] walk[j]).0 by {
        assert(keys[i] == walk[i].0 && keys[j] == walk[j].0);
    }
}

} // verus!
