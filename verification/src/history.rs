//! Models of what the operations of a store do to its data and its file.
use crate::file::file_after;
use crate::file::FileState;
use crate::file::WriteOutcome;
use crate::pending::committed;
use vstd::prelude::*;

verus! {

/// One attempt to put a value in the place of a store's data, by whichever
/// operation, and how its write ended.
pub struct Attempt<T> {
    pub value: T,
    pub outcome: WriteOutcome,
}

/// The data of a store after a history of attempts.
pub open spec fn memory_after<T>(data: T, attempts: Seq<Attempt<T>>) -> T
    decreases attempts.len(),
{
    if attempts.len() == 0 {
        data
    } else {
        committed(
            memory_after(data, attempts.drop_last()),
            attempts.last().value,
            attempts.last().outcome == WriteOutcome::Written,
        )
    }
}

/// The file of a store after a history of attempts.
pub open spec fn file_after_all<T>(file: FileState<T>, attempts: Seq<Attempt<T>>) -> FileState<T>
    decreases attempts.len(),
{
    if attempts.len() == 0 {
        file
    } else {
        file_after(
            file_after_all(file, attempts.drop_last()),
            attempts.last().value,
            attempts.last().outcome,
        )
    }
}

/// Whether no write has failed to serialize its value since the last one that
/// succeeded, so that it is known what the file holds.
pub open spec fn settled<T>(attempts: Seq<Attempt<T>>) -> bool {
    forall|i: int|
        0 <= i < attempts.len() && (#[trigger] attempts[i]).outcome
            == WriteOutcome::SerializeFailed ==> exists|j: int|
            i < j < attempts.len() && (#[trigger] attempts[j]).outcome == WriteOutcome::Written
}

/// One operation on a shared store, with the outcomes that decide it.
pub enum SharedStep<T> {
    /// The data was to be replaced: the write, and whether the lock could then
    /// be taken.
    Replace(Attempt<T>, bool),
    /// The data was to be edited into the given value: whether the lock could
    /// be taken, and the write.
    Update(bool, Attempt<T>),
    /// The listener read the given value from the file.
    Reload(T),
}

/// The shared data after one operation. A replacement reaches it only after a
/// successful write; an update changes it before the write.
pub open spec fn shared_memory<T>(data: T, step: SharedStep<T>) -> T {
    match step {
        SharedStep::Replace(attempt, locked) => committed(
            data,
            attempt.value,
            attempt.outcome == WriteOutcome::Written && locked,
        ),
        SharedStep::Update(locked, attempt) => committed(data, attempt.value, locked),
        SharedStep::Reload(value) => value,
    }
}

/// The file after one operation.
pub open spec fn shared_file<T>(file: FileState<T>, step: SharedStep<T>) -> FileState<T> {
    match step {
        SharedStep::Replace(attempt, _) => file_after(file, attempt.value, attempt.outcome),
        SharedStep::Update(locked, attempt) => if locked {
            file_after(file, attempt.value, attempt.outcome)
        } else {
            file
        },
        SharedStep::Reload(_) => file,
    }
}

/// Whether an operation can happen on a file in this state, and nothing in it
/// failed: a reload reads what the file holds, for a value that survives the way
/// through JSON.
pub open spec fn undisturbed<T>(file: FileState<T>, step: SharedStep<T>) -> bool {
    match step {
        SharedStep::Replace(attempt, locked) => attempt.outcome == WriteOutcome::Written && locked,
        SharedStep::Update(locked, attempt) => locked && attempt.outcome == WriteOutcome::Written,
        SharedStep::Reload(value) => file == FileState::Holds(value),
    }
}

} // verus!
