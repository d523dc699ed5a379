//! What is asked of the file system: which file, opened how, holding what.
use std::path::PathBuf;
use vstd::prelude::*;

verus! {

/// `std::path::PathBuf` as an opaque value. Paths are carried from the caller
/// to the file system and never looked into, so nothing is claimed of them.
#[verifier::external_type_specification]
#[verifier::external_body]
pub struct ExPathBuf(std::path::PathBuf);

/// How a file is opened.
#[derive(Debug, Clone, Copy, PartialEq, Eq, Structural)]
pub enum OpenMode {
    /// For writing: created when missing, emptied when present.
    Truncate,
    /// For writing: created, and refused when the file is already there.
    CreateNew,
    /// For reading: refused when the file is missing.
    Read,
}

/// The options to hand to the file system, in the vocabulary of
/// `std::fs::OpenOptions`.
#[derive(Debug, Clone, Copy, PartialEq, Eq, Structural)]
pub struct OpenFlags {
    pub read: bool,
    pub write: bool,
    pub create: bool,
    pub truncate: bool,
    pub create_new: bool,
}

/// What a store's file holds, as far as the outcomes of the calls made on it
/// tell.
pub enum FileState<T> {
    /// There is no such file.
    Missing,
    /// The file holds what serializing this value wrote. Parsing it gives the
    /// value back where the value survives the way through JSON.
    Holds(T),
    /// There is a file, and its content is not known.
    Unknown,
}

/// How one attempt to write a value into a file ended.
#[derive(Debug, Clone, Copy, PartialEq, Eq, Structural)]
pub enum WriteOutcome {
    OpenFailed,
    SerializeFailed,
    Written,
}

impl OpenMode {
    /// The flags that stand for this mode.
    pub open spec fn spec_flags(self) -> OpenFlags {
        OpenFlags {
            read: self != OpenMode::Truncate,
            write: self != OpenMode::Read,
            create: self == OpenMode::Truncate,
            truncate: self == OpenMode::Truncate,
            create_new: self == OpenMode::CreateNew,
        }
    }

    /// The flags that stand for this mode.
    pub fn flags(self) -> (flags: OpenFlags)
        ensures
            flags == self.spec_flags(),
    {
        match self {
            OpenMode::Truncate => OpenFlags {
                read: false,
                write: true,
                create: true,
                truncate: true,
                create_new: false,
            },
            OpenMode::CreateNew => OpenFlags {
                read: true,
                write: true,
                create: false,
                truncate: false,
                create_new: true,
            },
            OpenMode::Read => OpenFlags {
                read: true,
                write: false,
                create: false,
                truncate: false,
                create_new: false,
            },
        }
    }
}

impl OpenFlags {
    /// Whether the flags themselves let a file in state `file` be opened.
    pub open spec fn permit<T>(self, file: FileState<T>) -> bool {
        if self.create_new {
            file is Missing
        } else {
            self.create || !(file is Missing)
        }
    }
}

/// The file after one attempt to write `value` into it. What a serialization
/// that failed has left in the file is not known: nothing, a part of the value,
/// or something that parses.
pub open spec fn file_after<T>(
    file: FileState<T>,
    value: T,
    outcome: WriteOutcome,
) -> FileState<T> {
    match outcome {
        WriteOutcome::OpenFailed => file,
        WriteOutcome::SerializeFailed => FileState::Unknown,
        WriteOutcome::Written => FileState::Holds(value),
    }
}

/// Whether an attempt made in `mode` on a file in state `file` can end so:
/// past the opening it gets only where the mode permits the file.
pub open spec fn can_end<T>(mode: OpenMode, file: FileState<T>, outcome: WriteOutcome) -> bool {
    outcome == WriteOutcome::OpenFailed || mode.spec_flags().permit(file)
}

/// One value to be written into one file. The file is opened first; only then
/// is the value handed out to be serialized into it.
pub struct FileWrite<'a, T> {
    path: &'a PathBuf,
    mode: OpenMode,
    data: &'a T,
}

impl<'a, T> FileWrite<'a, T> {
    /// The file to open.
    pub closed spec fn target(self) -> PathBuf {
        *self.path
    }

    /// How to open it.
    pub closed spec fn mode(self) -> OpenMode {
        self.mode
    }

    /// The value that the file is to hold.
    pub closed spec fn value(self) -> T {
        *self.data
    }

    pub(crate) fn new(path: &'a PathBuf, mode: OpenMode, data: &'a T) -> (write: Self)
        ensures
            write.target() == *path,
            write.mode() == mode,
            write.value() == *data,
    {
        FileWrite { path, mode, data }
    }

    /// The file to open.
    pub fn path(&self) -> (path: &'a PathBuf)
        ensures
            *path == self.target(),
    {
        self.path
    }

    /// The options to open it with.
    pub fn flags(&self) -> (flags: OpenFlags)
        ensures
            flags == self.mode().spec_flags(),
    {
        self.mode.flags()
    }

    /// Takes the outcome of opening the file. An open file comes back together
    /// with the value to serialize into it; a failure ends the write.
    pub fn opened<F, E>(self, file: Result<F, E>) -> (next: Result<(F, &'a T), E>)
        ensures
            file matches Ok(f) ==> next == Ok::<(F, &'a T), E>((f, &self.value())),
            file matches Err(e) ==> next == Err::<(F, &'a T), E>(e),
    {
        match file {
            Ok(f) => Ok((f, self.data)),
            Err(e) => Err(e),
        }
    }
}

/// Writes `data` over whatever the file at `path` holds, creating the file if
/// it does not exist.
pub fn write_data_to_file<'a, T>(data: &'a T, path: &'a PathBuf) -> (write: FileWrite<'a, T>)
    ensures
        write.target() == *path,
        write.mode() == OpenMode::Truncate,
        write.value() == *data,
{
    FileWrite::new(path, OpenMode::Truncate, data)
}

} // verus!
