//! How a file is to be opened for a step.

use vstd::prelude::*;

verus! {

/// The options with which the caller opens a file.
#[derive(Clone, Copy, Debug, PartialEq, Eq, Structural)]
pub struct OpenMode {
    /// The file is read.
    pub read: bool,
    /// The file is written.
    pub write: bool,
    /// The file is created if it does not exist.
    pub create: bool,
    /// What the file held is discarded.
    pub truncate: bool,
}

impl OpenMode {
    /// Opens an existing file for reading and nothing else.
    pub open spec fn read_only() -> OpenMode {
        OpenMode { read: true, write: false, create: false, truncate: false }
    }

    /// Opens a file for writing: creates it if need be, and empties it.
    pub open spec fn create_truncate() -> OpenMode {
        OpenMode { read: false, write: true, create: true, truncate: true }
    }

    /// Whether opening a file in this mode can change the file system.
    pub open spec fn mutates(self) -> bool {
        self.write || self.create || self.truncate
    }

    /// Whether opening a file in this mode can change the file system.
    pub fn is_mutating(&self) -> (mutating: bool)
        ensures
            mutating == self.mutates(),
    {
        self.write || self.create || self.truncate
    }
}

} // verus!
