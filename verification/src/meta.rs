//! Plain records for what a metadata fetch reports.

use vstd::prelude::*;

verus! {

/// The type of a filesystem object, as a non-following stat reports it.
#[derive(Debug, Clone, Copy, PartialEq, Eq, Structural)]
pub enum FileKind {
    /// A regular file; its length is counted.
    Regular,
    /// A directory; its children are expanded.
    Directory,
    /// A symbolic link; skipped or followed, depending on the options.
    Symlink,
    /// Anything else (socket, pipe, device); contributes nothing.
    Other,
}

/// What one successful metadata fetch reports of a path: everything the
/// traversal reads of a filesystem object, as plain values.
#[derive(Debug, Clone, Copy, PartialEq, Eq, Structural)]
pub struct FileMeta {
    /// The object's type.
    pub kind: FileKind,
    /// Length in bytes.
    pub len: u64,
    /// Identifier of the device holding the object.
    pub dev: u64,
    /// Inode number on that device.
    pub ino: u64,
    /// Number of hard links to the inode.
    pub nlink: u64,
}

/// Classification of a failed filesystem operation, as far as the traversal's
/// retry policy distinguishes failures.
#[derive(Debug, Clone, Copy, PartialEq, Eq, Structural)]
pub enum FaultKind {
    /// The entry vanished between listing and stat: a benign race.
    NotFound,
    /// A transient shortage (descriptors, memory): worth retrying.
    ResourceExhausted,
    /// Any other failure: fatal to the whole traversal.
    Other,
}

} // verus!
