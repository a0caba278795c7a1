//! The records that the notification subsystem delivers.

use vstd::prelude::*;

verus! {

/// Flag of a record: a file that was open for writing was closed.
pub const IN_CLOSE_WRITE: u32 = 0x0000_0008;

/// Flag of a record: an entry was moved into the watched directory.
pub const IN_MOVED_TO: u32 = 0x0000_0080;

/// Flag of a record: an entry was created in the watched directory.
pub const IN_CREATE: u32 = 0x0000_0100;

/// Flag of a record: the entry is a directory.
pub const IN_ISDIR: u32 = 0x4000_0000;

/// The mask with which every directory is watched: creation, moving in,
/// and closing after writing.
pub const WATCH_EVENTS: u32 = IN_CREATE | IN_MOVED_TO | IN_CLOSE_WRITE;

/// The token that stands for one watched directory. The notification
/// subsystem hands it out; it means nothing beyond that.
#[derive(Clone, Copy, Debug, PartialEq, Eq, Structural)]
pub struct WatchHandle {
    /// The number that the subsystem gave.
    pub id: i32,
}

/// One notification: something happened to the entry `name` of the
/// directory watched under `wd`.
#[derive(Clone, Debug, PartialEq, Eq)]
pub struct RawEvent {
    /// The watch that the record came from.
    pub wd: WatchHandle,
    /// What happened, and to what kind of entry: a set of flags.
    pub mask: u32,
    /// The name of the entry inside its directory.
    pub name: String,
}

/// Whether `mask` holds a bit of `flag`.
pub open spec fn has_flag(mask: u32, flag: u32) -> bool {
    mask & flag != 0
}

/// Whether `mask` tells of a directory that appeared: created in the
/// watched directory or moved into it.
pub open spec fn announces_directory(mask: u32) -> bool {
    has_flag(mask, IN_ISDIR) && (has_flag(mask, IN_CREATE) || has_flag(mask, IN_MOVED_TO))
}

/// Whether `mask` tells of a file that is complete: closed after writing,
/// or moved into the watched directory.
pub open spec fn announces_file(mask: u32) -> bool {
    !has_flag(mask, IN_ISDIR) && (has_flag(mask, IN_CLOSE_WRITE) || has_flag(mask, IN_MOVED_TO))
}

impl RawEvent {
    /// Whether the entry is a directory.
    pub fn is_dir(&self) -> (b: bool)
        ensures
            b == has_flag(self.mask, IN_ISDIR),
    {
        self.mask & IN_ISDIR != 0
    }

    /// Whether the entry was created.
    pub fn is_create(&self) -> (b: bool)
        ensures
            b == has_flag(self.mask, IN_CREATE),
    {
        self.mask & IN_CREATE != 0
    }

    /// Whether the entry was moved into the directory.
    pub fn is_moved_to(&self) -> (b: bool)
        ensures
            b == has_flag(self.mask, IN_MOVED_TO),
    {
        self.mask & IN_MOVED_TO != 0
    }

    /// Whether the entry was closed after it had been open for writing.
    pub fn is_close_write(&self) -> (b: bool)
        ensures
            b == has_flag(self.mask, IN_CLOSE_WRITE),
    {
        self.mask & IN_CLOSE_WRITE != 0
    }
}

/// No record tells of a new directory and of a complete file at once.
pub proof fn lemma_kinds_exclusive(mask: u32)
    ensures
        !(announces_directory(mask) && announces_file(mask)),
{
}

} // verus!
