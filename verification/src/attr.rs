//! The attributes of the two entries, derived from a snapshot of the
//! backing file's metadata.

use vstd::prelude::*;
use crate::namespace::{FILE_INO, ROOT_INO};

verus! {

/// A point in time as the operating system reports it: whole seconds since
/// the epoch and the nanoseconds within the second.
#[derive(Clone, Copy, Debug, PartialEq, Eq, Structural)]
pub struct Timestamp {
    pub sec: i64,
    pub nsec: i64,
}

/// What an entry is.
#[derive(Clone, Copy, Debug, PartialEq, Eq, Structural)]
pub enum EntryKind {
    Directory,
    RegularFile,
}

/// The metadata of the backing file, taken once when it is opened.
#[derive(Clone, Copy, Debug, PartialEq, Eq, Structural)]
pub struct PhysicalMetadata {
    /// Size in bytes.
    pub size: u64,
    /// Number of blocks allocated.
    pub blocks: u64,
    pub atime: i64,
    pub atime_nsec: i64,
    pub mtime: i64,
    pub mtime_nsec: i64,
    pub ctime: i64,
    pub ctime_nsec: i64,
    pub nlink: u64,
    pub uid: u32,
    pub gid: u32,
    /// Device id.
    pub rdev: u64,
    /// Preferred block size for I/O.
    pub blksize: u64,
}

/// The attributes that an entry of the filesystem shows.
#[derive(Clone, Copy, Debug, PartialEq, Eq, Structural)]
pub struct VirtualAttributes {
    pub ino: u64,
    pub size: u64,
    pub blocks: u64,
    pub atime: Timestamp,
    pub mtime: Timestamp,
    pub ctime: Timestamp,
    pub crtime: Timestamp,
    pub kind: EntryKind,
    pub perm: u16,
    pub nlink: u32,
    pub uid: u32,
    pub gid: u32,
    pub rdev: u32,
    pub blksize: u32,
    pub flags: u32,
}

/// Permission bits of the file: read for its owner.
pub const FILE_PERM: u16 = 0o400;

/// Permission bits of the directory: read and search for all.
pub const DIR_PERM: u16 = 0o555;

/// Link count of the directory.
pub const DIR_NLINK: u32 = 2;

/// Block size that the directory reports.
pub const DIR_BLKSIZE: u32 = 512;

/// The epoch itself.
pub open spec fn epoch() -> Timestamp {
    Timestamp { sec: 0, nsec: 0 }
}

/// Puts seconds and nanoseconds together, unchanged.
pub fn make_system_time(sec: i64, nsec: i64) -> (t: Timestamp)
    ensures
        t == (Timestamp { sec, nsec }),
{
    Timestamp { sec, nsec }
}

/// The low 32 bits of a 64-bit field.
pub open spec fn low_word(x: u64) -> u32 {
    (x % 0x1_0000_0000) as u32
}

impl PhysicalMetadata {
    /// Size and block count can be doubled within 64 bits.
    pub open spec fn wf(&self) -> bool {
        &&& 2 * self.size <= u64::MAX
        &&& 2 * self.blocks <= u64::MAX
    }

    /// Tells whether the snapshot can be served.
    pub fn is_wf(&self) -> (ok: bool)
        ensures
            ok == self.wf(),
    {
        self.size <= u64::MAX / 2 && self.blocks <= u64::MAX / 2
    }
}

/// The attributes of the file: size and block count are twice those of the
/// backing file, the times, owner and group are its own, the link count,
/// device id and block size are the low 32 bits of its own, and it is a
/// regular file that only its owner may read.
pub open spec fn file_attributes(meta: PhysicalMetadata) -> VirtualAttributes {
    VirtualAttributes {
        ino: FILE_INO,
        size: (2 * meta.size) as u64,
        blocks: (2 * meta.blocks) as u64,
        atime: Timestamp { sec: meta.atime, nsec: meta.atime_nsec },
        mtime: Timestamp { sec: meta.mtime, nsec: meta.mtime_nsec },
        ctime: Timestamp { sec: meta.ctime, nsec: meta.ctime_nsec },
        crtime: epoch(),
        kind: EntryKind::RegularFile,
        perm: FILE_PERM,
        nlink: low_word(meta.nlink),
        uid: meta.uid,
        gid: meta.gid,
        rdev: low_word(meta.rdev),
        blksize: low_word(meta.blksize),
        flags: 0,
    }
}

/// The attributes of the root directory, which owe nothing to the backing
/// file.
pub open spec fn root_attributes() -> VirtualAttributes {
    VirtualAttributes {
        ino: ROOT_INO,
        size: 0,
        blocks: 0,
        atime: epoch(),
        mtime: epoch(),
        ctime: epoch(),
        crtime: epoch(),
        kind: EntryKind::Directory,
        perm: DIR_PERM,
        nlink: DIR_NLINK,
        uid: 0,
        gid: 0,
        rdev: 0,
        blksize: DIR_BLKSIZE,
        flags: 0,
    }
}

fn low_word_of(x: u64) -> (w: u32)
    ensures
        w == low_word(x),
{
    (x % 0x1_0000_0000) as u32
}

/// Computes the attributes of the file from the snapshot.
pub fn compute_attributes(meta: &PhysicalMetadata) -> (attrs: VirtualAttributes)
    requires
        meta.wf(),
    ensures
        attrs == file_attributes(*meta),
        attrs.size == 2 * meta.size,
        attrs.blocks == 2 * meta.blocks,
{
    VirtualAttributes {
        ino: FILE_INO,
        size: 2 * meta.size,
        blocks: 2 * meta.blocks,
        atime: make_system_time(meta.atime, meta.atime_nsec),
        mtime: make_system_time(meta.mtime, meta.mtime_nsec),
        ctime: make_system_time(meta.ctime, meta.ctime_nsec),
        crtime: make_system_time(0, 0),
        kind: EntryKind::RegularFile,
        perm: FILE_PERM,
        nlink: low_word_of(meta.nlink),
        uid: meta.uid,
        gid: meta.gid,
        rdev: low_word_of(meta.rdev),
        blksize: low_word_of(meta.blksize),
        flags: 0,
    }
}

/// The attributes of the root directory.
pub fn directory_attributes() -> (attrs: VirtualAttributes)
    ensures
        attrs == root_attributes(),
{
    VirtualAttributes {
        ino: ROOT_INO,
        size: 0,
        blocks: 0,
        atime: make_system_time(0, 0),
        mtime: make_system_time(0, 0),
        ctime: make_system_time(0, 0),
        crtime: make_system_time(0, 0),
        kind: EntryKind::Directory,
        perm: DIR_PERM,
        nlink: DIR_NLINK,
        uid: 0,
        gid: 0,
        rdev: 0,
        blksize: DIR_BLKSIZE,
        flags: 0,
    }
}

} // verus!
