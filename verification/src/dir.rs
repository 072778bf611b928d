//! The listing of the root directory: `.`, `..` and the file, in that
//! order, resumable at any index.

use vstd::prelude::*;
use crate::attr::EntryKind;
use crate::namespace::{copy_bytes, FILE_INO, ROOT_INO};

verus! {

/// One entry of a listing.
#[derive(Debug)]
pub struct DirEntry {
    pub ino: u64,
    /// The offset from which a later listing goes on behind this entry.
    pub next_offset: i64,
    pub kind: EntryKind,
    pub name: Vec<u8>,
}

/// A listed entry with its name as a sequence of bytes.
pub struct DirEntryView {
    pub ino: u64,
    pub next_offset: i64,
    pub kind: EntryKind,
    pub name: Seq<u8>,
}

impl View for DirEntry {
    type V = DirEntryView;

    open spec fn view(&self) -> DirEntryView {
        DirEntryView {
            ino: self.ino,
            next_offset: self.next_offset,
            kind: self.kind,
            name: self.name@,
        }
    }
}

/// The name `.`.
pub open spec fn dot() -> Seq<u8> {
    seq![46u8]
}

/// The name `..`.
pub open spec fn dot_dot() -> Seq<u8> {
    seq![46u8, 46u8]
}

/// The whole listing: each entry's `next_offset` is its index plus one.
pub open spec fn all_entries(file_name: Seq<u8>) -> Seq<DirEntryView> {
    seq![
        DirEntryView { ino: ROOT_INO, next_offset: 1, kind: EntryKind::Directory, name: dot() },
        DirEntryView { ino: ROOT_INO, next_offset: 2, kind: EntryKind::Directory, name: dot_dot() },
        DirEntryView { ino: FILE_INO, next_offset: 3, kind: EntryKind::RegularFile, name: file_name },
    ]
}

/// The index of the first entry that a listing from `start_offset` holds.
pub open spec fn first_listed(start_offset: int) -> int {
    if start_offset <= 0 {
        0
    } else if start_offset >= 3 {
        3
    } else {
        start_offset
    }
}

/// The listing from `start_offset`: the entries whose index is not below it.
pub open spec fn listing(file_name: Seq<u8>, start_offset: int) -> Seq<DirEntryView> {
    all_entries(file_name).subrange(first_listed(start_offset), 3)
}

/// The entries of a vector as views.
pub open spec fn entry_views(entries: Seq<DirEntry>) -> Seq<DirEntryView> {
    Seq::new(entries.len(), |i: int| entries[i]@)
}

/// Lists the root directory from `start_offset` on.
pub fn enumerate(file_name: &[u8], start_offset: i64) -> (entries: Vec<DirEntry>)
    ensures
        entry_views(entries@) == listing(file_name@, start_offset as int),
{
    let mut entries: Vec<DirEntry> = Vec::new();
    if start_offset <= 0 {
        let mut name: Vec<u8> = Vec::new();
        name.push(46u8);
        assert(name@ =~= dot());
        entries.push(DirEntry { ino: ROOT_INO, next_offset: 1, kind: EntryKind::Directory, name });
    }
    if start_offset <= 1 {
        let mut name: Vec<u8> = Vec::new();
        name.push(46u8);
        name.push(46u8);
        assert(name@ =~= dot_dot());
        entries.push(DirEntry { ino: ROOT_INO, next_offset: 2, kind: EntryKind::Directory, name });
    }
    if start_offset <= 2 {
        let name = copy_bytes(file_name);
        entries.push(
            DirEntry { ino: FILE_INO, next_offset: 3, kind: EntryKind::RegularFile, name },
        );
    }
    assert(entry_views(entries@) =~= listing(file_name@, start_offset as int));
    entries
}

/// A listing from an offset within the directory is the suffix of the whole
/// listing from that index; from the end on it is empty; and every entry in
/// it carries the offset just behind itself, so that a listing resumed
/// there goes on with the next entry.
pub proof fn lemma_listing_suffix(file_name: Seq<u8>, start_offset: int)
    requires
        0 <= start_offset,
    ensures
        start_offset >= 3 ==> listing(file_name, start_offset).len() == 0,
        start_offset <= 3 ==> listing(file_name, start_offset) == all_entries(file_name).subrange(
            start_offset,
            3,
        ),
        forall|i: int|
            0 <= i < listing(file_name, start_offset).len() ==> {
                &&& #[trigger] listing(file_name, start_offset)[i] == all_entries(
                    file_name,
                )[start_offset + i]
                &&& listing(file_name, start_offset)[i].next_offset == start_offset + i + 1
            },
{
}

/// Resuming behind the first entry of a listing gives the rest of it.
pub proof fn lemma_listing_resumes(file_name: Seq<u8>, start_offset: int)
    requires
        listing(file_name, start_offset).len() > 0,
    ensures
        listing(file_name, listing(file_name, start_offset)[0].next_offset as int) == listing(
            file_name,
            start_offset,
        ).subrange(1, listing(file_name, start_offset).len() as int),
{
    assert(listing(file_name, listing(file_name, start_offset)[0].next_offset as int) =~= listing(
        file_name,
        start_offset,
    ).subrange(1, listing(file_name, start_offset).len() as int));
}

} // verus!
