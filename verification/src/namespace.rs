//! The namespace: a root directory that holds one regular file.

use vstd::prelude::*;
use crate::attr::EntryKind;
use crate::error::FsError;

verus! {

/// The inode id of the root directory.
pub const ROOT_INO: u64 = 1;

/// The inode id of the file.
pub const FILE_INO: u64 = 2;

/// An entry of the namespace.
#[derive(Debug)]
pub struct VirtualEntry {
    pub ino: u64,
    pub kind: EntryKind,
    /// The entry's name in its parent; the root has the empty name.
    pub name: Vec<u8>,
}

/// An entry with its name as a sequence of bytes.
pub struct VirtualEntryView {
    pub ino: u64,
    pub kind: EntryKind,
    pub name: Seq<u8>,
}

impl View for VirtualEntry {
    type V = VirtualEntryView;

    open spec fn view(&self) -> VirtualEntryView {
        VirtualEntryView { ino: self.ino, kind: self.kind, name: self.name@ }
    }
}

/// The table of entries, indexed by inode id.
#[derive(Debug)]
pub struct Namespace {
    /// The name under which the root holds the file.
    pub file_name: Vec<u8>,
}

/// The root's entry.
pub open spec fn root_entry() -> VirtualEntryView {
    VirtualEntryView { ino: ROOT_INO, kind: EntryKind::Directory, name: Seq::<u8>::empty() }
}

/// The file's entry.
pub open spec fn file_entry(file_name: Seq<u8>) -> VirtualEntryView {
    VirtualEntryView { ino: FILE_INO, kind: EntryKind::RegularFile, name: file_name }
}

/// The entry of an id, where the table has one.
pub open spec fn entry_of(file_name: Seq<u8>, ino: u64) -> Option<VirtualEntryView> {
    if ino == ROOT_INO {
        Some(root_entry())
    } else if ino == FILE_INO {
        Some(file_entry(file_name))
    } else {
        None
    }
}

/// Whether `name` under `parent` names the file.
pub open spec fn resolves(file_name: Seq<u8>, parent: u64, name: Seq<u8>) -> bool {
    parent == ROOT_INO && name == file_name
}

/// An entry as an optional view.
pub open spec fn entry_view(e: Option<VirtualEntry>) -> Option<VirtualEntryView> {
    match e {
        Some(entry) => Some(entry@),
        None => None,
    }
}

/// Tells whether two byte strings are the same.
pub fn bytes_equal(a: &[u8], b: &[u8]) -> (same: bool)
    ensures
        same == (a@ == b@),
{
    if a.len() != b.len() {
        return false;
    }
    let mut i: usize = 0;
    while i < a.len()
        invariant
            i <= a@.len(),
            a@.len() == b@.len(),
            a@.subrange(0, i as int) == b@.subrange(0, i as int),
        decreases a@.len() - i,
    {
        if a[i] != b[i] {
            return false;
        }
        assert(a@.subrange(0, i + 1) =~= a@.subrange(0, i as int).push(a@[i as int]));
        assert(b@.subrange(0, i + 1) =~= b@.subrange(0, i as int).push(b@[i as int]));
        i = i + 1;
    }
    assert(a@ =~= a@.subrange(0, i as int));
    assert(b@ =~= b@.subrange(0, i as int));
    true
}

/// A fresh copy of a byte string.
pub fn copy_bytes(src: &[u8]) -> (out: Vec<u8>)
    ensures
        out@ == src@,
{
    let mut out: Vec<u8> = Vec::new();
    let mut i: usize = 0;
    while i < src.len()
        invariant
            i <= src@.len(),
            out@ == src@.subrange(0, i as int),
        decreases src@.len() - i,
    {
        out.push(src[i]);
        assert(out@ =~= src@.subrange(0, i + 1));
        i = i + 1;
    }
    assert(out@ =~= src@);
    out
}

impl Namespace {
    /// A namespace whose file has the given name.
    pub fn new(file_name: Vec<u8>) -> (ns: Namespace)
        ensures
            ns.file_name@ == file_name@,
    {
        Namespace { file_name }
    }

    /// The entry with the given id: the root for 1, the file for 2, and
    /// none for any other.
    pub fn entry(&self, ino: u64) -> (e: Option<VirtualEntry>)
        ensures
            entry_view(e) == entry_of(self.file_name@, ino),
    {
        if ino == ROOT_INO {
            Some(VirtualEntry { ino: ROOT_INO, kind: EntryKind::Directory, name: Vec::new() })
        } else if ino == FILE_INO {
            let name = copy_bytes(self.file_name.as_slice());
            Some(VirtualEntry { ino: FILE_INO, kind: EntryKind::RegularFile, name })
        } else {
            None
        }
    }

    /// Resolves a name under a parent. Only the file's name under the root
    /// resolves, to the file; everything else is not found.
    pub fn lookup(&self, parent: u64, name: &[u8]) -> (r: Result<VirtualEntry, FsError>)
        ensures
            r is Ok <==> resolves(self.file_name@, parent, name@),
            r is Ok ==> r->Ok_0@ == file_entry(self.file_name@),
            r is Err ==> r->Err_0 == FsError::NotFound,
    {
        if parent == ROOT_INO && bytes_equal(name, self.file_name.as_slice()) {
            let name = copy_bytes(self.file_name.as_slice());
            Ok(VirtualEntry { ino: FILE_INO, kind: EntryKind::RegularFile, name })
        } else {
            Err(FsError::NotFound)
        }
    }
}

} // verus!
