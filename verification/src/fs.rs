//! The filesystem as its callers see it: lookup, attributes, reads and
//! directory listings, each answered from the snapshot taken at startup.

use vstd::prelude::*;
use crate::attr::{
    compute_attributes, directory_attributes, file_attributes, root_attributes, EntryKind,
    PhysicalMetadata, VirtualAttributes, DIR_NLINK, DIR_PERM,
};
use crate::byte_order::{word_bytes, word_value, ByteOrder};
use crate::convert::{convert_samples, converted, lemma_converted_sample, sample_at, source_sample};
use crate::dir::{entry_views, enumerate, listing, DirEntry, DirEntryView};
use crate::error::FsError;
use crate::namespace::{resolves, Namespace, FILE_INO, ROOT_INO};
use crate::sample::sample_bits;
use crate::source::{physical_range, read_physical};
use crate::window::{physical_length_of, physical_offset_of, translate, ReadWindow};

verus! {

/// What is fixed when the filesystem starts and never changes after.
#[derive(Clone, Copy, Debug, PartialEq, Eq, Structural)]
pub struct FsConfig {
    /// For how many seconds a caller may keep an answer.
    pub ttl_secs: u64,
    /// The attributes of the root directory.
    pub dir_attr: VirtualAttributes,
    /// The byte order in which floats are written.
    pub byte_order: ByteOrder,
}

impl FsConfig {
    /// The directory attributes describe the root: a directory with inode
    /// id 1 that all may read and search, with two links.
    pub open spec fn wf(&self) -> bool {
        &&& self.dir_attr.ino == ROOT_INO
        &&& self.dir_attr.kind == EntryKind::Directory
        &&& self.dir_attr.perm == DIR_PERM
        &&& self.dir_attr.nlink == DIR_NLINK
    }

    /// Tells whether the configuration can be served.
    pub fn is_wf(&self) -> (ok: bool)
        ensures
            ok == self.wf(),
    {
        self.dir_attr.ino == ROOT_INO && self.dir_attr.kind == EntryKind::Directory
            && self.dir_attr.perm == DIR_PERM && self.dir_attr.nlink == DIR_NLINK
    }

    /// Answers valid for one second, the usual directory attributes, and
    /// the given byte order.
    pub fn standard(byte_order: ByteOrder) -> (config: FsConfig)
        ensures
            config == (FsConfig { ttl_secs: 1, dir_attr: root_attributes(), byte_order }),
            config.wf(),
    {
        FsConfig { ttl_secs: 1, dir_attr: directory_attributes(), byte_order }
    }
}

/// The filesystem: the file's name, the snapshot of the backing file's
/// metadata, and the configuration.
#[derive(Debug)]
pub struct DspFs {
    pub namespace: Namespace,
    pub metadata: PhysicalMetadata,
    pub config: FsConfig,
}

/// The outcome of a read, with the bytes as a sequence.
pub open spec fn bytes_outcome(r: Result<Vec<u8>, FsError>) -> Result<Seq<u8>, FsError> {
    match r {
        Ok(bytes) => Ok(bytes@),
        Err(e) => Err(e),
    }
}

/// The outcome of a listing, with the entries as views.
pub open spec fn listing_outcome(r: Result<Vec<DirEntry>, FsError>) -> Result<
    Seq<DirEntryView>,
    FsError,
> {
    match r {
        Ok(entries) => Ok(entry_views(entries@)),
        Err(e) => Err(e),
    }
}

/// The bytes that a read of `length` logical bytes at a non-negative
/// logical `offset` returns, from a backing file that holds `contents` and
/// had `physical_size` bytes at startup: the physical bytes of the
/// translated window, converted.
pub open spec fn read_bytes(
    contents: Seq<u8>,
    offset: int,
    length: int,
    physical_size: int,
    order: ByteOrder,
) -> Seq<u8> {
    converted(
        physical_range(
            contents,
            physical_offset_of(offset),
            physical_length_of(offset, length, physical_size),
        ),
        order,
    )
}

impl DspFs {
    /// Snapshot and configuration can be served.
    pub open spec fn wf(&self) -> bool {
        self.metadata.wf() && self.config.wf()
    }

    /// What `lookup` answers.
    pub open spec fn lookup_spec(&self, parent: u64, name: Seq<u8>) -> Result<
        VirtualAttributes,
        FsError,
    > {
        if resolves(self.namespace.file_name@, parent, name) {
            Ok(file_attributes(self.metadata))
        } else {
            Err(FsError::NotFound)
        }
    }

    /// What `getattr` answers.
    pub open spec fn getattr_spec(&self, ino: u64) -> Result<VirtualAttributes, FsError> {
        if ino == ROOT_INO {
            Ok(self.config.dir_attr)
        } else if ino == FILE_INO {
            Ok(file_attributes(self.metadata))
        } else {
            Err(FsError::NotFound)
        }
    }

    /// What `read` answers when the backing file holds `contents`.
    pub open spec fn read_spec(&self, contents: Seq<u8>, ino: u64, offset: i64, size: u32) -> Result<
        Seq<u8>,
        FsError,
    > {
        if offset < 0 {
            Err(FsError::InvalidArgument)
        } else if ino != FILE_INO {
            Err(FsError::NotFound)
        } else {
            Ok(
                read_bytes(
                    contents,
                    offset as int,
                    size as int,
                    self.metadata.size as int,
                    self.config.byte_order,
                ),
            )
        }
    }

    /// What `readdir` answers.
    pub open spec fn readdir_spec(&self, ino: u64, offset: i64) -> Result<
        Seq<DirEntryView>,
        FsError,
    > {
        if ino == ROOT_INO {
            Ok(listing(self.namespace.file_name@, offset as int))
        } else {
            Err(FsError::NotFound)
        }
    }

    /// Puts a filesystem together. It fails at startup, and only then,
    /// where the snapshot or the configuration cannot be served.
    pub fn new(file_name: Vec<u8>, metadata: PhysicalMetadata, config: FsConfig) -> (r: Result<
        DspFs,
        FsError,
    >)
        ensures
            r is Ok <==> metadata.wf() && config.wf(),
            r is Err ==> r->Err_0 == FsError::StartupFailure,
            r is Ok ==> {
                &&& r->Ok_0.wf()
                &&& r->Ok_0.namespace.file_name@ == file_name@
                &&& r->Ok_0.metadata == metadata
                &&& r->Ok_0.config == config
            },
    {
        if metadata.is_wf() && config.is_wf() {
            Ok(DspFs { namespace: Namespace::new(file_name), metadata, config })
        } else {
            Err(FsError::StartupFailure)
        }
    }

    /// The attributes of the file.
    pub fn get_file_attr(&self) -> (attrs: VirtualAttributes)
        requires
            self.wf(),
        ensures
            attrs == file_attributes(self.metadata),
            attrs.size == 2 * self.metadata.size,
    {
        compute_attributes(&self.metadata)
    }

    /// For how many seconds a caller may keep an answer.
    pub fn ttl_secs(&self) -> (secs: u64)
        ensures
            secs == self.config.ttl_secs,
    {
        self.config.ttl_secs
    }

    /// Resolves `name` under `parent` to the file's attributes. Any name
    /// but the file's, and any parent but the root, is not found.
    pub fn lookup(&self, parent: u64, name: &[u8]) -> (r: Result<VirtualAttributes, FsError>)
        requires
            self.wf(),
        ensures
            r == self.lookup_spec(parent, name@),
            !(parent == ROOT_INO && name@ == self.namespace.file_name@) ==> r == Err::<
                VirtualAttributes,
                FsError,
            >(FsError::NotFound),
    {
        match self.namespace.lookup(parent, name) {
            Ok(_) => Ok(self.get_file_attr()),
            Err(e) => Err(e),
        }
    }

    /// The attributes of an inode: the configured ones for the root, the
    /// computed ones for the file, and not found for any other id.
    pub fn getattr(&self, ino: u64) -> (r: Result<VirtualAttributes, FsError>)
        requires
            self.wf(),
        ensures
            r == self.getattr_spec(ino),
            ino == FILE_INO ==> r is Ok && r->Ok_0.size == 2 * self.metadata.size,
            ino == ROOT_INO ==> {
                &&& r is Ok
                &&& r->Ok_0.kind == EntryKind::Directory
                &&& r->Ok_0.perm == DIR_PERM
                &&& r->Ok_0.nlink == DIR_NLINK
            },
            ino != ROOT_INO && ino != FILE_INO ==> r == Err::<VirtualAttributes, FsError>(
                FsError::NotFound,
            ),
    {
        if ino == ROOT_INO {
            Ok(self.config.dir_attr)
        } else if ino == FILE_INO {
            Ok(self.get_file_attr())
        } else {
            Err(FsError::NotFound)
        }
    }

    /// The physical range to fetch for a read. A negative offset is an
    /// invalid argument; otherwise any inode but the file is not found.
    pub fn read_window(&self, ino: u64, offset: i64, size: u32) -> (r: Result<ReadWindow, FsError>)
        ensures
            offset < 0 ==> r == Err::<ReadWindow, FsError>(FsError::InvalidArgument),
            offset >= 0 && ino != FILE_INO ==> r == Err::<ReadWindow, FsError>(FsError::NotFound),
            offset >= 0 && ino == FILE_INO ==> {
                &&& r is Ok
                &&& r->Ok_0.physical_offset == physical_offset_of(offset as int)
                &&& r->Ok_0.physical_length == physical_length_of(
                    offset as int,
                    size as int,
                    self.metadata.size as int,
                )
            },
    {
        match translate(offset, size, self.metadata.size) {
            Err(e) => Err(e),
            Ok(window) => {
                if ino == FILE_INO {
                    Ok(window)
                } else {
                    Err(FsError::NotFound)
                }
            },
        }
    }

    /// Ends a read with what the physical read of its window brought:
    /// the converted bytes, or an I/O error where the physical read failed
    /// (`None`). Bytes that are fewer than the window asked for are no
    /// failure.
    pub fn finish_read(&self, fetched: Option<Vec<u8>>) -> (r: Result<Vec<u8>, FsError>)
        requires
            fetched is Some ==> 2 * fetched->Some_0@.len() <= usize::MAX,
        ensures
            fetched is None ==> r == Err::<Vec<u8>, FsError>(FsError::IoError),
            fetched is Some ==> r is Ok && r->Ok_0@ == converted(
                fetched->Some_0@,
                self.config.byte_order,
            ),
    {
        match fetched {
            None => Err(FsError::IoError),
            Some(physical) => Ok(convert_samples(physical.as_slice(), self.config.byte_order)),
        }
    }

    /// Serves a read from contents held in memory. The result may be
    /// shorter than `size`, down to nothing at or past the end of the file;
    /// that is no error.
    pub fn read(&self, contents: &[u8], ino: u64, offset: i64, size: u32) -> (r: Result<
        Vec<u8>,
        FsError,
    >)
        ensures
            bytes_outcome(r) == self.read_spec(contents@, ino, offset, size),
            offset >= 0 && ino == FILE_INO ==> r is Ok && r->Ok_0@.len() <= size,
            offset >= 0 && ino == FILE_INO && physical_offset_of(offset as int)
                >= self.metadata.size ==> r is Ok && r->Ok_0@.len() == 0,
    {
        match self.read_window(ino, offset, size) {
            Err(e) => Err(e),
            Ok(window) => {
                let physical = read_physical(
                    contents,
                    window.physical_offset,
                    window.physical_length,
                );
                self.finish_read(Some(physical))
            },
        }
    }

    /// Lists the root directory from `offset` on; any other inode is not
    /// found.
    pub fn readdir(&self, ino: u64, offset: i64) -> (r: Result<Vec<DirEntry>, FsError>)
        ensures
            listing_outcome(r) == self.readdir_spec(ino, offset),
    {
        if ino != ROOT_INO {
            return Err(FsError::NotFound);
        }
        Ok(enumerate(self.namespace.file_name.as_slice(), offset))
    }
}

/// A read of twice a physical offset and twice a physical length, for a
/// range that lies within the backing file, returns the conversion of
/// exactly that physical range: sample `j` of the range stands in the
/// result, at four times its index, as the float nearest to its value over
/// 32767, and the four bytes there decode to that float's pattern.
pub proof fn lemma_read_converts_physical(
    fs: DspFs,
    contents: Seq<u8>,
    physical_offset: int,
    physical_length: int,
)
    requires
        contents.len() == fs.metadata.size,
        0 <= physical_offset,
        0 <= physical_length,
        physical_offset + physical_length <= contents.len(),
        2 * physical_offset <= i64::MAX,
        2 * physical_length <= u32::MAX,
    ensures
        fs.read_spec(
            contents,
            FILE_INO,
            (2 * physical_offset) as i64,
            (2 * physical_length) as u32,
        ) == Ok::<Seq<u8>, FsError>(
            converted(
                physical_range(contents, physical_offset, physical_length),
                fs.config.byte_order,
            ),
        ),
        converted(
            physical_range(contents, physical_offset, physical_length),
            fs.config.byte_order,
        ).len() == 2 * physical_length,
        forall|j: int|
            0 <= j < physical_length / 2 ==> #[trigger] converted(
                physical_range(contents, physical_offset, physical_length),
                fs.config.byte_order,
            ).subrange(4 * j, 4 * j + 4) == word_bytes(
                fs.config.byte_order,
                sample_bits(
                    sample_at(
                        contents[physical_offset + 2 * j],
                        contents[physical_offset + 2 * j + 1],
                    ),
                ),
            ),
        forall|j: int|
            0 <= j < physical_length / 2 ==> word_value(
                fs.config.byte_order,
                #[trigger] converted(
                    physical_range(contents, physical_offset, physical_length),
                    fs.config.byte_order,
                ).subrange(4 * j, 4 * j + 4),
            ) == sample_bits(
                sample_at(contents[physical_offset + 2 * j], contents[physical_offset + 2 * j + 1]),
            ),
{
    let range = physical_range(contents, physical_offset, physical_length);
    let order = fs.config.byte_order;
    assert(range.len() == physical_length);
    assert forall|j: int| 0 <= j < physical_length / 2 implies #[trigger] converted(
        range,
        order,
    ).subrange(4 * j, 4 * j + 4) == word_bytes(
        order,
        sample_bits(
            sample_at(contents[physical_offset + 2 * j], contents[physical_offset + 2 * j + 1]),
        ),
    ) by {
        lemma_converted_sample(range, order, j);
        assert(source_sample(range, j) == sample_at(
            contents[physical_offset + 2 * j],
            contents[physical_offset + 2 * j + 1],
        ));
    }
    assert forall|j: int| 0 <= j < physical_length / 2 implies word_value(
        order,
        #[trigger] converted(range, order).subrange(4 * j, 4 * j + 4),
    ) == sample_bits(
        sample_at(contents[physical_offset + 2 * j], contents[physical_offset + 2 * j + 1]),
    ) by {
        lemma_converted_sample(range, order, j);
        assert(source_sample(range, j) == sample_at(
            contents[physical_offset + 2 * j],
            contents[physical_offset + 2 * j + 1],
        ));
    }
}

/// Two reads with the same inode, offset and length of the same contents
/// return the same outcome: nothing that a read leaves behind can change
/// the next.
pub proof fn lemma_read_repeatable(
    fs: DspFs,
    contents: Seq<u8>,
    ino: u64,
    offset: i64,
    size: u32,
    first: Result<Vec<u8>, FsError>,
    second: Result<Vec<u8>, FsError>,
)
    requires
        bytes_outcome(first) == fs.read_spec(contents, ino, offset, size),
        bytes_outcome(second) == fs.read_spec(contents, ino, offset, size),
    ensures
        bytes_outcome(first) == bytes_outcome(second),
        first is Ok ==> second is Ok && first->Ok_0@ == second->Ok_0@,
        first is Err ==> second is Err && first->Err_0 == second->Err_0,
{
}

/// A read of the file whose offset lies at or past the end of the backing
/// file succeeds with no bytes, whatever length is asked for.
pub proof fn lemma_read_past_end(fs: DspFs, contents: Seq<u8>, offset: i64, size: u32)
    requires
        offset >= 0,
        physical_offset_of(offset as int) >= fs.metadata.size,
    ensures
        fs.read_spec(contents, FILE_INO, offset, size) == Ok::<Seq<u8>, FsError>(
            Seq::<u8>::empty(),
        ),
{
    assert(read_bytes(
        contents,
        offset as int,
        size as int,
        fs.metadata.size as int,
        fs.config.byte_order,
    ) =~= Seq::<u8>::empty());
}

/// The file's size is twice the backing file's, for every size that can be
/// doubled, zero included; a lookup of the file shows the same attributes
/// as its inode does.
pub proof fn lemma_file_size_doubles(fs: DspFs)
    requires
        fs.wf(),
    ensures
        fs.getattr_spec(FILE_INO) is Ok,
        fs.getattr_spec(FILE_INO)->Ok_0.size == 2 * fs.metadata.size,
        fs.lookup_spec(ROOT_INO, fs.namespace.file_name@) == fs.getattr_spec(FILE_INO),
{
}

/// A lookup finds nothing under any parent but the root, and nothing under
/// the root by any name but the file's.
pub proof fn lemma_lookup_not_found(fs: DspFs, parent: u64, name: Seq<u8>)
    requires
        parent != ROOT_INO || name != fs.namespace.file_name@,
    ensures
        fs.lookup_spec(parent, name) == Err::<VirtualAttributes, FsError>(FsError::NotFound),
{
}

} // verus!
