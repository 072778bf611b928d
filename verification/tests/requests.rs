use fuse_dsp::attr::{
    compute_attributes, directory_attributes, make_system_time, EntryKind, PhysicalMetadata,
    Timestamp,
};
use fuse_dsp::byte_order::ByteOrder;
use fuse_dsp::dir::enumerate;
use fuse_dsp::error::FsError;
use fuse_dsp::fs::{DspFs, FsConfig};
use fuse_dsp::namespace::{bytes_equal, copy_bytes, Namespace};
use fuse_dsp::source::read_physical;
use fuse_dsp::window::{translate, ReadWindow};

fn snapshot(size: u64) -> PhysicalMetadata {
    PhysicalMetadata {
        size,
        blocks: 8,
        atime: 1_600_000_000,
        atime_nsec: 123,
        mtime: 1_600_000_001,
        mtime_nsec: 456,
        ctime: 1_600_000_002,
        ctime_nsec: 789,
        nlink: 1,
        uid: 1000,
        gid: 100,
        rdev: 0,
        blksize: 4096,
    }
}

fn filesystem(contents: &[u8]) -> DspFs {
    DspFs::new(
        b"samples.cs16".to_vec(),
        snapshot(contents.len() as u64),
        FsConfig::standard(ByteOrder::native()),
    )
    .unwrap()
}

fn floats(bytes: &[u8]) -> Vec<f32> {
    let mut out: Vec<f32> = Vec::new();
    let mut i = 0;
    while i + 4 <= bytes.len() {
        out.push(f32::from_ne_bytes([bytes[i], bytes[i + 1], bytes[i + 2], bytes[i + 3]]));
        i += 4;
    }
    out
}

#[test]
fn read_two_samples_gives_zero_and_one() {
    let contents: Vec<u8> = vec![0x00, 0x00, 0xFF, 0x7F];
    let fs = filesystem(&contents);
    let out = fs.read(&contents, 2, 0, 8).unwrap();
    let mut expected: Vec<u8> = Vec::new();
    expected.extend_from_slice(&0.0f32.to_ne_bytes());
    expected.extend_from_slice(&1.0f32.to_ne_bytes());
    assert_eq!(out, expected);
    assert_eq!(floats(&out), vec![0.0f32, 1.0f32]);
}

#[test]
fn empty_file_has_size_zero_and_reads_nothing() {
    let contents: Vec<u8> = Vec::new();
    let fs = filesystem(&contents);
    assert_eq!(fs.getattr(2).unwrap().size, 0);
    assert_eq!(fs.read(&contents, 2, 0, 0).unwrap(), Vec::<u8>::new());
    assert_eq!(fs.read(&contents, 2, 0, 4096).unwrap(), Vec::<u8>::new());
    assert_eq!(fs.read(&contents, 2, 0, u32::MAX).unwrap(), Vec::<u8>::new());
}

#[test]
fn read_matches_scaled_physical_samples() {
    let mut contents: Vec<u8> = Vec::new();
    let samples: [i16; 8] = [0, 1, -1, 32767, -32768, 12345, -12345, 256];
    for s in samples {
        contents.extend_from_slice(&s.to_le_bytes());
    }
    let fs = filesystem(&contents);
    let mut o: usize = 0;
    while o <= contents.len() {
        let mut n: usize = 0;
        while o + n <= contents.len() {
            if o % 2 == 0 && n % 2 == 0 {
                let out = fs.read(&contents, 2, (o * 2) as i64, (n * 2) as u32).unwrap();
                let physical = read_physical(&contents, o as u64, n as u32);
                assert_eq!(physical, contents[o..o + n].to_vec());
                let expected: Vec<f32> = physical
                    .chunks(2)
                    .map(|c| i16::from_le_bytes([c[0], c[1]]) as f32 / 32767.0f32)
                    .collect();
                assert_eq!(out.len(), n * 2);
                assert_eq!(floats(&out), expected);
            }
            n += 1;
        }
        o += 1;
    }
}

#[test]
fn repeated_reads_are_identical() {
    let contents: Vec<u8> = vec![1, 2, 3, 4, 5, 6, 7, 8];
    let fs = filesystem(&contents);
    let first = fs.read(&contents, 2, 4, 8).unwrap();
    let second = fs.read(&contents, 2, 4, 8).unwrap();
    let third = fs.read(&contents, 2, 4, 8).unwrap();
    assert_eq!(first, second);
    assert_eq!(second, third);
    assert_eq!(first.len(), 8);
}

#[test]
fn read_at_or_past_end_is_empty_and_ok() {
    let contents: Vec<u8> = vec![0x00, 0x00, 0xFF, 0x7F];
    let fs = filesystem(&contents);
    assert_eq!(fs.read(&contents, 2, 8, 8), Ok(Vec::new()));
    assert_eq!(fs.read(&contents, 2, 9, 8), Ok(Vec::new()));
    assert_eq!(fs.read(&contents, 2, 1_000_000, 4096), Ok(Vec::new()));
    assert_eq!(fs.read(&contents, 2, i64::MAX, u32::MAX), Ok(Vec::new()));
}

#[test]
fn read_near_end_is_short() {
    let contents: Vec<u8> = vec![0x00, 0x00, 0xFF, 0x7F];
    let fs = filesystem(&contents);
    let out = fs.read(&contents, 2, 4, 4096).unwrap();
    assert_eq!(out, 1.0f32.to_ne_bytes().to_vec());
}

#[test]
fn read_negative_offset_is_invalid_argument() {
    let contents: Vec<u8> = vec![0, 0];
    let fs = filesystem(&contents);
    assert_eq!(fs.read(&contents, 2, -1, 4), Err(FsError::InvalidArgument));
    assert_eq!(fs.read(&contents, 2, i64::MIN, 4), Err(FsError::InvalidArgument));
    assert_eq!(fs.read(&contents, 7, -2, 4), Err(FsError::InvalidArgument));
    assert_eq!(fs.read_window(2, -1, 4), Err(FsError::InvalidArgument));
}

#[test]
fn read_unknown_inode_is_not_found() {
    let contents: Vec<u8> = vec![0, 0];
    let fs = filesystem(&contents);
    assert_eq!(fs.read(&contents, 1, 0, 4), Err(FsError::NotFound));
    assert_eq!(fs.read(&contents, 3, 0, 4), Err(FsError::NotFound));
    assert_eq!(fs.read_window(0, 0, 4), Err(FsError::NotFound));
}

#[test]
fn failed_physical_read_is_io_error() {
    let fs = filesystem(&[]);
    assert_eq!(fs.finish_read(None), Err(FsError::IoError));
    assert_eq!(fs.finish_read(Some(vec![0xFF, 0x7F])), Ok(1.0f32.to_ne_bytes().to_vec()));
}

#[test]
fn window_then_fetch_then_finish_equals_read() {
    let contents: Vec<u8> = vec![10, 20, 30, 40, 50, 60, 70, 80, 90];
    let fs = filesystem(&contents);
    let window = fs.read_window(2, 6, 100).unwrap();
    assert_eq!(window, ReadWindow { physical_offset: 3, physical_length: 6 });
    let fetched = read_physical(&contents, window.physical_offset, window.physical_length);
    assert_eq!(fetched, vec![40, 50, 60, 70, 80, 90]);
    assert_eq!(fs.finish_read(Some(fetched)), fs.read(&contents, 2, 6, 100));
}

#[test]
fn translate_floors_and_clamps() {
    assert_eq!(translate(0, 8, 4), Ok(ReadWindow { physical_offset: 0, physical_length: 4 }));
    assert_eq!(translate(4, 8, 5), Ok(ReadWindow { physical_offset: 2, physical_length: 3 }));
    assert_eq!(translate(5, 7, 100), Ok(ReadWindow { physical_offset: 2, physical_length: 3 }));
    assert_eq!(translate(10, 8, 5), Ok(ReadWindow { physical_offset: 5, physical_length: 0 }));
    assert_eq!(translate(400, 8, 5), Ok(ReadWindow { physical_offset: 200, physical_length: 0 }));
    assert_eq!(translate(0, 0, 5), Ok(ReadWindow { physical_offset: 0, physical_length: 0 }));
    assert_eq!(
        translate(0, u32::MAX, u64::MAX),
        Ok(ReadWindow { physical_offset: 0, physical_length: u32::MAX / 2 })
    );
    assert_eq!(
        translate(2, 20, 0x1_0000_0005),
        Ok(ReadWindow { physical_offset: 1, physical_length: 10 })
    );
    assert_eq!(translate(-1, 8, 5), Err(FsError::InvalidArgument));
}

#[test]
fn read_physical_clamps_at_end() {
    let contents: Vec<u8> = vec![1, 2, 3, 4, 5];
    assert_eq!(read_physical(&contents, 0, 5), vec![1, 2, 3, 4, 5]);
    assert_eq!(read_physical(&contents, 1, 2), vec![2, 3]);
    assert_eq!(read_physical(&contents, 3, 10), vec![4, 5]);
    assert_eq!(read_physical(&contents, 5, 1), Vec::<u8>::new());
    assert_eq!(read_physical(&contents, 6, 1), Vec::<u8>::new());
    assert_eq!(read_physical(&contents, u64::MAX, u32::MAX), Vec::<u8>::new());
    assert_eq!(read_physical(&contents, 2, 0), Vec::<u8>::new());
}

#[test]
fn file_size_is_twice_physical_size() {
    for size in [0u64, 1, 2, 3, 4096, 1 << 40, u64::MAX / 2] {
        let fs = DspFs::new(
            b"f".to_vec(),
            snapshot(size),
            FsConfig::standard(ByteOrder::Little),
        )
        .unwrap();
        assert_eq!(fs.getattr(2).unwrap().size, 2 * size);
        assert_eq!(fs.get_file_attr().size, 2 * size);
        assert_eq!(fs.lookup(1, b"f").unwrap().size, 2 * size);
    }
}

#[test]
fn file_attributes_follow_the_snapshot() {
    let mut meta = snapshot(1000);
    meta.nlink = 0x1_0000_0003;
    meta.rdev = 0x2_0000_0007;
    let attrs = compute_attributes(&meta);
    assert_eq!(attrs.ino, 2);
    assert_eq!(attrs.size, 2000);
    assert_eq!(attrs.blocks, 16);
    assert_eq!(attrs.atime, Timestamp { sec: 1_600_000_000, nsec: 123 });
    assert_eq!(attrs.mtime, Timestamp { sec: 1_600_000_001, nsec: 456 });
    assert_eq!(attrs.ctime, Timestamp { sec: 1_600_000_002, nsec: 789 });
    assert_eq!(attrs.crtime, Timestamp { sec: 0, nsec: 0 });
    assert_eq!(attrs.kind, EntryKind::RegularFile);
    assert_eq!(attrs.perm, 0o400);
    assert_eq!(attrs.nlink, 3);
    assert_eq!(attrs.uid, 1000);
    assert_eq!(attrs.gid, 100);
    assert_eq!(attrs.rdev, 7);
    assert_eq!(attrs.blksize, 4096);
    assert_eq!(attrs.flags, 0);
}

#[test]
fn directory_attributes_are_fixed() {
    let attrs = directory_attributes();
    assert_eq!(attrs.ino, 1);
    assert_eq!(attrs.size, 0);
    assert_eq!(attrs.blocks, 0);
    assert_eq!(attrs.kind, EntryKind::Directory);
    assert_eq!(attrs.perm, 0o555);
    assert_eq!(attrs.nlink, 2);
    assert_eq!(attrs.uid, 0);
    assert_eq!(attrs.gid, 0);
    assert_eq!(attrs.blksize, 512);
    assert_eq!(attrs.atime, Timestamp { sec: 0, nsec: 0 });
    let fs = filesystem(&[1, 2]);
    assert_eq!(fs.getattr(1), Ok(attrs));
    assert_eq!(fs.ttl_secs(), 1);
}

#[test]
fn make_system_time_keeps_both_parts() {
    assert_eq!(make_system_time(5, 7), Timestamp { sec: 5, nsec: 7 });
    assert_eq!(make_system_time(-5, 999_999_999), Timestamp { sec: -5, nsec: 999_999_999 });
}

#[test]
fn getattr_unknown_inode_is_not_found() {
    let fs = filesystem(&[1, 2]);
    assert_eq!(fs.getattr(0), Err(FsError::NotFound));
    assert_eq!(fs.getattr(3), Err(FsError::NotFound));
    assert_eq!(fs.getattr(u64::MAX), Err(FsError::NotFound));
}

#[test]
fn lookup_finds_only_the_file_under_the_root() {
    let fs = filesystem(&[1, 2]);
    assert_eq!(fs.lookup(1, b"samples.cs16"), Ok(fs.get_file_attr()));
    assert_eq!(fs.lookup(1, b"samples.cs1"), Err(FsError::NotFound));
    assert_eq!(fs.lookup(1, b"samples.cs16x"), Err(FsError::NotFound));
    assert_eq!(fs.lookup(1, b"Samples.cs16"), Err(FsError::NotFound));
    assert_eq!(fs.lookup(1, b""), Err(FsError::NotFound));
    assert_eq!(fs.lookup(1, b"."), Err(FsError::NotFound));
    assert_eq!(fs.lookup(2, b"samples.cs16"), Err(FsError::NotFound));
    assert_eq!(fs.lookup(0, b"samples.cs16"), Err(FsError::NotFound));
}

#[test]
fn namespace_resolves_ids_and_names() {
    let ns = Namespace::new(b"a.bin".to_vec());
    let root = ns.entry(1).unwrap();
    assert_eq!((root.ino, root.kind, root.name), (1, EntryKind::Directory, Vec::new()));
    let file = ns.entry(2).unwrap();
    assert_eq!((file.ino, file.kind, file.name), (2, EntryKind::RegularFile, b"a.bin".to_vec()));
    assert!(ns.entry(3).is_none());
    assert!(ns.entry(0).is_none());
    let found = ns.lookup(1, b"a.bin").unwrap();
    assert_eq!((found.ino, found.kind, found.name), (2, EntryKind::RegularFile, b"a.bin".to_vec()));
    assert_eq!(ns.lookup(1, b"b.bin").unwrap_err(), FsError::NotFound);
    assert_eq!(ns.lookup(2, b"a.bin").unwrap_err(), FsError::NotFound);
}

#[test]
fn bytes_equal_and_copy() {
    assert!(bytes_equal(b"abc", b"abc"));
    assert!(bytes_equal(b"", b""));
    assert!(!bytes_equal(b"abc", b"abd"));
    assert!(!bytes_equal(b"abc", b"ab"));
    assert!(!bytes_equal(b"", b"a"));
    assert_eq!(copy_bytes(b"xyz"), b"xyz".to_vec());
}

fn listed(fs: &DspFs, offset: i64) -> Vec<(u64, i64, EntryKind, Vec<u8>)> {
    fs.readdir(1, offset)
        .unwrap()
        .into_iter()
        .map(|e| (e.ino, e.next_offset, e.kind, e.name))
        .collect()
}

#[test]
fn readdir_yields_the_remaining_suffix() {
    let fs = filesystem(&[1, 2]);
    let all = vec![
        (1u64, 1i64, EntryKind::Directory, b".".to_vec()),
        (1u64, 2i64, EntryKind::Directory, b"..".to_vec()),
        (2u64, 3i64, EntryKind::RegularFile, b"samples.cs16".to_vec()),
    ];
    assert_eq!(listed(&fs, 0), all);
    assert_eq!(listed(&fs, 1), all[1..].to_vec());
    assert_eq!(listed(&fs, 2), all[2..].to_vec());
    assert_eq!(listed(&fs, 3), Vec::new());
    assert_eq!(listed(&fs, 4), Vec::new());
    assert_eq!(listed(&fs, i64::MAX), Vec::new());
}

#[test]
fn readdir_resumes_from_next_offset() {
    let fs = filesystem(&[1, 2]);
    let mut names: Vec<Vec<u8>> = Vec::new();
    let mut offset: i64 = 0;
    loop {
        let page = fs.readdir(1, offset).unwrap();
        match page.into_iter().next() {
            Some(entry) => {
                offset = entry.next_offset;
                names.push(entry.name);
            }
            None => break,
        }
    }
    assert_eq!(names, vec![b".".to_vec(), b"..".to_vec(), b"samples.cs16".to_vec()]);
}

#[test]
fn readdir_from_a_negative_offset_skips_nothing() {
    let fs = filesystem(&[1, 2]);
    assert_eq!(listed(&fs, -1).len(), 3);
    assert_eq!(enumerate(b"x", i64::MIN).len(), 3);
}

#[test]
fn readdir_of_another_inode_is_not_found() {
    let fs = filesystem(&[1, 2]);
    assert_eq!(fs.readdir(2, 0).unwrap_err(), FsError::NotFound);
    assert_eq!(fs.readdir(0, 0).unwrap_err(), FsError::NotFound);
}

#[test]
fn snapshot_that_cannot_be_doubled_fails_startup() {
    let config = FsConfig::standard(ByteOrder::Little);
    let too_large = DspFs::new(b"f".to_vec(), snapshot(u64::MAX / 2 + 1), config);
    assert_eq!(too_large.unwrap_err(), FsError::StartupFailure);
    let mut meta = snapshot(4);
    meta.blocks = u64::MAX;
    assert_eq!(DspFs::new(b"f".to_vec(), meta, config).unwrap_err(), FsError::StartupFailure);
    assert!(!meta.is_wf());
    assert!(snapshot(u64::MAX / 2).is_wf());
}

#[test]
fn configuration_must_describe_the_root() {
    let mut config = FsConfig::standard(ByteOrder::Little);
    assert!(config.is_wf());
    config.dir_attr.perm = 0o777;
    assert!(!config.is_wf());
    assert_eq!(DspFs::new(b"f".to_vec(), snapshot(4), config).unwrap_err(), FsError::StartupFailure);
}
