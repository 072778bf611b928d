//! Translation of a logical read request, in bytes of the converted file,
//! into a physical one, in bytes of the backing file.

use vstd::prelude::*;
use crate::error::FsError;

verus! {

/// How many logical bytes answer to one physical byte.
pub const RATIO: u64 = 2;

/// The physical range that serves one logical read.
#[derive(Clone, Copy, Debug, PartialEq, Eq, Structural)]
pub struct ReadWindow {
    /// Where the physical read starts.
    pub physical_offset: u64,
    /// How many physical bytes it takes.
    pub physical_length: u32,
}

/// The physical offset of a logical one: the quotient by the ratio,
/// rounded down.
pub open spec fn physical_offset_of(offset: int) -> int {
    offset / 2
}

/// The physical length that serves a logical read of `length` bytes at
/// `offset` from a file of `physical_size` bytes: the requested length over
/// the ratio, cut down to what the file holds from the physical offset on,
/// and to nothing where the offset lies at or past the end.
pub open spec fn physical_length_of(offset: int, length: int, physical_size: int) -> int {
    let wanted = length / 2;
    let left = physical_size - physical_offset_of(offset);
    if left <= 0 {
        0
    } else if wanted <= left {
        wanted
    } else {
        left
    }
}

/// Translates a logical read request. A negative offset is refused; any
/// other request has a window, which is empty at or past the end of file.
pub fn translate(offset: i64, length: u32, physical_size: u64) -> (r: Result<ReadWindow, FsError>)
    ensures
        offset < 0 <==> r is Err,
        r is Err ==> r == Err::<ReadWindow, FsError>(FsError::InvalidArgument),
        r is Ok ==> r->Ok_0.physical_offset == physical_offset_of(offset as int),
        r is Ok ==> r->Ok_0.physical_length == physical_length_of(
            offset as int,
            length as int,
            physical_size as int,
        ),
{
    if offset < 0 {
        return Err(FsError::InvalidArgument);
    }
    let physical_offset: u64 = (offset as u64) / RATIO;
    let wanted: u32 = length / 2;
    let physical_length: u32 = if physical_offset >= physical_size {
        0
    } else {
        let left: u64 = physical_size - physical_offset;
        if (wanted as u64) <= left {
            wanted
        } else {
            left as u32
        }
    };
    Ok(ReadWindow { physical_offset, physical_length })
}

/// The window never reaches past the end of the file, and never asks for
/// more than half the requested length.
pub proof fn lemma_window_within_file(offset: int, length: int, physical_size: int)
    requires
        0 <= offset,
        0 <= length,
        0 <= physical_size,
    ensures
        0 <= physical_length_of(offset, length, physical_size) <= length / 2,
        physical_length_of(offset, length, physical_size) > 0 ==> physical_offset_of(offset)
            + physical_length_of(offset, length, physical_size) <= physical_size,
        physical_offset_of(offset) >= physical_size ==> physical_length_of(
            offset,
            length,
            physical_size,
        ) == 0,
{
}

/// For a request that is aligned to the ratio and lies within the file,
/// logical offset and length are exactly the ratio times the physical ones.
pub proof fn lemma_window_ratio(physical_offset: int, physical_length: int, physical_size: int)
    requires
        0 <= physical_offset,
        0 <= physical_length,
        physical_offset + physical_length <= physical_size,
    ensures
        physical_offset_of(2 * physical_offset) == physical_offset,
        physical_length_of(2 * physical_offset, 2 * physical_length, physical_size)
            == physical_length,
{
}

} // verus!
