//! What a physical read of the backing file returns, as a function of the
//! file's contents.

use vstd::prelude::*;

verus! {

/// The bytes of `contents` from `offset` on, at most `length` of them: none
/// at or past the end, and only those that are there where the range
/// reaches past it.
pub open spec fn physical_range(contents: Seq<u8>, offset: int, length: int) -> Seq<u8> {
    if offset >= contents.len() || length <= 0 {
        Seq::<u8>::empty()
    } else if offset + length > contents.len() {
        contents.subrange(offset, contents.len() as int)
    } else {
        contents.subrange(offset, offset + length)
    }
}

/// Reads up to `length` bytes at `offset` from contents held in memory.
/// The end of the contents shortens the result and is no failure.
pub fn read_physical(contents: &[u8], offset: u64, length: u32) -> (bytes: Vec<u8>)
    ensures
        bytes@ == physical_range(contents@, offset as int, length as int),
{
    let mut bytes: Vec<u8> = Vec::new();
    let size: usize = contents.len();
    if offset >= size as u64 {
        assert(bytes@ =~= physical_range(contents@, offset as int, length as int));
        return bytes;
    }
    let start: usize = offset as usize;
    let left: usize = size - start;
    let count: usize = if (length as u64) <= (left as u64) {
        length as usize
    } else {
        left
    };
    let mut i: usize = 0;
    while i < count
        invariant
            i <= count,
            size == contents@.len(),
            start + count <= size,
            bytes@ == contents@.subrange(start as int, start + i),
        decreases count - i,
    {
        bytes.push(contents[start + i]);
        assert(bytes@ =~= contents@.subrange(start as int, start + i + 1));
        i = i + 1;
    }
    assert(bytes@ =~= physical_range(contents@, offset as int, length as int));
    bytes
}

} // verus!
