//! Conversion of a buffer of little-endian 16-bit samples into a buffer of
//! single-precision floats, twice as long.

use vstd::prelude::*;
use crate::byte_order::{lemma_word_bytes_value, push_word, word_bytes, word_value, ByteOrder};
use crate::sample::{lemma_sample_bits_fields, sample_bits, sample_to_f32_bits};

verus! {

/// The signed 16-bit value whose little-endian bytes are `lo`, `hi`.
pub open spec fn sample_at(lo: u8, hi: u8) -> int {
    let v = lo as int + 256 * (hi as int);
    if v >= 32768 {
        v - 65536
    } else {
        v
    }
}

/// The `j`-th sample of a source buffer.
pub open spec fn source_sample(src: Seq<u8>, j: int) -> int {
    sample_at(src[2 * j], src[2 * j + 1])
}

/// The number of whole samples in a source buffer.
pub open spec fn sample_count(src: Seq<u8>) -> int {
    src.len() as int / 2
}

/// The converted buffer: twice as long as the source; sample `j` of the
/// source fills bytes `4j .. 4j + 4` with its float pattern in the given
/// byte order. A trailing odd source byte is no sample: the two bytes that
/// answer to it are zero.
pub open spec fn converted(src: Seq<u8>, order: ByteOrder) -> Seq<u8> {
    Seq::new(
        2 * src.len(),
        |i: int|
            if i / 4 < sample_count(src) {
                word_bytes(order, sample_bits(source_sample(src, i / 4)))[i % 4]
            } else {
                0u8
            },
    )
}

/// Decodes one little-endian signed 16-bit sample.
pub fn decode_sample(lo: u8, hi: u8) -> (s: i16)
    ensures
        s == sample_at(lo, hi),
{
    let v: i32 = (lo as i32) + 256 * (hi as i32);
    if v >= 32768 {
        (v - 65536) as i16
    } else {
        v as i16
    }
}

/// Converts a buffer of samples. The source must be short enough for the
/// result's length to be a `usize`.
pub fn convert_samples(src: &[u8], order: ByteOrder) -> (out: Vec<u8>)
    requires
        2 * src@.len() <= usize::MAX,
    ensures
        out@ == converted(src@, order),
{
    let n: usize = src.len() / 2;
    let mut out: Vec<u8> = Vec::new();
    let mut j: usize = 0;
    while j < n
        invariant
            j <= n,
            n == sample_count(src@),
            2 * src@.len() <= usize::MAX,
            out@ == converted(src@, order).subrange(0, 4 * j),
        decreases n - j,
    {
        let s = decode_sample(src[2 * j], src[2 * j + 1]);
        let bits = sample_to_f32_bits(s);
        push_word(&mut out, bits, order);
        assert(out@ =~= converted(src@, order).subrange(0, 4 * (j + 1)));
        j = j + 1;
    }
    if src.len() % 2 == 1 {
        out.push(0);
        out.push(0);
    }
    assert(out@ =~= converted(src@, order));
    out
}

/// Each whole sample of the source stands in the result at four times its
/// index: the four bytes there are the layout of the sample's float
/// pattern, and read back in the same byte order they give that pattern,
/// the float nearest to the sample's value over 32767.
pub proof fn lemma_converted_sample(src: Seq<u8>, order: ByteOrder, j: int)
    requires
        0 <= j < sample_count(src),
    ensures
        converted(src, order).len() == 2 * src.len(),
        converted(src, order).subrange(4 * j, 4 * j + 4) == word_bytes(
            order,
            sample_bits(source_sample(src, j)),
        ),
        word_value(order, converted(src, order).subrange(4 * j, 4 * j + 4)) == sample_bits(
            source_sample(src, j),
        ),
{
    let s = source_sample(src, j);
    assert(converted(src, order).subrange(4 * j, 4 * j + 4) =~= word_bytes(order, sample_bits(s)));
    if s != 0 {
        lemma_sample_bits_fields(s);
    }
    lemma_word_bytes_value(order, sample_bits(s));
}

} // verus!
