//! The byte order in which a 32-bit pattern is laid out in a buffer.

use vstd::prelude::*;

verus! {

/// The order of the four bytes of a word in memory.
#[derive(Clone, Copy, Debug, PartialEq, Eq, Structural)]
pub enum ByteOrder {
    /// Least significant byte first.
    Little,
    /// Most significant byte first.
    Big,
}

/// The four bytes of `x`, least significant first.
pub open spec fn le_bytes(x: int) -> Seq<u8> {
    seq![
        (x % 256) as u8,
        (x / 0x100 % 256) as u8,
        (x / 0x1_0000 % 256) as u8,
        (x / 0x100_0000 % 256) as u8,
    ]
}

/// The four bytes of `x`, most significant first.
pub open spec fn be_bytes(x: int) -> Seq<u8> {
    seq![
        (x / 0x100_0000 % 256) as u8,
        (x / 0x1_0000 % 256) as u8,
        (x / 0x100 % 256) as u8,
        (x % 256) as u8,
    ]
}

/// The four bytes of `x` in the given order.
pub open spec fn word_bytes(order: ByteOrder, x: int) -> Seq<u8> {
    match order {
        ByteOrder::Little => le_bytes(x),
        ByteOrder::Big => be_bytes(x),
    }
}

/// The word that four bytes in the given order stand for.
pub open spec fn word_value(order: ByteOrder, b: Seq<u8>) -> int {
    match order {
        ByteOrder::Little => b[0] + 0x100 * b[1] + 0x1_0000 * b[2] + 0x100_0000 * b[3],
        ByteOrder::Big => b[3] + 0x100 * b[2] + 0x1_0000 * b[1] + 0x100_0000 * b[0],
    }
}

/// Laying a 32-bit word out and reading it back in the same order gives
/// the word again, so distinct words have distinct layouts.
pub proof fn lemma_word_bytes_value(order: ByteOrder, x: int)
    requires
        0 <= x < 0x1_0000_0000,
    ensures
        word_bytes(order, x).len() == 4,
        word_value(order, word_bytes(order, x)) == x,
{
}

/// `u32::to_ne_bytes` of std: the memory representation of `x` on this
/// machine. The contract claims only that it is one of the two byte orders;
/// which one is the machine's affair.
#[verifier::external_body]
fn native_bytes(x: u32) -> (b: [u8; 4])
    ensures
        b@ == le_bytes(x as int) || b@ == be_bytes(x as int),
{
    x.to_ne_bytes()
}

impl ByteOrder {
    /// The order that lays the word 1 out as `probe`: little-endian where
    /// the first byte holds the 1, big-endian otherwise.
    pub fn from_probe(probe: &[u8; 4]) -> (order: ByteOrder)
        ensures
            order == (if probe@[0] == 1 {
                ByteOrder::Little
            } else {
                ByteOrder::Big
            }),
            probe@ == le_bytes(1) ==> order == ByteOrder::Little,
            probe@ == be_bytes(1) ==> order == ByteOrder::Big,
    {
        if probe[0] == 1 {
            ByteOrder::Little
        } else {
            ByteOrder::Big
        }
    }

    /// The byte order of the machine that runs this code, found by laying
    /// out the word 1.
    pub fn native() -> (order: ByteOrder) {
        let probe = native_bytes(1);
        ByteOrder::from_probe(&probe)
    }
}

/// Appends the four bytes of `bits` in the given order.
pub fn push_word(out: &mut Vec<u8>, bits: u32, order: ByteOrder)
    ensures
        final(out)@ == old(out)@ + word_bytes(order, bits as int),
{
    let b0: u8 = (bits % 256) as u8;
    let b1: u8 = (bits / 0x100 % 256) as u8;
    let b2: u8 = (bits / 0x1_0000 % 256) as u8;
    let b3: u8 = (bits / 0x100_0000 % 256) as u8;
    match order {
        ByteOrder::Little => {
            out.push(b0);
            out.push(b1);
            out.push(b2);
            out.push(b3);
        },
        ByteOrder::Big => {
            out.push(b3);
            out.push(b2);
            out.push(b1);
            out.push(b0);
        },
    }
    assert(out@ =~= old(out)@ + word_bytes(order, bits as int));
}

} // verus!
