//! The codec of `bool`: one byte, `1` for `true` and `0` for `false`.
use crate::bytes::{
    be_bytes, be_value, key_of_be, lemma_be_bytes_len, lemma_be_value_of_bytes,
    lemma_radix_values, load_be, overwrite, prefix_key, store_be, window,
};
use vstd::prelude::*;

verus! {

/// The number of bytes that a `bool` occupies.
pub const WIDTH: usize = 1;

/// The number that stands for `val`.
pub open spec fn flag(val: bool) -> nat {
    if val {
        1
    } else {
        0
    }
}

/// The byte that stands for `val`.
pub open spec fn encoding(val: bool) -> Seq<u8> {
    be_bytes(flag(val), 1)
}

/// The value that one byte stands for: `false` for `0`, `true` for anything
/// else.
pub open spec fn decoding(bytes: Seq<u8>) -> bool {
    be_value(bytes) != 0
}

/// The key of `val`: its encoding, then zeros up to eight bytes.
pub open spec fn digest(val: bool) -> Seq<u8> {
    prefix_key(encoding(val))
}

/// Reads the value at `addr`.
pub fn read(buf: &[u8], addr: usize) -> (val: bool)
    requires
        addr + WIDTH <= buf@.len(),
    ensures
        val == decoding(window(buf@, addr as int, WIDTH as int)),
{
    load_be(buf, addr, WIDTH) != 0
}

/// Writes `val` at `addr`.
pub fn write(val: bool, buf: &mut [u8], addr: usize)
    requires
        addr + WIDTH <= old(buf)@.len(),
    ensures
        final(buf)@ == overwrite(old(buf)@, addr as int, encoding(val)),
{
    let byte: u64 = if val {
        1
    } else {
        0
    };
    store_be(buf, addr, WIDTH, byte);
}

/// The number of bytes that the value at `addr` occupies.
pub fn size(buf: &[u8], addr: usize) -> (n: usize)
    ensures
        n == WIDTH,
{
    WIDTH
}

/// The number of bytes that `val` occupies once written.
pub fn val_size(val: bool) -> (n: usize)
    ensures
        n == WIDTH,
        n == encoding(val).len(),
{
    proof {
        lemma_be_bytes_len(flag(val), 1);
    }
    WIDTH
}

/// The eight-byte key of `val`.
pub fn feature(val: bool) -> (key: [u8; 8])
    ensures
        key@ == digest(val),
        key@.len() == 8,
{
    let byte: u64 = if val {
        1
    } else {
        0
    };
    key_of_be(byte, WIDTH)
}

/// Every encoding is `WIDTH` bytes long.
pub proof fn lemma_encoding_len(val: bool)
    ensures
        encoding(val).len() == WIDTH,
{
    lemma_be_bytes_len(flag(val), 1);
}

/// What was written is what is read.
pub proof fn lemma_round_trip(val: bool)
    ensures
        encoding(val).len() == WIDTH,
        decoding(encoding(val)) == val,
{
    lemma_be_bytes_len(flag(val), 1);
    lemma_be_value_of_bytes(flag(val), 1);
    lemma_radix_values();
}

} // verus!
