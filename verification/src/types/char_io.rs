//! The codec of `char`: one byte, the low byte of the code point.
//!
//! A character above U+00FF does not survive: what is read back is the
//! character whose code point is the byte that was kept.
use crate::bytes::{
    be_bytes, be_value, key_of_be, lemma_be_bytes_len, lemma_be_value_of_bytes,
    lemma_radix_values, load_be, overwrite, prefix_key, store_be, window,
};
use vstd::prelude::*;

verus! {

/// The number of bytes that a `char` occupies.
pub const WIDTH: usize = 1;

/// The byte that stands for `val`.
pub open spec fn encoding(val: char) -> Seq<u8> {
    be_bytes(val as nat, 1)
}

/// The character that one byte stands for.
pub open spec fn decoding(bytes: Seq<u8>) -> char {
    (be_value(bytes) as u8) as char
}

/// The key of `val`: its encoding, then zeros up to eight bytes.
pub open spec fn digest(val: char) -> Seq<u8> {
    prefix_key(encoding(val))
}

/// Reads the character at `addr`.
pub fn read(buf: &[u8], addr: usize) -> (val: char)
    requires
        addr + WIDTH <= buf@.len(),
    ensures
        val == decoding(window(buf@, addr as int, WIDTH as int)),
{
    proof {
        lemma_radix_values();
    }
    let byte = load_be(buf, addr, WIDTH) as u8;
    byte as char
}

/// Writes the low byte of `val` at `addr`.
pub fn write(val: char, buf: &mut [u8], addr: usize)
    requires
        addr + WIDTH <= old(buf)@.len(),
    ensures
        final(buf)@ == overwrite(old(buf)@, addr as int, encoding(val)),
{
    let code = val as u32;
    store_be(buf, addr, WIDTH, code as u64);
}

/// The number of bytes that the value at `addr` occupies.
pub fn size(buf: &[u8], addr: usize) -> (n: usize)
    ensures
        n == WIDTH,
{
    WIDTH
}

/// The number of bytes that `val` occupies once written.
pub fn val_size(val: char) -> (n: usize)
    ensures
        n == WIDTH,
        n == encoding(val).len(),
{
    proof {
        lemma_be_bytes_len(val as nat, 1);
    }
    WIDTH
}

/// The eight-byte key of `val`.
pub fn feature(val: char) -> (key: [u8; 8])
    ensures
        key@ == digest(val),
        key@.len() == 8,
{
    let code = val as u32;
    key_of_be(code as u64, WIDTH)
}

/// Every encoding is `WIDTH` bytes long.
pub proof fn lemma_encoding_len(val: char)
    ensures
        encoding(val).len() == WIDTH,
{
    lemma_be_bytes_len(val as nat, 1);
}

/// A character up to U+00FF is read as it was written.
pub proof fn lemma_round_trip(val: char)
    requires
        val as nat <= 0xff,
    ensures
        encoding(val).len() == WIDTH,
        decoding(encoding(val)) == val,
{
    lemma_be_bytes_len(val as nat, 1);
    lemma_be_value_of_bytes(val as nat, 1);
    lemma_radix_values();
}

} // verus!
