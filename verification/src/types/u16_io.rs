//! The codec of `u16`: two bytes, most significant first.
use crate::bytes::{
    be_bytes, be_value, key_of_be, lemma_be_bytes_len, lemma_be_value_of_bytes,
    lemma_radix_values, load_be, overwrite, prefix_key, store_be, window,
};
use vstd::prelude::*;

verus! {

/// The number of bytes that a `u16` occupies.
pub const WIDTH: usize = 2;

/// The bytes that stand for `val`.
pub open spec fn encoding(val: u16) -> Seq<u8> {
    be_bytes(val as nat, 2)
}

/// The value that two bytes stand for.
pub open spec fn decoding(bytes: Seq<u8>) -> u16 {
    be_value(bytes) as u16
}

/// The key of `val`: its encoding, then zeros up to eight bytes.
pub open spec fn digest(val: u16) -> Seq<u8> {
    prefix_key(encoding(val))
}

/// Reads the value at `addr`.
pub fn read(buf: &[u8], addr: usize) -> (val: u16)
    requires
        addr + WIDTH <= buf@.len(),
    ensures
        val == decoding(window(buf@, addr as int, WIDTH as int)),
{
    proof {
        lemma_radix_values();
    }
    load_be(buf, addr, WIDTH) as u16
}

/// Writes `val` at `addr`.
pub fn write(val: u16, buf: &mut [u8], addr: usize)
    requires
        addr + WIDTH <= old(buf)@.len(),
    ensures
        final(buf)@ == overwrite(old(buf)@, addr as int, encoding(val)),
{
    store_be(buf, addr, WIDTH, val as u64);
}

/// The number of bytes that the value at `addr` occupies.
pub fn size(buf: &[u8], addr: usize) -> (n: usize)
    ensures
        n == WIDTH,
{
    WIDTH
}

/// The number of bytes that `val` occupies once written.
pub fn val_size(val: u16) -> (n: usize)
    ensures
        n == WIDTH,
        n == encoding(val).len(),
{
    proof {
        lemma_be_bytes_len(val as nat, 2);
    }
    WIDTH
}

/// The eight-byte key of `val`.
pub fn feature(val: u16) -> (key: [u8; 8])
    ensures
        key@ == digest(val),
        key@.len() == 8,
{
    key_of_be(val as u64, WIDTH)
}

/// Every encoding is `WIDTH` bytes long.
pub proof fn lemma_encoding_len(val: u16)
    ensures
        encoding(val).len() == WIDTH,
{
    lemma_be_bytes_len(val as nat, 2);
}

/// What was written is what is read.
pub proof fn lemma_round_trip(val: u16)
    ensures
        encoding(val).len() == WIDTH,
        decoding(encoding(val)) == val,
{
    lemma_be_bytes_len(val as nat, 2);
    lemma_be_value_of_bytes(val as nat, 2);
    lemma_radix_values();
}

} // verus!
