//! The codec of `u64`: eight bytes, most significant first.
use crate::bytes::{
    be_bytes, be_value, key_of_be, lemma_be_bytes_len, lemma_be_value_of_bytes,
    lemma_radix_values, load_be, overwrite, prefix_key, store_be, window,
};
use vstd::prelude::*;

verus! {

/// The number of bytes that a `u64` occupies.
pub const WIDTH: usize = 8;

/// The bytes that stand for `val`.
pub open spec fn encoding(val: u64) -> Seq<u8> {
    be_bytes(val as nat, 8)
}

/// The value that eight bytes stand for.
pub open spec fn decoding(bytes: Seq<u8>) -> u64 {
    be_value(bytes) as u64
}

/// The key of `val`: its encoding, then zeros up to eight bytes.
pub open spec fn digest(val: u64) -> Seq<u8> {
    prefix_key(encoding(val))
}

/// Reads the value at `addr`.
pub fn read(buf: &[u8], addr: usize) -> (val: u64)
    requires
        addr + WIDTH <= buf@.len(),
    ensures
        val == decoding(window(buf@, addr as int, WIDTH as int)),
{
    proof {
        lemma_radix_values();
    }
    load_be(buf, addr, WIDTH)
}

/// Writes `val` at `addr`.
pub fn write(val: u64, buf: &mut [u8], addr: usize)
    requires
        addr + WIDTH <= old(buf)@.len(),
    ensures
        final(buf)@ == overwrite(old(buf)@, addr as int, encoding(val)),
{
    store_be(buf, addr, WIDTH, val);
}

/// The number of bytes that the value at `addr` occupies.
pub fn size(buf: &[u8], addr: usize) -> (n: usize)
    ensures
        n == WIDTH,
{
    WIDTH
}

/// The number of bytes that `val` occupies once written.
pub fn val_size(val: u64) -> (n: usize)
    ensures
        n == WIDTH,
        n == encoding(val).len(),
{
    proof {
        lemma_be_bytes_len(val as nat, 8);
    }
    WIDTH
}

/// The eight-byte key of `val`.
pub fn feature(val: u64) -> (key: [u8; 8])
    ensures
        key@ == digest(val),
        key@.len() == 8,
{
    key_of_be(val, WIDTH)
}

/// Every encoding is `WIDTH` bytes long.
pub proof fn lemma_encoding_len(val: u64)
    ensures
        encoding(val).len() == WIDTH,
{
    lemma_be_bytes_len(val as nat, 8);
}

/// What was written is what is read.
pub proof fn lemma_round_trip(val: u64)
    ensures
        encoding(val).len() == WIDTH,
        decoding(encoding(val)) == val,
{
    lemma_be_bytes_len(val as nat, 8);
    lemma_be_value_of_bytes(val as nat, 8);
    lemma_radix_values();
}

} // verus!
