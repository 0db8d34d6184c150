//! The codec of `i64`: eight bytes in two's complement, most significant first.
use crate::bytes::{
    be_bytes, be_value, from_pattern, from_twos_complement, key_of_be, lemma_be_bytes_len,
    lemma_be_value_of_bytes, lemma_radix_values, load_be, overwrite, prefix_key, store_be,
    to_pattern, twos_complement, window,
};
use vstd::prelude::*;

verus! {

/// The number of bytes that an `i64` occupies.
pub const WIDTH: usize = 8;

/// The bytes that stand for `val`.
pub open spec fn encoding(val: i64) -> Seq<u8> {
    be_bytes(twos_complement(val as int, 8), 8)
}

/// The value that eight bytes stand for.
pub open spec fn decoding(bytes: Seq<u8>) -> i64 {
    from_twos_complement(be_value(bytes), 8) as i64
}

/// The key of `val`: its encoding, then zeros up to eight bytes.
pub open spec fn digest(val: i64) -> Seq<u8> {
    prefix_key(encoding(val))
}

/// Reads the value at `addr`.
pub fn read(buf: &[u8], addr: usize) -> (val: i64)
    requires
        addr + WIDTH <= buf@.len(),
    ensures
        val == decoding(window(buf@, addr as int, WIDTH as int)),
{
    proof {
        lemma_radix_values();
    }
    let pattern = load_be(buf, addr, WIDTH);
    from_pattern(pattern, WIDTH)
}

/// Writes `val` at `addr`.
pub fn write(val: i64, buf: &mut [u8], addr: usize)
    requires
        addr + WIDTH <= old(buf)@.len(),
    ensures
        final(buf)@ == overwrite(old(buf)@, addr as int, encoding(val)),
{
    proof {
        lemma_radix_values();
    }
    let pattern = to_pattern(val, WIDTH);
    store_be(buf, addr, WIDTH, pattern);
}

/// The number of bytes that the value at `addr` occupies.
pub fn size(buf: &[u8], addr: usize) -> (n: usize)
    ensures
        n == WIDTH,
{
    WIDTH
}

/// The number of bytes that `val` occupies once written.
pub fn val_size(val: i64) -> (n: usize)
    ensures
        n == WIDTH,
        n == encoding(val).len(),
{
    proof {
        lemma_be_bytes_len(twos_complement(val as int, 8), 8);
    }
    WIDTH
}

/// The eight-byte key of `val`.
pub fn feature(val: i64) -> (key: [u8; 8])
    ensures
        key@ == digest(val),
        key@.len() == 8,
{
    proof {
        lemma_radix_values();
    }
    let pattern = to_pattern(val, WIDTH);
    key_of_be(pattern, WIDTH)
}

/// Every encoding is `WIDTH` bytes long.
pub proof fn lemma_encoding_len(val: i64)
    ensures
        encoding(val).len() == WIDTH,
{
    lemma_be_bytes_len(twos_complement(val as int, 8), 8);
}

/// What was written is what is read.
pub proof fn lemma_round_trip(val: i64)
    ensures
        encoding(val).len() == WIDTH,
        decoding(encoding(val)) == val,
{
    let pattern = twos_complement(val as int, 8);
    lemma_radix_values();
    lemma_be_bytes_len(pattern, 8);
    lemma_be_value_of_bytes(pattern, 8);
}

} // verus!
