//! The codec of `i16`: two bytes in two's complement, most significant first.
use crate::bytes::{
    be_bytes, be_value, from_pattern, from_twos_complement, key_of_be, lemma_be_bytes_len,
    lemma_be_value_of_bytes, lemma_radix_values, load_be, overwrite, prefix_key, store_be,
    to_pattern, twos_complement, window,
};
use vstd::prelude::*;

verus! {

/// The number of bytes that an `i16` occupies.
pub const WIDTH: usize = 2;

/// The bytes that stand for `val`.
pub open spec fn encoding(val: i16) -> Seq<u8> {
    be_bytes(twos_complement(val as int, 2), 2)
}

/// The value that two bytes stand for.
pub open spec fn decoding(bytes: Seq<u8>) -> i16 {
    from_twos_complement(be_value(bytes), 2) as i16
}

/// The key of `val`: its encoding, then zeros up to eight bytes.
pub open spec fn digest(val: i16) -> Seq<u8> {
    prefix_key(encoding(val))
}

/// Reads the value at `addr`.
pub fn read(buf: &[u8], addr: usize) -> (val: i16)
    requires
        addr + WIDTH <= buf@.len(),
    ensures
        val == decoding(window(buf@, addr as int, WIDTH as int)),
{
    proof {
        lemma_radix_values();
    }
    let pattern = load_be(buf, addr, WIDTH);
    from_pattern(pattern, WIDTH) as i16
}

/// Writes `val` at `addr`.
pub fn write(val: i16, buf: &mut [u8], addr: usize)
    requires
        addr + WIDTH <= old(buf)@.len(),
    ensures
        final(buf)@ == overwrite(old(buf)@, addr as int, encoding(val)),
{
    proof {
        lemma_radix_values();
    }
    let pattern = to_pattern(val as i64, WIDTH);
    store_be(buf, addr, WIDTH, pattern);
}

/// The number of bytes that the value at `addr` occupies.
pub fn size(buf: &[u8], addr: usize) -> (n: usize)
    ensures
        n == WIDTH,
{
    WIDTH
}

/// The number of bytes that `val` occupies once written.
pub fn val_size(val: i16) -> (n: usize)
    ensures
        n == WIDTH,
        n == encoding(val).len(),
{
    proof {
        lemma_be_bytes_len(twos_complement(val as int, 2), 2);
    }
    WIDTH
}

/// The eight-byte key of `val`.
pub fn feature(val: i16) -> (key: [u8; 8])
    ensures
        key@ == digest(val),
        key@.len() == 8,
{
    proof {
        lemma_radix_values();
    }
    let pattern = to_pattern(val as i64, WIDTH);
    key_of_be(pattern, WIDTH)
}

/// Every encoding is `WIDTH` bytes long.
pub proof fn lemma_encoding_len(val: i16)
    ensures
        encoding(val).len() == WIDTH,
{
    lemma_be_bytes_len(twos_complement(val as int, 2), 2);
}

/// What was written is what is read.
pub proof fn lemma_round_trip(val: i16)
    ensures
        encoding(val).len() == WIDTH,
        decoding(encoding(val)) == val,
{
    let pattern = twos_complement(val as int, 2);
    lemma_radix_values();
    lemma_be_bytes_len(pattern, 2);
    lemma_be_value_of_bytes(pattern, 2);
}

} // verus!
