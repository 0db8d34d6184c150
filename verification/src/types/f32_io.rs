//! The codec of `Float32`: the four bytes of its bit pattern, most significant
//! first.
use crate::bytes::{
    be_bytes, be_value, key_of_be, lemma_be_bytes_len, lemma_be_value_of_bytes,
    lemma_radix_values, load_be, overwrite, prefix_key, store_be, window,
};
use crate::types::custom_types::Float32;
use vstd::prelude::*;

verus! {

/// The number of bytes that a `Float32` occupies.
pub const WIDTH: usize = 4;

/// The bytes that stand for `val`.
pub open spec fn encoding(val: Float32) -> Seq<u8> {
    be_bytes(val.bits as nat, 4)
}

/// The value that four bytes stand for.
pub open spec fn decoding(bytes: Seq<u8>) -> Float32 {
    Float32 { bits: be_value(bytes) as u32 }
}

/// The key of `val`: its encoding, then zeros up to eight bytes.
pub open spec fn digest(val: Float32) -> Seq<u8> {
    prefix_key(encoding(val))
}

/// Reads the value at `addr`.
pub fn read(buf: &[u8], addr: usize) -> (val: Float32)
    requires
        addr + WIDTH <= buf@.len(),
    ensures
        val == decoding(window(buf@, addr as int, WIDTH as int)),
{
    proof {
        lemma_radix_values();
    }
    Float32 { bits: load_be(buf, addr, WIDTH) as u32 }
}

/// Writes `val` at `addr`.
pub fn write(val: Float32, buf: &mut [u8], addr: usize)
    requires
        addr + WIDTH <= old(buf)@.len(),
    ensures
        final(buf)@ == overwrite(old(buf)@, addr as int, encoding(val)),
{
    store_be(buf, addr, WIDTH, val.bits as u64);
}

/// The number of bytes that the value at `addr` occupies.
pub fn size(buf: &[u8], addr: usize) -> (n: usize)
    ensures
        n == WIDTH,
{
    WIDTH
}

/// The number of bytes that `val` occupies once written.
pub fn val_size(val: Float32) -> (n: usize)
    ensures
        n == WIDTH,
        n == encoding(val).len(),
{
    proof {
        lemma_be_bytes_len(val.bits as nat, 4);
    }
    WIDTH
}

/// The eight-byte key of `val`.
pub fn feature(val: Float32) -> (key: [u8; 8])
    ensures
        key@ == digest(val),
        key@.len() == 8,
{
    key_of_be(val.bits as u64, WIDTH)
}

/// Every encoding is `WIDTH` bytes long.
pub proof fn lemma_encoding_len(val: Float32)
    ensures
        encoding(val).len() == WIDTH,
{
    lemma_be_bytes_len(val.bits as nat, 4);
}

/// What was written is what is read, bit for bit.
pub proof fn lemma_round_trip(val: Float32)
    ensures
        encoding(val).len() == WIDTH,
        decoding(encoding(val)) == val,
{
    lemma_be_bytes_len(val.bits as nat, 4);
    lemma_be_value_of_bytes(val.bits as nat, 4);
    lemma_radix_values();
}

} // verus!
