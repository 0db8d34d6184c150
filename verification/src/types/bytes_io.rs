//! The codec of byte strings: a four-byte count, then the bytes.
use crate::bytes::{key_of_bytes, overwrite, prefix_key, radix};
use crate::hash::{fed, feed, finish, hasher, xxh64};
use crate::types::custom_types::Bytes;
use crate::types::prefixed::{
    countable, lemma_record_round_trip, read_record, readable, record, record_size, stored,
    stored_len, write_record,
};
use crate::types::u64_io;
use vstd::prelude::*;

verus! {

/// The number of bytes of the count.
pub const PREFIX: usize = 4;

/// The bytes that stand for `val`.
pub open spec fn encoding(val: Seq<u8>) -> Seq<u8> {
    record(4, val)
}

/// The byte string of the record at `addr`.
pub open spec fn decoding(buf: Seq<u8>, addr: int) -> Seq<u8> {
    stored(buf, addr, 4)
}

/// The key of `val` that orders like its beginning: its first eight bytes,
/// then zeros.
pub open spec fn digest(val: Seq<u8>) -> Seq<u8> {
    prefix_key(val)
}

/// The key of `val` that depends on all of it: its XXH64 digest, most
/// significant byte first.
pub open spec fn content_digest(val: Seq<u8>) -> Seq<u8> {
    u64_io::digest(xxh64(val))
}

/// Reads the byte string at `addr`.
pub fn read(buf: &[u8], addr: usize) -> (val: Bytes)
    requires
        readable(buf@, addr as int, 4),
    ensures
        val@ == decoding(buf@, addr as int),
{
    Bytes { data: read_record(buf, addr, PREFIX) }
}

/// Writes `val` at `addr`.
pub fn write(val: &[u8], buf: &mut [u8], addr: usize)
    requires
        addr + PREFIX + val@.len() <= old(buf)@.len(),
    ensures
        final(buf)@ == overwrite(old(buf)@, addr as int, encoding(val@)),
{
    write_record(val, buf, addr, PREFIX);
}

/// The number of bytes that the record at `addr` occupies.
pub fn size(buf: &[u8], addr: usize) -> (n: usize)
    requires
        countable(buf@, addr as int, 4),
    ensures
        n == PREFIX + stored_len(buf@, addr as int, 4),
{
    record_size(buf, addr, PREFIX)
}

/// The number of bytes that `val` occupies once written.
pub fn val_size(val: &[u8]) -> (n: usize)
    requires
        PREFIX + val@.len() <= usize::MAX,
    ensures
        n == PREFIX + val@.len(),
{
    val.len() + PREFIX
}

/// The eight-byte key of `val` that orders like its beginning.
pub fn feature(val: &[u8]) -> (key: [u8; 8])
    ensures
        key@ == digest(val@),
        key@.len() == 8,
{
    key_of_bytes(val)
}

/// The eight-byte key of `val` that depends on all of it.
pub fn hash(val: &[u8]) -> (key: [u8; 8])
    ensures
        key@ == content_digest(val@),
        key@.len() == 8,
{
    let mut h = hasher();
    assert(val@.len() == val.len());
    feed(&mut h, val);
    assert(fed(h) =~= val@);
    u64_io::feature(finish(&h))
}

/// A byte string shorter than 2^32 bytes is read as it was written, and occupies in
/// the buffer the size computed from the value.
pub proof fn lemma_round_trip(buf: Seq<u8>, addr: int, val: Seq<u8>)
    requires
        0 <= addr,
        addr + PREFIX + val.len() <= buf.len(),
        val.len() < radix(4),
    ensures
        readable(overwrite(buf, addr, encoding(val)), addr, 4),
        decoding(overwrite(buf, addr, encoding(val)), addr) == val,
        PREFIX + stored_len(overwrite(buf, addr, encoding(val)), addr, 4) == PREFIX
            + val.len(),
{
    lemma_record_round_trip(buf, addr, 4, val);
}

} // verus!
