//! The codec of `Id`, a 128-bit identifier.
//!
//! Such a value is indexed by a digest and never rebuilt from a buffer: what is
//! written is the eight-byte digest of the value, and what is read is a
//! placeholder whose fields are all zero.
use crate::bytes::{overwrite, store_bytes};
use crate::hash::{fed, feed, finish, hasher, xxh64};
use crate::types::custom_types::Id;
use crate::types::u64_io;
use vstd::prelude::*;

verus! {

/// The number of bytes that an `Id` occupies.
pub const WIDTH: usize = 8;

/// The bytes that are hashed for `val`: the keys of `higher` and `lower`, in this
/// order.
pub open spec fn hashed(val: Id) -> Seq<u8> {
    u64_io::digest(val.higher) + u64_io::digest(val.lower)
}

/// The key of `val`: the XXH64 digest of [`hashed`], most significant byte
/// first.
pub open spec fn digest(val: Id) -> Seq<u8> {
    u64_io::digest(xxh64(hashed(val)))
}

/// The bytes that stand for `val`: its key.
pub open spec fn encoding(val: Id) -> Seq<u8> {
    digest(val)
}

/// The value that every read yields.
pub open spec fn placeholder() -> Id {
    Id { higher: 0, lower: 0 }
}

/// Yields the placeholder, whatever the buffer holds.
pub fn read(buf: &[u8], addr: usize) -> (val: Id)
    ensures
        val == placeholder(),
{
    Id { higher: 0, lower: 0 }
}

/// Writes the key of `val` at `addr`.
pub fn write(val: &Id, buf: &mut [u8], addr: usize)
    requires
        addr + WIDTH <= old(buf)@.len(),
    ensures
        final(buf)@ == overwrite(old(buf)@, addr as int, encoding(*val)),
{
    let key = feature(val);
    store_bytes(buf, addr, &key);
}

/// The number of bytes that the value at `addr` occupies.
pub fn size(buf: &[u8], addr: usize) -> (n: usize)
    ensures
        n == WIDTH,
{
    WIDTH
}

/// The number of bytes that `val` occupies once written.
pub fn val_size(val: &Id) -> (n: usize)
    ensures
        n == WIDTH,
        n == encoding(*val).len(),
{
    WIDTH
}

/// The eight-byte key of `val`.
pub fn feature(val: &Id) -> (key: [u8; 8])
    ensures
        key@ == digest(*val),
        key@.len() == 8,
{
    let mut h = hasher();
    let higher = u64_io::feature(val.higher);
    feed(&mut h, &higher);
    let lower = u64_io::feature(val.lower);
    feed(&mut h, &lower);
    assert(fed(h) =~= hashed(*val));
    u64_io::feature(finish(&h))
}

} // verus!
