//! The codec of `Pos2d32`, a point in the plane in single precision.
//!
//! Such a value is indexed by a digest and never rebuilt from a buffer: what is
//! written is the eight-byte digest of the value, and what is read is a
//! placeholder whose fields are all zero.
use crate::bytes::{overwrite, store_bytes};
use crate::hash::{fed, feed, finish, hasher, xxh64};
use crate::types::custom_types::{Float32, Pos2d32};
use crate::types::{f32_io, u64_io};
use vstd::prelude::*;

verus! {

/// The number of bytes that a `Pos2d32` occupies.
pub const WIDTH: usize = 8;

/// The bytes that are hashed for `val`: the keys of `x` and `y`, in this
/// order.
pub open spec fn hashed(val: Pos2d32) -> Seq<u8> {
    f32_io::digest(val.x) + f32_io::digest(val.y)
}

/// The key of `val`: the XXH64 digest of [`hashed`], most significant byte
/// first.
pub open spec fn digest(val: Pos2d32) -> Seq<u8> {
    u64_io::digest(xxh64(hashed(val)))
}

/// The bytes that stand for `val`: its key.
pub open spec fn encoding(val: Pos2d32) -> Seq<u8> {
    digest(val)
}

/// The value that every read yields.
pub open spec fn placeholder() -> Pos2d32 {
    Pos2d32 { x: Float32 { bits: 0 }, y: Float32 { bits: 0 } }
}

/// Yields the placeholder, whatever the buffer holds.
pub fn read(buf: &[u8], addr: usize) -> (val: Pos2d32)
    ensures
        val == placeholder(),
{
    Pos2d32 { x: Float32 { bits: 0 }, y: Float32 { bits: 0 } }
}

/// Writes the key of `val` at `addr`.
pub fn write(val: &Pos2d32, buf: &mut [u8], addr: usize)
    requires
        addr + WIDTH <= old(buf)@.len(),
    ensures
        final(buf)@ == overwrite(old(buf)@, addr as int, encoding(*val)),
{
    let key = feature(val);
    store_bytes(buf, addr, &key);
}

/// The number of bytes that the value at `addr` occupies.
pub fn size(buf: &[u8], addr: usize) -> (n: usize)
    ensures
        n == WIDTH,
{
    WIDTH
}

/// The number of bytes that `val` occupies once written.
pub fn val_size(val: &Pos2d32) -> (n: usize)
    ensures
        n == WIDTH,
        n == encoding(*val).len(),
{
    WIDTH
}

/// The eight-byte key of `val`.
pub fn feature(val: &Pos2d32) -> (key: [u8; 8])
    ensures
        key@ == digest(*val),
        key@.len() == 8,
{
    let mut h = hasher();
    let x = f32_io::feature(val.x);
    feed(&mut h, &x);
    let y = f32_io::feature(val.y);
    feed(&mut h, &y);
    assert(fed(h) =~= hashed(*val));
    u64_io::feature(finish(&h))
}

} // verus!
