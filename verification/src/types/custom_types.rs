//! The compound and wrapper types that a [`Value`](super::Value) can hold
//! besides Rust's primitives.
use vstd::prelude::*;

verus! {

/// A 32-bit IEEE-754 number, held by its bit pattern.
///
/// Two values are equal when their bits are: every NaN pattern is equal to
/// itself, and `0.0` differs from `-0.0`.
#[derive(Debug, Clone, Copy, PartialEq, Eq, Structural)]
pub struct Float32 {
    pub bits: u32,
}

/// A 64-bit IEEE-754 number, held by its bit pattern.
#[derive(Debug, Clone, Copy, PartialEq, Eq, Structural)]
pub struct Float64 {
    pub bits: u64,
}

/// A point in the plane, in single precision.
#[derive(Debug, Clone, Copy, PartialEq, Eq, Structural)]
pub struct Pos2d32 {
    pub x: Float32,
    pub y: Float32,
}

/// A point in the plane, in double precision.
#[derive(Debug, Clone, Copy, PartialEq, Eq, Structural)]
pub struct Pos2d64 {
    pub x: Float64,
    pub y: Float64,
}

/// A point in space, in single precision.
#[derive(Debug, Clone, Copy, PartialEq, Eq, Structural)]
pub struct Pos3d32 {
    pub x: Float32,
    pub y: Float32,
    pub z: Float32,
}

/// A point in space, in double precision.
#[derive(Debug, Clone, Copy, PartialEq, Eq, Structural)]
pub struct Pos3d64 {
    pub x: Float64,
    pub y: Float64,
    pub z: Float64,
}

/// A 128-bit identifier, as two 64-bit halves.
#[derive(Debug, Clone, Copy, PartialEq, Eq, Structural)]
pub struct Id {
    pub higher: u64,
    pub lower: u64,
}

/// A byte string of any length that a 32-bit count can express.
#[derive(Debug, PartialEq, Eq)]
pub struct Bytes {
    pub data: Vec<u8>,
}

/// A byte string of at most 255 bytes.
///
/// The bound is the caller's to keep: nothing here enforces it, and the codec
/// stores only the low byte of a longer string's length.
#[derive(Debug, PartialEq, Eq)]
pub struct SmallBytes {
    pub data: Vec<u8>,
}

impl Float32 {
    /// The value with the given bit pattern.
    pub fn from_bits(bits: u32) -> (f: Float32)
        ensures
            f.bits == bits,
    {
        Float32 { bits }
    }

    /// The bit pattern of the value.
    pub fn to_bits(&self) -> (bits: u32)
        ensures
            bits == self.bits,
    {
        self.bits
    }
}

impl Float64 {
    /// The value with the given bit pattern.
    pub fn from_bits(bits: u64) -> (f: Float64)
        ensures
            f.bits == bits,
    {
        Float64 { bits }
    }

    /// The bit pattern of the value.
    pub fn to_bits(&self) -> (bits: u64)
        ensures
            bits == self.bits,
    {
        self.bits
    }
}

impl View for Bytes {
    type V = Seq<u8>;

    open spec fn view(&self) -> Seq<u8> {
        self.data@
    }
}

impl View for SmallBytes {
    type V = Seq<u8>;

    open spec fn view(&self) -> Seq<u8> {
        self.data@
    }
}

impl Clone for Bytes {
    fn clone(&self) -> (copy: Bytes)
        ensures
            copy@ == self@,
    {
        Bytes { data: copy_bytes(&self.data) }
    }
}

impl Clone for SmallBytes {
    fn clone(&self) -> (copy: SmallBytes)
        ensures
            copy@ == self@,
    {
        SmallBytes { data: copy_bytes(&self.data) }
    }
}

/// A fresh vector with the bytes of `data`.
pub fn copy_bytes(data: &Vec<u8>) -> (copy: Vec<u8>)
    ensures
        copy@ == data@,
{
    let mut copy: Vec<u8> = Vec::new();
    let mut i: usize = 0;
    while i < data.len()
        invariant
            i <= data@.len(),
            copy@ == data@.subrange(0, i as int),
        decreases data@.len() - i,
    {
        copy.push(data[i]);
        i += 1;
        assert(copy@ =~= data@.subrange(0, i as int));
    }
    assert(data@.subrange(0, i as int) =~= data@);
    copy
}

} // verus!
