//! What holds of the registry and the codecs taken together.
use crate::bytes::{overwrite, radix, window};
use crate::types::prefixed::lemma_record_len;
use crate::types::{
    bool_io, bytes_io, char_io, decoded, encoded, f32_io, f64_io, i16_io, i32_io, i64_io, i8_io,
    kind_id, measurable, readable, registered, small_bytes_io, stored_size, string_io, u16_io,
    u32_io, u64_io, u8_io, ValueView,
};
use vstd::prelude::*;
use vstd::utf8::encode_utf8;

verus! {

/// Whether a buffer keeps all of a value: the value is of a primitive kind or a
/// kind of variable length, a character is no higher than U+00FF, and a payload
/// is short enough for its count, that is shorter than 2^32 bytes, or than 256
/// bytes in a short byte string.
pub open spec fn kept_whole(v: ValueView) -> bool {
    match v {
        ValueView::Char(c) => c as nat <= 0xff,
        ValueView::String(s) => encode_utf8(s).len() < radix(4),
        ValueView::Bytes(b) => b.len() < radix(4),
        ValueView::SmallBytes(b) => b.len() < radix(1),
        ValueView::Pos2d32(_) => false,
        ValueView::Pos2d64(_) => false,
        ValueView::Pos3d32(_) => false,
        ValueView::Pos3d64(_) => false,
        ValueView::Id(_) => false,
        ValueView::FieldMap(_) => false,
        ValueView::Array(_) => false,
        ValueView::NA => false,
        ValueView::Null => false,
        _ => true,
    }
}

/// Whether the count of a value's record is its true length: a payload of
/// variable length is short enough for its count. Values of fixed size have no
/// count to fall short.
pub open spec fn counted_whole(v: ValueView) -> bool {
    match v {
        ValueView::String(s) => encode_utf8(s).len() < radix(4),
        ValueView::Bytes(b) => b.len() < radix(4),
        ValueView::SmallBytes(b) => b.len() < radix(1),
        _ => true,
    }
}

/// The buffer after `v` was written into `buf` at `addr`.
pub open spec fn written(buf: Seq<u8>, addr: int, v: ValueView) -> Seq<u8> {
    overwrite(buf, addr, encoded(v))
}

/// A value that a buffer keeps whole is read as it was written: after the
/// value was written at an offset, a read of its kind at that offset is in
/// order and yields the value. In particular a short byte string of 255 bytes
/// comes back as it went in.
pub proof fn lemma_round_trip(v: ValueView, buf: Seq<u8>, addr: int)
    requires
        kept_whole(v),
        0 <= addr,
        addr + encoded(v).len() <= buf.len(),
    ensures
        readable(kind_id(v), written(buf, addr, v), addr),
        decoded(kind_id(v), written(buf, addr, v), addr) == v,
{
    let after = written(buf, addr, v);
    let bytes = encoded(v);
    match v {
        ValueView::Bool(x) => {
            bool_io::lemma_round_trip(x);
            assert(window(after, addr, 1) =~= bytes);
        },
        ValueView::Char(x) => {
            char_io::lemma_round_trip(x);
            assert(window(after, addr, 1) =~= bytes);
        },
        ValueView::I8(x) => {
            i8_io::lemma_round_trip(x);
            assert(window(after, addr, 1) =~= bytes);
        },
        ValueView::I16(x) => {
            i16_io::lemma_round_trip(x);
            assert(window(after, addr, 2) =~= bytes);
        },
        ValueView::I32(x) => {
            i32_io::lemma_round_trip(x);
            assert(window(after, addr, 4) =~= bytes);
        },
        ValueView::I64(x) => {
            i64_io::lemma_round_trip(x);
            assert(window(after, addr, 8) =~= bytes);
        },
        ValueView::U8(x) => {
            u8_io::lemma_round_trip(x);
            assert(window(after, addr, 1) =~= bytes);
        },
        ValueView::U16(x) => {
            u16_io::lemma_round_trip(x);
            assert(window(after, addr, 2) =~= bytes);
        },
        ValueView::U32(x) => {
            u32_io::lemma_round_trip(x);
            assert(window(after, addr, 4) =~= bytes);
        },
        ValueView::U64(x) => {
            u64_io::lemma_round_trip(x);
            assert(window(after, addr, 8) =~= bytes);
        },
        ValueView::F32(x) => {
            f32_io::lemma_round_trip(x);
            assert(window(after, addr, 4) =~= bytes);
        },
        ValueView::F64(x) => {
            f64_io::lemma_round_trip(x);
            assert(window(after, addr, 8) =~= bytes);
        },
        ValueView::String(x) => {
            lemma_record_len(4, encode_utf8(x));
            string_io::lemma_round_trip(buf, addr, x);
        },
        ValueView::Bytes(x) => {
            lemma_record_len(4, x);
            bytes_io::lemma_round_trip(buf, addr, x);
        },
        ValueView::SmallBytes(x) => {
            lemma_record_len(1, x);
            small_bytes_io::lemma_round_trip(buf, addr, x);
        },
        _ => {},
    }
}

/// The size that is measured in the buffer right after a value was written
/// equals the size that was computed from the value, for every registered kind
/// whose count, where it has one, is the payload's true length.
pub proof fn lemma_size_consistent(v: ValueView, buf: Seq<u8>, addr: int)
    requires
        registered(kind_id(v)),
        counted_whole(v),
        0 <= addr,
        addr + encoded(v).len() <= buf.len(),
        buf.len() <= usize::MAX,
    ensures
        measurable(kind_id(v), written(buf, addr, v), addr),
        stored_size(kind_id(v), written(buf, addr, v), addr) == encoded(v).len(),
{
    match v {
        ValueView::Bool(x) => {
            bool_io::lemma_encoding_len(x);
        },
        ValueView::Char(x) => {
            char_io::lemma_encoding_len(x);
        },
        ValueView::I8(x) => {
            i8_io::lemma_encoding_len(x);
        },
        ValueView::I16(x) => {
            i16_io::lemma_encoding_len(x);
        },
        ValueView::I32(x) => {
            i32_io::lemma_encoding_len(x);
        },
        ValueView::I64(x) => {
            i64_io::lemma_encoding_len(x);
        },
        ValueView::U8(x) => {
            u8_io::lemma_encoding_len(x);
        },
        ValueView::U16(x) => {
            u16_io::lemma_encoding_len(x);
        },
        ValueView::U32(x) => {
            u32_io::lemma_encoding_len(x);
        },
        ValueView::U64(x) => {
            u64_io::lemma_encoding_len(x);
        },
        ValueView::F32(x) => {
            f32_io::lemma_encoding_len(x);
        },
        ValueView::F64(x) => {
            f64_io::lemma_encoding_len(x);
        },
        ValueView::String(x) => {
            lemma_record_len(4, encode_utf8(x));
            string_io::lemma_round_trip(buf, addr, x);
        },
        ValueView::Bytes(x) => {
            lemma_record_len(4, x);
            bytes_io::lemma_round_trip(buf, addr, x);
        },
        ValueView::SmallBytes(x) => {
            lemma_record_len(1, x);
            small_bytes_io::lemma_round_trip(buf, addr, x);
        },
        _ => {},
    }
}

} // verus!
