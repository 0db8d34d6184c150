//! The type registry and the tagged value that it is built around.
//!
//! Every registered kind has a numeric id, one or more names, and a codec
//! module. The functions here go from names to ids and back, and dispatch on an
//! id to the codec that reads, writes or measures a value of that kind at an
//! offset of a byte buffer. A buffer is always a slice that the caller owns: the
//! codecs neither allocate nor keep it.
use crate::bytes::{overwrite, window};
use vstd::pervasive::unreached;
use vstd::prelude::*;
use vstd::utf8::{encode_utf8, valid_utf8};

pub mod bool_io;
pub mod bytes_io;
pub mod char_io;
pub mod custom_types;
pub mod f32_io;
pub mod f64_io;
pub mod i16_io;
pub mod i32_io;
pub mod i64_io;
pub mod i8_io;
pub mod id_io;
pub mod laws;
pub mod names;
pub mod pos2d32_io;
pub mod pos2d64_io;
pub mod pos3d32_io;
pub mod pos3d64_io;
pub mod prefixed;
pub mod small_bytes_io;
pub mod string_io;
pub mod u16_io;
pub mod u32_io;
pub mod u64_io;
pub mod u8_io;
pub mod value;

pub use custom_types::{
    Bytes, Float32, Float64, Id, Pos2d32, Pos2d64, Pos3d32, Pos3d64, SmallBytes,
};
pub use names::{
    declares, get_id_type, get_type_id, id_of_name, is_registered, name_of_id, names_of,
    registered, unknown_name,
};
pub use value::{kind_id, Field, FieldMap, ToValue, Value, ValueView};

verus! {

/// The registered kinds, and `FieldMap` for the fields that have fields of
/// their own. A field map is never looked up by id, and its id is the one that
/// stands for no type.
#[derive(Debug, Clone, Copy, PartialEq, Eq, Structural)]
pub enum TypeId {
    Bool,
    Char,
    I8,
    I16,
    I32,
    I64,
    U8,
    U16,
    U32,
    U64,
    F32,
    F64,
    Pos2d32,
    Pos2d64,
    Pos3d32,
    Pos3d64,
    Id,
    String,
    Bytes,
    SmallBytes,
    FieldMap,
}

/// The id of the kind that array lengths are stored in.
pub const ARRAY_LEN_TYPE_ID: u32 = 9;

/// The id of the kind that type codes are stored in.
pub const TYPE_CODE_TYPE_ID: u32 = 9;

/// The id of the kind that null markers are stored in.
pub const NULL_TYPE_ID: u32 = 7;

impl TypeId {
    /// The number that stands for the kind in stored records.
    pub open spec fn id(self) -> u32 {
        match self {
            TypeId::Bool => 1,
            TypeId::Char => 2,
            TypeId::I8 => 3,
            TypeId::I16 => 4,
            TypeId::I32 => 5,
            TypeId::I64 => 6,
            TypeId::U8 => 7,
            TypeId::U16 => 8,
            TypeId::U32 => 9,
            TypeId::U64 => 10,
            TypeId::F32 => 13,
            TypeId::F64 => 14,
            TypeId::Pos2d32 => 15,
            TypeId::Pos2d64 => 16,
            TypeId::Pos3d32 => 17,
            TypeId::Pos3d64 => 18,
            TypeId::Id => 19,
            TypeId::String => 20,
            TypeId::Bytes => 22,
            TypeId::SmallBytes => 23,
            TypeId::FieldMap => 0,
        }
    }
}

/// The number that stands for a kind.
pub fn type_id_of(t: TypeId) -> (id: u32)
    ensures
        id == t.id(),
{
    match t {
        TypeId::Bool => 1,
        TypeId::Char => 2,
        TypeId::I8 => 3,
        TypeId::I16 => 4,
        TypeId::I32 => 5,
        TypeId::I64 => 6,
        TypeId::U8 => 7,
        TypeId::U16 => 8,
        TypeId::U32 => 9,
        TypeId::U64 => 10,
        TypeId::F32 => 13,
        TypeId::F64 => 14,
        TypeId::Pos2d32 => 15,
        TypeId::Pos2d64 => 16,
        TypeId::Pos3d32 => 17,
        TypeId::Pos3d64 => 18,
        TypeId::Id => 19,
        TypeId::String => 20,
        TypeId::Bytes => 22,
        TypeId::SmallBytes => 23,
        TypeId::FieldMap => 0,
    }
}

/// The bytes that stand for a value in a buffer; none for a value of no
/// registered kind.
pub open spec fn encoded(v: ValueView) -> Seq<u8> {
    match v {
        ValueView::Bool(x) => bool_io::encoding(x),
        ValueView::Char(x) => char_io::encoding(x),
        ValueView::I8(x) => i8_io::encoding(x),
        ValueView::I16(x) => i16_io::encoding(x),
        ValueView::I32(x) => i32_io::encoding(x),
        ValueView::I64(x) => i64_io::encoding(x),
        ValueView::U8(x) => u8_io::encoding(x),
        ValueView::U16(x) => u16_io::encoding(x),
        ValueView::U32(x) => u32_io::encoding(x),
        ValueView::U64(x) => u64_io::encoding(x),
        ValueView::F32(x) => f32_io::encoding(x),
        ValueView::F64(x) => f64_io::encoding(x),
        ValueView::Pos2d32(x) => pos2d32_io::encoding(x),
        ValueView::Pos2d64(x) => pos2d64_io::encoding(x),
        ValueView::Pos3d32(x) => pos3d32_io::encoding(x),
        ValueView::Pos3d64(x) => pos3d64_io::encoding(x),
        ValueView::Id(x) => id_io::encoding(x),
        ValueView::String(x) => string_io::encoding(x),
        ValueView::Bytes(x) => bytes_io::encoding(x),
        ValueView::SmallBytes(x) => small_bytes_io::encoding(x),
        _ => Seq::empty(),
    }
}

/// The value of kind `id` that the bytes at `addr` stand for; `NA` for an id
/// that is not registered.
pub open spec fn decoded(id: u32, buf: Seq<u8>, addr: int) -> ValueView {
    if id == 1 {
        ValueView::Bool(bool_io::decoding(window(buf, addr, bool_io::WIDTH as int)))
    } else if id == 2 {
        ValueView::Char(char_io::decoding(window(buf, addr, char_io::WIDTH as int)))
    } else if id == 3 {
        ValueView::I8(i8_io::decoding(window(buf, addr, i8_io::WIDTH as int)))
    } else if id == 4 {
        ValueView::I16(i16_io::decoding(window(buf, addr, i16_io::WIDTH as int)))
    } else if id == 5 {
        ValueView::I32(i32_io::decoding(window(buf, addr, i32_io::WIDTH as int)))
    } else if id == 6 {
        ValueView::I64(i64_io::decoding(window(buf, addr, i64_io::WIDTH as int)))
    } else if id == 7 {
        ValueView::U8(u8_io::decoding(window(buf, addr, u8_io::WIDTH as int)))
    } else if id == 8 {
        ValueView::U16(u16_io::decoding(window(buf, addr, u16_io::WIDTH as int)))
    } else if id == 9 {
        ValueView::U32(u32_io::decoding(window(buf, addr, u32_io::WIDTH as int)))
    } else if id == 10 {
        ValueView::U64(u64_io::decoding(window(buf, addr, u64_io::WIDTH as int)))
    } else if id == 13 {
        ValueView::F32(f32_io::decoding(window(buf, addr, f32_io::WIDTH as int)))
    } else if id == 14 {
        ValueView::F64(f64_io::decoding(window(buf, addr, f64_io::WIDTH as int)))
    } else if id == 15 {
        ValueView::Pos2d32(pos2d32_io::placeholder())
    } else if id == 16 {
        ValueView::Pos2d64(pos2d64_io::placeholder())
    } else if id == 17 {
        ValueView::Pos3d32(pos3d32_io::placeholder())
    } else if id == 18 {
        ValueView::Pos3d64(pos3d64_io::placeholder())
    } else if id == 19 {
        ValueView::Id(id_io::placeholder())
    } else if id == 20 {
        ValueView::String(string_io::decoding(buf, addr))
    } else if id == 22 {
        ValueView::Bytes(bytes_io::decoding(buf, addr))
    } else if id == 23 {
        ValueView::SmallBytes(small_bytes_io::decoding(buf, addr))
    } else {
        ValueView::NA
    }
}

/// The number of bytes that the value of kind `id` at `addr` occupies; `0` for
/// an id that is not registered.
pub open spec fn stored_size(id: u32, buf: Seq<u8>, addr: int) -> nat {
    if id == 1 {
        bool_io::WIDTH as nat
    } else if id == 2 {
        char_io::WIDTH as nat
    } else if id == 3 {
        i8_io::WIDTH as nat
    } else if id == 4 {
        i16_io::WIDTH as nat
    } else if id == 5 {
        i32_io::WIDTH as nat
    } else if id == 6 {
        i64_io::WIDTH as nat
    } else if id == 7 {
        u8_io::WIDTH as nat
    } else if id == 8 {
        u16_io::WIDTH as nat
    } else if id == 9 {
        u32_io::WIDTH as nat
    } else if id == 10 {
        u64_io::WIDTH as nat
    } else if id == 13 {
        f32_io::WIDTH as nat
    } else if id == 14 {
        f64_io::WIDTH as nat
    } else if id == 15 {
        pos2d32_io::WIDTH as nat
    } else if id == 16 {
        pos2d64_io::WIDTH as nat
    } else if id == 17 {
        pos3d32_io::WIDTH as nat
    } else if id == 18 {
        pos3d64_io::WIDTH as nat
    } else if id == 19 {
        id_io::WIDTH as nat
    } else if id == 20 {
        string_io::PREFIX as nat + prefixed::stored_len(buf, addr, 4)
    } else if id == 22 {
        bytes_io::PREFIX as nat + prefixed::stored_len(buf, addr, 4)
    } else if id == 23 {
        small_bytes_io::PREFIX as nat + prefixed::stored_len(buf, addr, 1)
    } else {
        0
    }
}

/// Whether the size of the value of kind `id` at `addr` can be told: the count
/// of a record of variable length lies within the buffer. A kind of fixed size,
/// and an id that is not registered, ask nothing of the buffer.
pub open spec fn measurable(id: u32, buf: Seq<u8>, addr: int) -> bool {
    if id == 20 || id == 22 {
        prefixed::countable(buf, addr, 4)
    } else if id == 23 {
        prefixed::countable(buf, addr, 1)
    } else {
        true
    }
}

/// Whether a value of kind `id` can be read at `addr`: the bytes that it
/// occupies lie within the buffer, and text is well-formed UTF-8. A compound
/// kind, which reads as a placeholder, and an id that is not registered ask
/// nothing of the buffer.
pub open spec fn readable(id: u32, buf: Seq<u8>, addr: int) -> bool {
    if 1 <= id <= 10 || id == 13 || id == 14 {
        addr + stored_size(id, buf, addr) <= buf.len()
    } else if id == 20 {
        prefixed::readable(buf, addr, 4) && valid_utf8(prefixed::stored(buf, addr, 4))
    } else if id == 22 {
        prefixed::readable(buf, addr, 4)
    } else if id == 23 {
        prefixed::readable(buf, addr, 1)
    } else {
        true
    }
}

/// Whether `v` is a value of the registered kind `id` that fits into a buffer
/// of `len` bytes at `addr`: what [`set_val`] asks of its caller.
pub open spec fn writable(id: u32, v: ValueView, len: int, addr: int) -> bool {
    &&& registered(id)
    &&& kind_id(v) == id
    &&& addr + encoded(v).len() <= len
}

/// Whether `v` is a value of the registered kind `id` whose size the machine
/// can hold: what [`get_vsize`] asks of its caller.
pub open spec fn sizable(id: u32, v: ValueView) -> bool {
    &&& registered(id)
    &&& kind_id(v) == id
    &&& encoded(v).len() <= usize::MAX
}

/// Whether the size of the value of kind `id` at `addr` can be told.
pub fn is_measurable(id: u32, buf: &[u8], addr: usize) -> (ok: bool)
    ensures
        ok == measurable(id, buf@, addr as int),
{
    match id {
        20 => prefixed::is_countable(buf, addr, string_io::PREFIX),
        22 => prefixed::is_countable(buf, addr, bytes_io::PREFIX),
        23 => prefixed::is_countable(buf, addr, small_bytes_io::PREFIX),
        _ => true,
    }
}

/// Whether a value of kind `id` can be read at `addr`.
pub fn is_readable(id: u32, buf: &[u8], addr: usize) -> (ok: bool)
    ensures
        ok == readable(id, buf@, addr as int),
{
    assert(buf@.len() == buf.len());
    match id {
        20 => prefixed::is_readable(buf, addr, string_io::PREFIX) && string_io::holds_text(
            buf,
            addr,
        ),
        22 => prefixed::is_readable(buf, addr, bytes_io::PREFIX),
        23 => prefixed::is_readable(buf, addr, small_bytes_io::PREFIX),
        1 | 2 | 3 | 4 | 5 | 6 | 7 | 8 | 9 | 10 | 13 | 14 => {
            let size = get_size(id, buf, addr);
            addr <= buf.len() && size <= buf.len() - addr
        },
        _ => true,
    }
}

/// The number of bytes that `val` occupies once written, where the machine can
/// hold that number.
fn checked_size(val: &Value) -> (n: Option<usize>)
    ensures
        n is Some <==> encoded(val@).len() <= usize::MAX,
        n matches Some(size) ==> size == encoded(val@).len(),
{
    let (prefix, payload): (usize, usize) = match val {
        Value::Bool(x) => {
            proof {
                bool_io::lemma_encoding_len(*x);
            }
            (bool_io::WIDTH, 0)
        },
        Value::Char(x) => {
            proof {
                char_io::lemma_encoding_len(*x);
            }
            (char_io::WIDTH, 0)
        },
        Value::I8(x) => {
            proof {
                i8_io::lemma_encoding_len(*x);
            }
            (i8_io::WIDTH, 0)
        },
        Value::I16(x) => {
            proof {
                i16_io::lemma_encoding_len(*x);
            }
            (i16_io::WIDTH, 0)
        },
        Value::I32(x) => {
            proof {
                i32_io::lemma_encoding_len(*x);
            }
            (i32_io::WIDTH, 0)
        },
        Value::I64(x) => {
            proof {
                i64_io::lemma_encoding_len(*x);
            }
            (i64_io::WIDTH, 0)
        },
        Value::U8(x) => {
            proof {
                u8_io::lemma_encoding_len(*x);
            }
            (u8_io::WIDTH, 0)
        },
        Value::U16(x) => {
            proof {
                u16_io::lemma_encoding_len(*x);
            }
            (u16_io::WIDTH, 0)
        },
        Value::U32(x) => {
            proof {
                u32_io::lemma_encoding_len(*x);
            }
            (u32_io::WIDTH, 0)
        },
        Value::U64(x) => {
            proof {
                u64_io::lemma_encoding_len(*x);
            }
            (u64_io::WIDTH, 0)
        },
        Value::F32(x) => {
            proof {
                f32_io::lemma_encoding_len(*x);
            }
            (f32_io::WIDTH, 0)
        },
        Value::F64(x) => {
            proof {
                f64_io::lemma_encoding_len(*x);
            }
            (f64_io::WIDTH, 0)
        },
        Value::Pos2d32(_) => (pos2d32_io::WIDTH, 0),
        Value::Pos2d64(_) => (pos2d64_io::WIDTH, 0),
        Value::Pos3d32(_) => (pos3d32_io::WIDTH, 0),
        Value::Pos3d64(_) => (pos3d64_io::WIDTH, 0),
        Value::Id(_) => (id_io::WIDTH, 0),
        Value::String(x) => {
            proof {
                prefixed::lemma_record_len(4, encode_utf8(x@));
            }
            (string_io::PREFIX, x.as_str().as_bytes().len())
        },
        Value::Bytes(x) => {
            proof {
                prefixed::lemma_record_len(4, x@);
            }
            (bytes_io::PREFIX, x.data.len())
        },
        Value::SmallBytes(x) => {
            proof {
                prefixed::lemma_record_len(1, x@);
            }
            (small_bytes_io::PREFIX, x.data.len())
        },
        _ => (0, 0),
    };
    if payload <= usize::MAX - prefix {
        Some(prefix + payload)
    } else {
        None
    }
}

/// Whether `val` may be written as a value of kind `id` at `addr`.
pub fn is_writable(id: u32, val: &Value, buf: &[u8], addr: usize) -> (ok: bool)
    ensures
        ok == writable(id, val@, buf@.len() as int, addr as int),
{
    assert(buf@.len() == buf.len());
    if !is_registered(id) || val.type_id() != id {
        return false;
    }
    match checked_size(val) {
        Some(size) => addr <= buf.len() && size <= buf.len() - addr,
        None => false,
    }
}

/// Whether `val` may be measured as a value of kind `id`.
pub fn is_sizable(id: u32, val: &Value) -> (ok: bool)
    ensures
        ok == sizable(id, val@),
{
    is_registered(id) && val.type_id() == id && checked_size(val).is_some()
}

/// The number of bytes that the value of kind `id` at `addr` occupies; `0` for
/// an id that is not registered.
pub fn get_size(id: u32, buf: &[u8], addr: usize) -> (n: usize)
    requires
        measurable(id, buf@, addr as int),
    ensures
        n == stored_size(id, buf@, addr as int),
{
    match id {
        1 => bool_io::size(buf, addr),
        2 => char_io::size(buf, addr),
        3 => i8_io::size(buf, addr),
        4 => i16_io::size(buf, addr),
        5 => i32_io::size(buf, addr),
        6 => i64_io::size(buf, addr),
        7 => u8_io::size(buf, addr),
        8 => u16_io::size(buf, addr),
        9 => u32_io::size(buf, addr),
        10 => u64_io::size(buf, addr),
        13 => f32_io::size(buf, addr),
        14 => f64_io::size(buf, addr),
        15 => pos2d32_io::size(buf, addr),
        16 => pos2d64_io::size(buf, addr),
        17 => pos3d32_io::size(buf, addr),
        18 => pos3d64_io::size(buf, addr),
        19 => id_io::size(buf, addr),
        20 => string_io::size(buf, addr),
        22 => bytes_io::size(buf, addr),
        23 => small_bytes_io::size(buf, addr),
        _ => 0,
    }
}

/// The value of kind `id` at `addr`; `NA` for an id that is not registered.
pub fn get_val(id: u32, buf: &[u8], addr: usize) -> (v: Value)
    requires
        readable(id, buf@, addr as int),
    ensures
        v@ == decoded(id, buf@, addr as int),
{
    match id {
        1 => Value::Bool(bool_io::read(buf, addr)),
        2 => Value::Char(char_io::read(buf, addr)),
        3 => Value::I8(i8_io::read(buf, addr)),
        4 => Value::I16(i16_io::read(buf, addr)),
        5 => Value::I32(i32_io::read(buf, addr)),
        6 => Value::I64(i64_io::read(buf, addr)),
        7 => Value::U8(u8_io::read(buf, addr)),
        8 => Value::U16(u16_io::read(buf, addr)),
        9 => Value::U32(u32_io::read(buf, addr)),
        10 => Value::U64(u64_io::read(buf, addr)),
        13 => Value::F32(f32_io::read(buf, addr)),
        14 => Value::F64(f64_io::read(buf, addr)),
        15 => Value::Pos2d32(pos2d32_io::read(buf, addr)),
        16 => Value::Pos2d64(pos2d64_io::read(buf, addr)),
        17 => Value::Pos3d32(pos3d32_io::read(buf, addr)),
        18 => Value::Pos3d64(pos3d64_io::read(buf, addr)),
        19 => Value::Id(id_io::read(buf, addr)),
        20 => Value::String(string_io::read(buf, addr)),
        22 => Value::Bytes(bytes_io::read(buf, addr)),
        23 => Value::SmallBytes(small_bytes_io::read(buf, addr)),
        _ => Value::NA,
    }
}

/// Writes `val`, a value of kind `id`, at `addr`.
///
/// The id is the authority on what is stored: a value of another kind, and an
/// id that is not registered, are faults of the caller that this function does
/// not accept.
pub fn set_val(id: u32, val: &Value, buf: &mut [u8], addr: usize)
    requires
        writable(id, val@, old(buf)@.len() as int, addr as int),
    ensures
        final(buf)@ == overwrite(old(buf)@, addr as int, encoded(val@)),
{
    match val {
        Value::Bool(x) => {
            proof {
                bool_io::lemma_encoding_len(*x);
            }
            bool_io::write(*x, buf, addr)
        },
        Value::Char(x) => {
            proof {
                char_io::lemma_encoding_len(*x);
            }
            char_io::write(*x, buf, addr)
        },
        Value::I8(x) => {
            proof {
                i8_io::lemma_encoding_len(*x);
            }
            i8_io::write(*x, buf, addr)
        },
        Value::I16(x) => {
            proof {
                i16_io::lemma_encoding_len(*x);
            }
            i16_io::write(*x, buf, addr)
        },
        Value::I32(x) => {
            proof {
                i32_io::lemma_encoding_len(*x);
            }
            i32_io::write(*x, buf, addr)
        },
        Value::I64(x) => {
            proof {
                i64_io::lemma_encoding_len(*x);
            }
            i64_io::write(*x, buf, addr)
        },
        Value::U8(x) => {
            proof {
                u8_io::lemma_encoding_len(*x);
            }
            u8_io::write(*x, buf, addr)
        },
        Value::U16(x) => {
            proof {
                u16_io::lemma_encoding_len(*x);
            }
            u16_io::write(*x, buf, addr)
        },
        Value::U32(x) => {
            proof {
                u32_io::lemma_encoding_len(*x);
            }
            u32_io::write(*x, buf, addr)
        },
        Value::U64(x) => {
            proof {
                u64_io::lemma_encoding_len(*x);
            }
            u64_io::write(*x, buf, addr)
        },
        Value::F32(x) => {
            proof {
                f32_io::lemma_encoding_len(*x);
            }
            f32_io::write(*x, buf, addr)
        },
        Value::F64(x) => {
            proof {
                f64_io::lemma_encoding_len(*x);
            }
            f64_io::write(*x, buf, addr)
        },
        Value::Pos2d32(x) => pos2d32_io::write(x, buf, addr),
        Value::Pos2d64(x) => pos2d64_io::write(x, buf, addr),
        Value::Pos3d32(x) => pos3d32_io::write(x, buf, addr),
        Value::Pos3d64(x) => pos3d64_io::write(x, buf, addr),
        Value::Id(x) => id_io::write(x, buf, addr),
        Value::String(x) => {
            proof {
                prefixed::lemma_record_len(4, encode_utf8(x@));
            }
            string_io::write(x.as_str(), buf, addr)
        },
        Value::Bytes(x) => {
            proof {
                prefixed::lemma_record_len(4, x@);
            }
            bytes_io::write(x.data.as_slice(), buf, addr)
        },
        Value::SmallBytes(x) => {
            proof {
                prefixed::lemma_record_len(1, x@);
            }
            small_bytes_io::write(x.data.as_slice(), buf, addr)
        },
        _ => unreached(),
    }
}

/// The number of bytes that `val`, a value of kind `id`, occupies once written.
///
/// As for [`set_val`], a value of another kind and an id that is not registered
/// are not accepted.
pub fn get_vsize(id: u32, val: &Value) -> (n: usize)
    requires
        sizable(id, val@),
    ensures
        n == encoded(val@).len(),
{
    match val {
        Value::Bool(x) => {
            proof {
                bool_io::lemma_encoding_len(*x);
            }
            bool_io::val_size(*x)
        },
        Value::Char(x) => {
            proof {
                char_io::lemma_encoding_len(*x);
            }
            char_io::val_size(*x)
        },
        Value::I8(x) => {
            proof {
                i8_io::lemma_encoding_len(*x);
            }
            i8_io::val_size(*x)
        },
        Value::I16(x) => {
            proof {
                i16_io::lemma_encoding_len(*x);
            }
            i16_io::val_size(*x)
        },
        Value::I32(x) => {
            proof {
                i32_io::lemma_encoding_len(*x);
            }
            i32_io::val_size(*x)
        },
        Value::I64(x) => {
            proof {
                i64_io::lemma_encoding_len(*x);
            }
            i64_io::val_size(*x)
        },
        Value::U8(x) => {
            proof {
                u8_io::lemma_encoding_len(*x);
            }
            u8_io::val_size(*x)
        },
        Value::U16(x) => {
            proof {
                u16_io::lemma_encoding_len(*x);
            }
            u16_io::val_size(*x)
        },
        Value::U32(x) => {
            proof {
                u32_io::lemma_encoding_len(*x);
            }
            u32_io::val_size(*x)
        },
        Value::U64(x) => {
            proof {
                u64_io::lemma_encoding_len(*x);
            }
            u64_io::val_size(*x)
        },
        Value::F32(x) => {
            proof {
                f32_io::lemma_encoding_len(*x);
            }
            f32_io::val_size(*x)
        },
        Value::F64(x) => {
            proof {
                f64_io::lemma_encoding_len(*x);
            }
            f64_io::val_size(*x)
        },
        Value::Pos2d32(x) => pos2d32_io::val_size(x),
        Value::Pos2d64(x) => pos2d64_io::val_size(x),
        Value::Pos3d32(x) => pos3d32_io::val_size(x),
        Value::Pos3d64(x) => pos3d64_io::val_size(x),
        Value::Id(x) => id_io::val_size(x),
        Value::String(x) => {
            proof {
                prefixed::lemma_record_len(4, encode_utf8(x@));
            }
            string_io::val_size(x.as_str())
        },
        Value::Bytes(x) => {
            proof {
                prefixed::lemma_record_len(4, x@);
            }
            bytes_io::val_size(x.data.as_slice())
        },
        Value::SmallBytes(x) => {
            proof {
                prefixed::lemma_record_len(1, x@);
            }
            small_bytes_io::val_size(x.data.as_slice())
        },
        _ => unreached(),
    }
}

} // verus!
