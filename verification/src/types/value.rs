//! The tagged union over every registered kind.
use super::custom_types::{
    Bytes, Float32, Float64, Id, Pos2d32, Pos2d64, Pos3d32, Pos3d64, SmallBytes,
};
use vstd::prelude::*;

verus! {

/// One named entry of a [`FieldMap`].
#[derive(Debug, PartialEq, Eq)]
pub struct Field {
    pub name: String,
    pub value: Value,
}

/// An ordered container of named values. This layer carries it and never looks
/// inside.
#[derive(Debug, PartialEq, Eq)]
pub struct FieldMap {
    pub fields: Vec<Field>,
}

/// A value of one of the registered kinds, or one of four structural markers:
/// a field map, an array, `NA` for a value that is not available, and `Null`
/// for one that is absent.
#[derive(Debug, PartialEq, Eq)]
pub enum Value {
    Bool(bool),
    Char(char),
    I8(i8),
    I16(i16),
    I32(i32),
    I64(i64),
    U8(u8),
    U16(u16),
    U32(u32),
    U64(u64),
    F32(Float32),
    F64(Float64),
    Pos2d32(Pos2d32),
    Pos2d64(Pos2d64),
    Pos3d32(Pos3d32),
    Pos3d64(Pos3d64),
    Id(Id),
    String(String),
    Bytes(Bytes),
    SmallBytes(SmallBytes),
    FieldMap(FieldMap),
    Array(Vec<Value>),
    NA,
    Null,
}

/// What a [`Value`] is, with every owned buffer replaced by the sequence that
/// it holds.
pub enum ValueView {
    Bool(bool),
    Char(char),
    I8(i8),
    I16(i16),
    I32(i32),
    I64(i64),
    U8(u8),
    U16(u16),
    U32(u32),
    U64(u64),
    F32(Float32),
    F64(Float64),
    Pos2d32(Pos2d32),
    Pos2d64(Pos2d64),
    Pos3d32(Pos3d32),
    Pos3d64(Pos3d64),
    Id(Id),
    String(Seq<char>),
    Bytes(Seq<u8>),
    SmallBytes(Seq<u8>),
    FieldMap(Seq<(Seq<char>, ValueView)>),
    Array(Seq<ValueView>),
    NA,
    Null,
}

/// The view of a value, defined by recursion over arrays and field maps.
pub open spec fn value_view(v: Value) -> ValueView
    decreases v,
{
    match v {
        Value::Bool(b) => ValueView::Bool(b),
        Value::Char(c) => ValueView::Char(c),
        Value::I8(n) => ValueView::I8(n),
        Value::I16(n) => ValueView::I16(n),
        Value::I32(n) => ValueView::I32(n),
        Value::I64(n) => ValueView::I64(n),
        Value::U8(n) => ValueView::U8(n),
        Value::U16(n) => ValueView::U16(n),
        Value::U32(n) => ValueView::U32(n),
        Value::U64(n) => ValueView::U64(n),
        Value::F32(f) => ValueView::F32(f),
        Value::F64(f) => ValueView::F64(f),
        Value::Pos2d32(p) => ValueView::Pos2d32(p),
        Value::Pos2d64(p) => ValueView::Pos2d64(p),
        Value::Pos3d32(p) => ValueView::Pos3d32(p),
        Value::Pos3d64(p) => ValueView::Pos3d64(p),
        Value::Id(id) => ValueView::Id(id),
        Value::String(s) => ValueView::String(s@),
        Value::Bytes(b) => ValueView::Bytes(b@),
        Value::SmallBytes(b) => ValueView::SmallBytes(b@),
        Value::FieldMap(m) => ValueView::FieldMap(
            Seq::new(
                m.fields@.len(),
                |i: int|
                    if 0 <= i < m.fields@.len() {
                        (m.fields@[i].name@, value_view(m.fields@[i].value))
                    } else {
                        (Seq::empty(), ValueView::Null)
                    },
            ),
        ),
        Value::Array(items) => ValueView::Array(
            Seq::new(
                items@.len(),
                |i: int|
                    if 0 <= i < items@.len() {
                        value_view(items@[i])
                    } else {
                        ValueView::Null
                    },
            ),
        ),
        Value::NA => ValueView::NA,
        Value::Null => ValueView::Null,
    }
}

/// The id of the kind of a value; `0` for a field map, an array, `NA` and
/// `Null`, which belong to no registered kind.
pub open spec fn kind_id(v: ValueView) -> u32 {
    match v {
        ValueView::Bool(_) => 1,
        ValueView::Char(_) => 2,
        ValueView::I8(_) => 3,
        ValueView::I16(_) => 4,
        ValueView::I32(_) => 5,
        ValueView::I64(_) => 6,
        ValueView::U8(_) => 7,
        ValueView::U16(_) => 8,
        ValueView::U32(_) => 9,
        ValueView::U64(_) => 10,
        ValueView::F32(_) => 13,
        ValueView::F64(_) => 14,
        ValueView::Pos2d32(_) => 15,
        ValueView::Pos2d64(_) => 16,
        ValueView::Pos3d32(_) => 17,
        ValueView::Pos3d64(_) => 18,
        ValueView::Id(_) => 19,
        ValueView::String(_) => 20,
        ValueView::Bytes(_) => 22,
        ValueView::SmallBytes(_) => 23,
        _ => 0,
    }
}

impl View for Value {
    type V = ValueView;

    open spec fn view(&self) -> ValueView {
        value_view(*self)
    }
}

impl View for Field {
    type V = (Seq<char>, ValueView);

    open spec fn view(&self) -> (Seq<char>, ValueView) {
        (self.name@, self.value@)
    }
}

impl View for FieldMap {
    type V = Seq<(Seq<char>, ValueView)>;

    open spec fn view(&self) -> Seq<(Seq<char>, ValueView)> {
        value_view(Value::FieldMap(*self))->FieldMap_0
    }
}

/// Lifts a native value into the tagged union.
pub trait ToValue: Sized {
    /// The tagged value that `self` becomes.
    spec fn lifted(self) -> ValueView;

    /// Wraps `self` in the variant of its own kind.
    fn value(self) -> (v: Value)
        ensures
            v@ == self.lifted(),
    ;
}

impl ToValue for bool {
    open spec fn lifted(self) -> ValueView {
        ValueView::Bool(self)
    }

    fn value(self) -> (v: Value)
        ensures
            v@ == ValueView::Bool(self),
    {
        Value::Bool(self)
    }
}

/// The `Char` variant around `c`.
fn char_value(c: char) -> (v: Value)
    ensures
        v@ == ValueView::Char(c),
{
    Value::Char(c)
}

impl ToValue for char {
    open spec fn lifted(self) -> ValueView {
        ValueView::Char(self)
    }

    fn value(self) -> (v: Value)
        ensures
            v@ == ValueView::Char(self),
    {
        char_value(self)
    }
}

impl ToValue for i8 {
    open spec fn lifted(self) -> ValueView {
        ValueView::I8(self)
    }

    fn value(self) -> (v: Value)
        ensures
            v@ == ValueView::I8(self),
    {
        Value::I8(self)
    }
}

impl ToValue for i16 {
    open spec fn lifted(self) -> ValueView {
        ValueView::I16(self)
    }

    fn value(self) -> (v: Value)
        ensures
            v@ == ValueView::I16(self),
    {
        Value::I16(self)
    }
}

impl ToValue for i32 {
    open spec fn lifted(self) -> ValueView {
        ValueView::I32(self)
    }

    fn value(self) -> (v: Value)
        ensures
            v@ == ValueView::I32(self),
    {
        Value::I32(self)
    }
}

impl ToValue for i64 {
    open spec fn lifted(self) -> ValueView {
        ValueView::I64(self)
    }

    fn value(self) -> (v: Value)
        ensures
            v@ == ValueView::I64(self),
    {
        Value::I64(self)
    }
}

impl ToValue for u8 {
    open spec fn lifted(self) -> ValueView {
        ValueView::U8(self)
    }

    fn value(self) -> (v: Value)
        ensures
            v@ == ValueView::U8(self),
    {
        Value::U8(self)
    }
}

impl ToValue for u16 {
    open spec fn lifted(self) -> ValueView {
        ValueView::U16(self)
    }

    fn value(self) -> (v: Value)
        ensures
            v@ == ValueView::U16(self),
    {
        Value::U16(self)
    }
}

impl ToValue for u32 {
    open spec fn lifted(self) -> ValueView {
        ValueView::U32(self)
    }

    fn value(self) -> (v: Value)
        ensures
            v@ == ValueView::U32(self),
    {
        Value::U32(self)
    }
}

impl ToValue for u64 {
    open spec fn lifted(self) -> ValueView {
        ValueView::U64(self)
    }

    fn value(self) -> (v: Value)
        ensures
            v@ == ValueView::U64(self),
    {
        Value::U64(self)
    }
}

impl ToValue for Float32 {
    open spec fn lifted(self) -> ValueView {
        ValueView::F32(self)
    }

    fn value(self) -> (v: Value)
        ensures
            v@ == ValueView::F32(self),
    {
        Value::F32(self)
    }
}

impl ToValue for Float64 {
    open spec fn lifted(self) -> ValueView {
        ValueView::F64(self)
    }

    fn value(self) -> (v: Value)
        ensures
            v@ == ValueView::F64(self),
    {
        Value::F64(self)
    }
}

impl ToValue for Pos2d32 {
    open spec fn lifted(self) -> ValueView {
        ValueView::Pos2d32(self)
    }

    fn value(self) -> (v: Value)
        ensures
            v@ == ValueView::Pos2d32(self),
    {
        Value::Pos2d32(self)
    }
}

impl ToValue for Pos2d64 {
    open spec fn lifted(self) -> ValueView {
        ValueView::Pos2d64(self)
    }

    fn value(self) -> (v: Value)
        ensures
            v@ == ValueView::Pos2d64(self),
    {
        Value::Pos2d64(self)
    }
}

impl ToValue for Pos3d32 {
    open spec fn lifted(self) -> ValueView {
        ValueView::Pos3d32(self)
    }

    fn value(self) -> (v: Value)
        ensures
            v@ == ValueView::Pos3d32(self),
    {
        Value::Pos3d32(self)
    }
}

impl ToValue for Pos3d64 {
    open spec fn lifted(self) -> ValueView {
        ValueView::Pos3d64(self)
    }

    fn value(self) -> (v: Value)
        ensures
            v@ == ValueView::Pos3d64(self),
    {
        Value::Pos3d64(self)
    }
}

impl ToValue for Id {
    open spec fn lifted(self) -> ValueView {
        ValueView::Id(self)
    }

    fn value(self) -> (v: Value)
        ensures
            v@ == ValueView::Id(self),
    {
        Value::Id(self)
    }
}

impl ToValue for String {
    open spec fn lifted(self) -> ValueView {
        ValueView::String(self@)
    }

    fn value(self) -> (v: Value)
        ensures
            v@ == ValueView::String(self@),
    {
        Value::String(self)
    }
}

impl ToValue for Bytes {
    open spec fn lifted(self) -> ValueView {
        ValueView::Bytes(self@)
    }

    fn value(self) -> (v: Value)
        ensures
            v@ == ValueView::Bytes(self@),
    {
        Value::Bytes(self)
    }
}

impl ToValue for SmallBytes {
    open spec fn lifted(self) -> ValueView {
        ValueView::SmallBytes(self@)
    }

    fn value(self) -> (v: Value)
        ensures
            v@ == ValueView::SmallBytes(self@),
    {
        Value::SmallBytes(self)
    }
}

impl Clone for Field {
    fn clone(&self) -> (copy: Field)
        ensures
            copy@ == self@,
    {
        Field { name: self.name.clone(), value: self.value.clone() }
    }
}

impl Clone for FieldMap {
    fn clone(&self) -> (copy: FieldMap)
        ensures
            copy@ == self@,
    {
        let mut fields: Vec<Field> = Vec::new();
        let mut i: usize = 0;
        while i < self.fields.len()
            invariant
                i <= self.fields@.len(),
                fields@.len() == i,
                forall|j: int| 0 <= j < i ==> fields@[j]@ == self.fields@[j]@,
            decreases self.fields@.len() - i,
        {
            fields.push(self.fields[i].clone());
            i += 1;
        }
        let copy = FieldMap { fields };
        assert(copy@ =~= self@);
        copy
    }
}

impl Clone for Value {
    fn clone(&self) -> (copy: Value)
        ensures
            copy@ == self@,
        decreases self,
    {
        match self {
            Value::Bool(b) => Value::Bool(*b),
            Value::Char(c) => Value::Char(*c),
            Value::I8(n) => Value::I8(*n),
            Value::I16(n) => Value::I16(*n),
            Value::I32(n) => Value::I32(*n),
            Value::I64(n) => Value::I64(*n),
            Value::U8(n) => Value::U8(*n),
            Value::U16(n) => Value::U16(*n),
            Value::U32(n) => Value::U32(*n),
            Value::U64(n) => Value::U64(*n),
            Value::F32(f) => Value::F32(*f),
            Value::F64(f) => Value::F64(*f),
            Value::Pos2d32(p) => Value::Pos2d32(*p),
            Value::Pos2d64(p) => Value::Pos2d64(*p),
            Value::Pos3d32(p) => Value::Pos3d32(*p),
            Value::Pos3d64(p) => Value::Pos3d64(*p),
            Value::Id(id) => Value::Id(*id),
            Value::String(s) => Value::String(s.clone()),
            Value::Bytes(b) => Value::Bytes(b.clone()),
            Value::SmallBytes(b) => Value::SmallBytes(b.clone()),
            Value::FieldMap(m) => {
                let mut fields: Vec<Field> = Vec::new();
                let mut i: usize = 0;
                while i < m.fields.len()
                    invariant
                        *self == Value::FieldMap(*m),
                        i <= m.fields@.len(),
                        fields@.len() == i,
                        forall|j: int|
                            0 <= j < i ==> fields@[j].name@ == m.fields@[j].name@
                                && fields@[j].value@ == m.fields@[j].value@,
                    decreases m.fields@.len() - i,
                {
                    let field = &m.fields[i];
                    assert(decreases_to!(*self => self->FieldMap_0.fields@[i as int].value));
                    let value = field.value.clone();
                    fields.push(Field { name: field.name.clone(), value });
                    i += 1;
                }
                let copy = Value::FieldMap(FieldMap { fields });
                assert(copy@->FieldMap_0 =~= self@->FieldMap_0);
                copy
            },
            Value::Array(items) => {
                let mut copies: Vec<Value> = Vec::new();
                let mut i: usize = 0;
                while i < items.len()
                    invariant
                        *self == Value::Array(*items),
                        i <= items@.len(),
                        copies@.len() == i,
                        forall|j: int| 0 <= j < i ==> copies@[j]@ == items@[j]@,
                    decreases items@.len() - i,
                {
                    assert(decreases_to!(*self => self->Array_0@[i as int]));
                    let item = items[i].clone();
                    copies.push(item);
                    i += 1;
                }
                let copy = Value::Array(copies);
                assert(copy@->Array_0 =~= self@->Array_0);
                copy
            },
            Value::NA => Value::NA,
            Value::Null => Value::Null,
        }
    }
}

impl Value {
    /// The id of the value's kind; `0` for a field map, an array, `NA` and
    /// `Null`.
    pub fn type_id(&self) -> (id: u32)
        ensures
            id == kind_id(self@),
    {
        match self {
            Value::Bool(_) => 1,
            Value::Char(_) => 2,
            Value::I8(_) => 3,
            Value::I16(_) => 4,
            Value::I32(_) => 5,
            Value::I64(_) => 6,
            Value::U8(_) => 7,
            Value::U16(_) => 8,
            Value::U32(_) => 9,
            Value::U64(_) => 10,
            Value::F32(_) => 13,
            Value::F64(_) => 14,
            Value::Pos2d32(_) => 15,
            Value::Pos2d64(_) => 16,
            Value::Pos3d32(_) => 17,
            Value::Pos3d64(_) => 18,
            Value::Id(_) => 19,
            Value::String(_) => 20,
            Value::Bytes(_) => 22,
            Value::SmallBytes(_) => 23,
            _ => 0,
        }
    }
}

#[allow(non_snake_case)]
impl Value {
    /// The boolean inside, if this is a `Bool`.
    pub fn Bool(&self) -> (r: Option<bool>)
        ensures
            r == (if *self is Bool { Some(self->Bool_0) } else { None }),
    {
        match self {
            Value::Bool(v) => Some(*v),
            _ => None,
        }
    }

    /// The character inside, if this is a `Char`.
    pub fn Char(&self) -> (r: Option<char>)
        ensures
            r == (if *self is Char { Some(self->Char_0) } else { None }),
    {
        match self {
            Value::Char(v) => Some(*v),
            _ => None,
        }
    }

    /// The integer inside, if this is an `I8`.
    pub fn I8(&self) -> (r: Option<i8>)
        ensures
            r == (if *self is I8 { Some(self->I8_0) } else { None }),
    {
        match self {
            Value::I8(v) => Some(*v),
            _ => None,
        }
    }

    /// The integer inside, if this is an `I16`.
    pub fn I16(&self) -> (r: Option<i16>)
        ensures
            r == (if *self is I16 { Some(self->I16_0) } else { None }),
    {
        match self {
            Value::I16(v) => Some(*v),
            _ => None,
        }
    }

    /// The integer inside, if this is an `I32`.
    pub fn I32(&self) -> (r: Option<i32>)
        ensures
            r == (if *self is I32 { Some(self->I32_0) } else { None }),
    {
        match self {
            Value::I32(v) => Some(*v),
            _ => None,
        }
    }

    /// The integer inside, if this is an `I64`.
    pub fn I64(&self) -> (r: Option<i64>)
        ensures
            r == (if *self is I64 { Some(self->I64_0) } else { None }),
    {
        match self {
            Value::I64(v) => Some(*v),
            _ => None,
        }
    }

    /// The integer inside, if this is a `U8`.
    pub fn U8(&self) -> (r: Option<u8>)
        ensures
            r == (if *self is U8 { Some(self->U8_0) } else { None }),
    {
        match self {
            Value::U8(v) => Some(*v),
            _ => None,
        }
    }

    /// The integer inside, if this is a `U16`.
    pub fn U16(&self) -> (r: Option<u16>)
        ensures
            r == (if *self is U16 { Some(self->U16_0) } else { None }),
    {
        match self {
            Value::U16(v) => Some(*v),
            _ => None,
        }
    }

    /// The integer inside, if this is a `U32`.
    pub fn U32(&self) -> (r: Option<u32>)
        ensures
            r == (if *self is U32 { Some(self->U32_0) } else { None }),
    {
        match self {
            Value::U32(v) => Some(*v),
            _ => None,
        }
    }

    /// The integer inside, if this is a `U64`.
    pub fn U64(&self) -> (r: Option<u64>)
        ensures
            r == (if *self is U64 { Some(self->U64_0) } else { None }),
    {
        match self {
            Value::U64(v) => Some(*v),
            _ => None,
        }
    }

    /// The number inside, if this is an `F32`.
    pub fn F32(&self) -> (r: Option<Float32>)
        ensures
            r == (if *self is F32 { Some(self->F32_0) } else { None }),
    {
        match self {
            Value::F32(v) => Some(*v),
            _ => None,
        }
    }

    /// The number inside, if this is an `F64`.
    pub fn F64(&self) -> (r: Option<Float64>)
        ensures
            r == (if *self is F64 { Some(self->F64_0) } else { None }),
    {
        match self {
            Value::F64(v) => Some(*v),
            _ => None,
        }
    }

    /// The point inside, if this is a `Pos2d32`.
    pub fn Pos2d32(&self) -> (r: Option<&Pos2d32>)
        ensures
            r == (if *self is Pos2d32 { Some(&self->Pos2d32_0) } else { None }),
    {
        match self {
            Value::Pos2d32(v) => Some(v),
            _ => None,
        }
    }

    /// The point inside, if this is a `Pos2d64`.
    pub fn Pos2d64(&self) -> (r: Option<&Pos2d64>)
        ensures
            r == (if *self is Pos2d64 { Some(&self->Pos2d64_0) } else { None }),
    {
        match self {
            Value::Pos2d64(v) => Some(v),
            _ => None,
        }
    }

    /// The point inside, if this is a `Pos3d32`.
    pub fn Pos3d32(&self) -> (r: Option<&Pos3d32>)
        ensures
            r == (if *self is Pos3d32 { Some(&self->Pos3d32_0) } else { None }),
    {
        match self {
            Value::Pos3d32(v) => Some(v),
            _ => None,
        }
    }

    /// The point inside, if this is a `Pos3d64`.
    pub fn Pos3d64(&self) -> (r: Option<&Pos3d64>)
        ensures
            r == (if *self is Pos3d64 { Some(&self->Pos3d64_0) } else { None }),
    {
        match self {
            Value::Pos3d64(v) => Some(v),
            _ => None,
        }
    }

    /// The identifier inside, if this is an `Id`.
    pub fn Id(&self) -> (r: Option<&Id>)
        ensures
            r == (if *self is Id { Some(&self->Id_0) } else { None }),
    {
        match self {
            Value::Id(v) => Some(v),
            _ => None,
        }
    }

    /// The text inside, if this is a `String`.
    pub fn String(&self) -> (r: Option<&String>)
        ensures
            r == (if *self is String { Some(&self->String_0) } else { None }),
    {
        match self {
            Value::String(v) => Some(v),
            _ => None,
        }
    }

    /// The byte string inside, if this is a `Bytes`.
    pub fn Bytes(&self) -> (r: Option<&Bytes>)
        ensures
            r == (if *self is Bytes { Some(&self->Bytes_0) } else { None }),
    {
        match self {
            Value::Bytes(v) => Some(v),
            _ => None,
        }
    }

    /// The byte string inside, if this is a `SmallBytes`.
    pub fn SmallBytes(&self) -> (r: Option<&SmallBytes>)
        ensures
            r == (if *self is SmallBytes { Some(&self->SmallBytes_0) } else { None }),
    {
        match self {
            Value::SmallBytes(v) => Some(v),
            _ => None,
        }
    }

    /// The field map inside, if this is a `FieldMap`.
    pub fn FieldMap(&self) -> (r: Option<&FieldMap>)
        ensures
            r == (if *self is FieldMap { Some(&self->FieldMap_0) } else { None }),
    {
        match self {
            Value::FieldMap(v) => Some(v),
            _ => None,
        }
    }
}

} // verus!
