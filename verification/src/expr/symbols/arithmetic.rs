//! Arithmetic over tagged values.
//!
//! Each reduction looks at the first operand to choose one of the ten numeric
//! kinds, demands that every other operand is a literal of that same kind, and
//! folds the operator over the operands from left to right. Nothing is widened
//! or coerced: operands of two kinds are a failure, whatever they hold.
//!
//! Integer kinds are folded here. Operands of a floating-point kind are checked
//! here and handed back in order, for the caller to fold in hardware
//! arithmetic.
use crate::expr::SExpr;
use crate::types::{Float32, Float64, Value};
use vstd::pervasive::unreached;
use vstd::prelude::*;
use vstd::string::StringExecFns;

verus! {

/// The kinds of value that arithmetic accepts.
#[derive(Debug, Clone, Copy, PartialEq, Eq, Structural)]
pub enum NumKind {
    U8,
    U16,
    U32,
    U64,
    I8,
    I16,
    I32,
    I64,
    F32,
    F64,
}

/// The binary operators that a reduction folds.
#[derive(Debug, Clone, Copy, PartialEq, Eq, Structural)]
pub enum Operator {
    Add,
    Subtract,
    Multiply,
    Divide,
}

/// What a reduction yields when its operands are of one numeric kind.
#[derive(Debug, PartialEq, Eq)]
pub enum Reduction {
    /// The operands were integers: the literal that they fold to.
    Done(SExpr),
    /// The operands were all `F32`: the operands themselves, in order.
    Single(Vec<Float32>),
    /// The operands were all `F64`: the operands themselves, in order.
    Double(Vec<Float64>),
}

impl NumKind {
    /// Whether the kind is one of the eight integer kinds.
    pub open spec fn is_integer(self) -> bool {
        !(self is F32) && !(self is F64)
    }

    /// The least value of an integer kind.
    pub open spec fn least(self) -> int {
        match self {
            NumKind::I8 => -0x80,
            NumKind::I16 => -0x8000,
            NumKind::I32 => -0x8000_0000,
            NumKind::I64 => -0x8000_0000_0000_0000,
            _ => 0,
        }
    }

    /// The greatest value of an integer kind.
    pub open spec fn greatest(self) -> int {
        match self {
            NumKind::U8 => 0xff,
            NumKind::U16 => 0xffff,
            NumKind::U32 => 0xffff_ffff,
            NumKind::U64 => 0xffff_ffff_ffff_ffff,
            NumKind::I8 => 0x7f,
            NumKind::I16 => 0x7fff,
            NumKind::I32 => 0x7fff_ffff,
            NumKind::I64 => 0x7fff_ffff_ffff_ffff,
            _ => 0,
        }
    }

    /// Whether `n` is a value of this integer kind.
    pub open spec fn holds(self, n: int) -> bool {
        self.least() <= n <= self.greatest()
    }

    /// The name of the kind's variant, as messages write it.
    pub open spec fn label(self) -> Seq<char> {
        match self {
            NumKind::U8 => "Value::U8"@,
            NumKind::U16 => "Value::U16"@,
            NumKind::U32 => "Value::U32"@,
            NumKind::U64 => "Value::U64"@,
            NumKind::I8 => "Value::I8"@,
            NumKind::I16 => "Value::I16"@,
            NumKind::I32 => "Value::I32"@,
            NumKind::I64 => "Value::I64"@,
            NumKind::F32 => "Value::F32"@,
            NumKind::F64 => "Value::F64"@,
        }
    }

    /// The name of the kind's variant.
    pub fn name(self) -> (s: &'static str)
        ensures
            s@ == self.label(),
    {
        match self {
            NumKind::U8 => "Value::U8",
            NumKind::U16 => "Value::U16",
            NumKind::U32 => "Value::U32",
            NumKind::U64 => "Value::U64",
            NumKind::I8 => "Value::I8",
            NumKind::I16 => "Value::I16",
            NumKind::I32 => "Value::I32",
            NumKind::I64 => "Value::I64",
            NumKind::F32 => "Value::F32",
            NumKind::F64 => "Value::F64",
        }
    }
}

impl Operator {
    /// How the failure for an operand that is no number begins.
    pub open spec fn refusal(self) -> Seq<char> {
        match self {
            Operator::Add => "Type cannot be added: "@,
            Operator::Subtract => "Type cannot be subtracted: "@,
            Operator::Multiply => "Type cannot be multiplied: "@,
            Operator::Divide => "Type cannot be divided: "@,
        }
    }
}

/// The numeric kind of an operand; `None` for a literal of another kind and for
/// every form that is no literal.
pub open spec fn kind_of(e: SExpr) -> Option<NumKind> {
    match e {
        SExpr::Value(Value::U8(_)) => Some(NumKind::U8),
        SExpr::Value(Value::U16(_)) => Some(NumKind::U16),
        SExpr::Value(Value::U32(_)) => Some(NumKind::U32),
        SExpr::Value(Value::U64(_)) => Some(NumKind::U64),
        SExpr::Value(Value::I8(_)) => Some(NumKind::I8),
        SExpr::Value(Value::I16(_)) => Some(NumKind::I16),
        SExpr::Value(Value::I32(_)) => Some(NumKind::I32),
        SExpr::Value(Value::I64(_)) => Some(NumKind::I64),
        SExpr::Value(Value::F32(_)) => Some(NumKind::F32),
        SExpr::Value(Value::F64(_)) => Some(NumKind::F64),
        _ => None,
    }
}

/// The number inside an integer literal; `0` for everything else.
pub open spec fn int_of(e: SExpr) -> int {
    match e {
        SExpr::Value(Value::U8(n)) => n as int,
        SExpr::Value(Value::U16(n)) => n as int,
        SExpr::Value(Value::U32(n)) => n as int,
        SExpr::Value(Value::U64(n)) => n as int,
        SExpr::Value(Value::I8(n)) => n as int,
        SExpr::Value(Value::I16(n)) => n as int,
        SExpr::Value(Value::I32(n)) => n as int,
        SExpr::Value(Value::I64(n)) => n as int,
        _ => 0,
    }
}

/// The integer literal of `kind` that holds `n`.
pub open spec fn literal(kind: NumKind, n: int) -> SExpr {
    match kind {
        NumKind::U8 => SExpr::Value(Value::U8(n as u8)),
        NumKind::U16 => SExpr::Value(Value::U16(n as u16)),
        NumKind::U32 => SExpr::Value(Value::U32(n as u32)),
        NumKind::U64 => SExpr::Value(Value::U64(n as u64)),
        NumKind::I8 => SExpr::Value(Value::I8(n as i8)),
        NumKind::I16 => SExpr::Value(Value::I16(n as i16)),
        NumKind::I32 => SExpr::Value(Value::I32(n as i32)),
        _ => SExpr::Value(Value::I64(n as i64)),
    }
}

/// The name of an operand's variant, as messages write it.
pub open spec fn label(e: SExpr) -> Seq<char> {
    match e {
        SExpr::Value(Value::Bool(_)) => "Value::Bool"@,
        SExpr::Value(Value::Char(_)) => "Value::Char"@,
        SExpr::Value(Value::I8(_)) => "Value::I8"@,
        SExpr::Value(Value::I16(_)) => "Value::I16"@,
        SExpr::Value(Value::I32(_)) => "Value::I32"@,
        SExpr::Value(Value::I64(_)) => "Value::I64"@,
        SExpr::Value(Value::U8(_)) => "Value::U8"@,
        SExpr::Value(Value::U16(_)) => "Value::U16"@,
        SExpr::Value(Value::U32(_)) => "Value::U32"@,
        SExpr::Value(Value::U64(_)) => "Value::U64"@,
        SExpr::Value(Value::F32(_)) => "Value::F32"@,
        SExpr::Value(Value::F64(_)) => "Value::F64"@,
        SExpr::Value(Value::Pos2d32(_)) => "Value::Pos2d32"@,
        SExpr::Value(Value::Pos2d64(_)) => "Value::Pos2d64"@,
        SExpr::Value(Value::Pos3d32(_)) => "Value::Pos3d32"@,
        SExpr::Value(Value::Pos3d64(_)) => "Value::Pos3d64"@,
        SExpr::Value(Value::Id(_)) => "Value::Id"@,
        SExpr::Value(Value::String(_)) => "Value::String"@,
        SExpr::Value(Value::Bytes(_)) => "Value::Bytes"@,
        SExpr::Value(Value::SmallBytes(_)) => "Value::SmallBytes"@,
        SExpr::Value(Value::FieldMap(_)) => "Value::FieldMap"@,
        SExpr::Value(Value::Array(_)) => "Value::Array"@,
        SExpr::Value(Value::NA) => "Value::NA"@,
        SExpr::Value(Value::Null) => "Value::Null"@,
        SExpr::Symbol(_) => "Symbol"@,
        SExpr::List(_) => "List"@,
    }
}

/// The quotient of `a` by `b`, rounded towards zero.
pub open spec fn trunc_div(a: int, b: int) -> int {
    if a >= 0 && b > 0 {
        a / b
    } else if a < 0 && b < 0 {
        (-a) / (-b)
    } else if a < 0 {
        -((-a) / b)
    } else {
        -(a / (-b))
    }
}

/// One application of an operator, over the mathematical integers.
pub open spec fn apply(op: Operator, a: int, b: int) -> int {
    match op {
        Operator::Add => a + b,
        Operator::Subtract => a - b,
        Operator::Multiply => a * b,
        Operator::Divide => trunc_div(a, b),
    }
}

/// The operator folded from the left over the first `n` operands.
pub open spec fn fold(op: Operator, values: Seq<SExpr>, n: nat) -> int
    decreases n,
{
    if n <= 1 {
        int_of(values[0])
    } else {
        apply(op, fold(op, values, (n - 1) as nat), int_of(values[n - 1]))
    }
}

/// Whether every operand is a literal of `kind`.
pub open spec fn uniform(values: Seq<SExpr>, kind: NumKind) -> bool {
    forall|i: int| 0 <= i < values.len() ==> kind_of(#[trigger] values[i]) == Some(kind)
}

/// The position, from `from` on, of the first operand that is no literal of
/// `kind`; the number of operands if there is none.
pub open spec fn first_other(values: Seq<SExpr>, kind: NumKind, from: int) -> int
    decreases values.len() - from,
{
    if from < 0 || from >= values.len() {
        values.len() as int
    } else if kind_of(values[from]) != Some(kind) {
        from
    } else {
        first_other(values, kind, from + 1)
    }
}

/// Whether folding `operand` into `acc` stays within `kind` and divides by no
/// zero.
pub open spec fn step_defined(op: Operator, kind: NumKind, acc: int, operand: int) -> bool {
    &&& op is Divide ==> operand != 0
    &&& kind.holds(apply(op, acc, operand))
}

/// Whether the reduction of `values` is free of arithmetic faults: where the
/// operands are integers of one kind, every step of the fold is defined.
/// Operands that are refused, and floating-point operands, are always in order.
pub open spec fn defined(op: Operator, values: Seq<SExpr>) -> bool {
    values.len() > 0 ==> match kind_of(values[0]) {
        Some(kind) => kind.is_integer() && uniform(values, kind) ==> forall|n: nat|
            1 <= n < values.len() ==> step_defined(
                op,
                kind,
                #[trigger] fold(op, values, n),
                int_of(values[n as int]),
            ),
        None => true,
    }
}

/// The failure for an empty list of operands.
pub open spec fn empty_message() -> Seq<char> {
    "Cannot do reduce on values"@
}

/// The failure for a first operand that is no number.
pub open spec fn refusal_message(op: Operator, found: SExpr) -> Seq<char> {
    op.refusal() + label(found)
}

/// The failure for an operand whose kind is not that of the first.
pub open spec fn mismatch_message(expected: NumKind, found: SExpr) -> Seq<char> {
    "Type not match, expect "@ + expected.label() + " found "@ + label(found)
}

/// The failure for a value that cannot be increased.
pub open spec fn increase_message(found: SExpr) -> Seq<char> {
    "Type cannot be increased: "@ + label(found)
}

/// The bit patterns of `F32` operands, in order.
pub open spec fn singles(values: Seq<SExpr>) -> Seq<Float32> {
    Seq::new(values.len(), |i: int| values[i]->Value_0->F32_0)
}

/// The bit patterns of `F64` operands, in order.
pub open spec fn doubles(values: Seq<SExpr>) -> Seq<Float64> {
    Seq::new(values.len(), |i: int| values[i]->Value_0->F64_0)
}

/// What the reduction of `values` by `op` results in.
///
/// - No operand: a failure.
/// - A first operand that is no number: a failure that names it.
/// - An operand of another kind than the first: a failure that names the kind
///   of the first operand and the first operand that differs.
/// - Integers of one kind: the literal of that kind that holds the fold.
/// - Floating-point numbers of one kind: the operands.
pub open spec fn reduces_to(
    op: Operator,
    values: Seq<SExpr>,
    result: Result<Reduction, String>,
) -> bool {
    if values.len() == 0 {
        result matches Err(e) && e@ == empty_message()
    } else {
        match kind_of(values[0]) {
            None => result matches Err(e) && e@ == refusal_message(op, values[0]),
            Some(kind) => if !uniform(values, kind) {
                result matches Err(e) && e@ == mismatch_message(
                    kind,
                    values[first_other(values, kind, 0)],
                )
            } else {
                match kind {
                    NumKind::F32 => result matches Ok(Reduction::Single(operands)) && operands@
                        == singles(values),
                    NumKind::F64 => result matches Ok(Reduction::Double(operands)) && operands@
                        == doubles(values),
                    _ => result == Ok::<Reduction, String>(
                        Reduction::Done(literal(kind, fold(op, values, values.len()))),
                    ),
                }
            },
        }
    }
}

/// Whether `value` may be increased: an integer literal is not the greatest of
/// its kind. Everything else is refused, and so in order.
pub open spec fn increase_defined(value: SExpr) -> bool {
    kind_of(value) matches Some(kind) ==> kind.is_integer() ==> int_of(value) < kind.greatest()
}

/// What increasing `value` results in: the next integer of the same kind for
/// an integer literal, a failure that names the operand for everything else.
pub open spec fn increases_to(value: SExpr, result: Result<SExpr, String>) -> bool {
    match kind_of(value) {
        Some(kind) if kind.is_integer() => result == Ok::<SExpr, String>(
            literal(kind, int_of(value) + 1),
        ),
        _ => result matches Err(e) && e@ == increase_message(value),
    }
}

/// The numeric kind of an operand.
pub fn numeric_kind(e: &SExpr) -> (kind: Option<NumKind>)
    ensures
        kind == kind_of(*e),
{
    match e {
        SExpr::Value(Value::U8(_)) => Some(NumKind::U8),
        SExpr::Value(Value::U16(_)) => Some(NumKind::U16),
        SExpr::Value(Value::U32(_)) => Some(NumKind::U32),
        SExpr::Value(Value::U64(_)) => Some(NumKind::U64),
        SExpr::Value(Value::I8(_)) => Some(NumKind::I8),
        SExpr::Value(Value::I16(_)) => Some(NumKind::I16),
        SExpr::Value(Value::I32(_)) => Some(NumKind::I32),
        SExpr::Value(Value::I64(_)) => Some(NumKind::I64),
        SExpr::Value(Value::F32(_)) => Some(NumKind::F32),
        SExpr::Value(Value::F64(_)) => Some(NumKind::F64),
        _ => None,
    }
}

/// The name of an operand's variant.
pub fn operand_name(e: &SExpr) -> (s: &'static str)
    ensures
        s@ == label(*e),
{
    match e {
        SExpr::Value(Value::Bool(_)) => "Value::Bool",
        SExpr::Value(Value::Char(_)) => "Value::Char",
        SExpr::Value(Value::I8(_)) => "Value::I8",
        SExpr::Value(Value::I16(_)) => "Value::I16",
        SExpr::Value(Value::I32(_)) => "Value::I32",
        SExpr::Value(Value::I64(_)) => "Value::I64",
        SExpr::Value(Value::U8(_)) => "Value::U8",
        SExpr::Value(Value::U16(_)) => "Value::U16",
        SExpr::Value(Value::U32(_)) => "Value::U32",
        SExpr::Value(Value::U64(_)) => "Value::U64",
        SExpr::Value(Value::F32(_)) => "Value::F32",
        SExpr::Value(Value::F64(_)) => "Value::F64",
        SExpr::Value(Value::Pos2d32(_)) => "Value::Pos2d32",
        SExpr::Value(Value::Pos2d64(_)) => "Value::Pos2d64",
        SExpr::Value(Value::Pos3d32(_)) => "Value::Pos3d32",
        SExpr::Value(Value::Pos3d64(_)) => "Value::Pos3d64",
        SExpr::Value(Value::Id(_)) => "Value::Id",
        SExpr::Value(Value::String(_)) => "Value::String",
        SExpr::Value(Value::Bytes(_)) => "Value::Bytes",
        SExpr::Value(Value::SmallBytes(_)) => "Value::SmallBytes",
        SExpr::Value(Value::FieldMap(_)) => "Value::FieldMap",
        SExpr::Value(Value::Array(_)) => "Value::Array",
        SExpr::Value(Value::NA) => "Value::NA",
        SExpr::Value(Value::Null) => "Value::Null",
        SExpr::Symbol(_) => "Symbol",
        SExpr::List(_) => "List",
    }
}

/// The number inside an integer literal.
fn integer_of(e: &SExpr) -> (n: i128)
    ensures
        n == int_of(*e),
{
    match e {
        SExpr::Value(Value::U8(n)) => *n as i128,
        SExpr::Value(Value::U16(n)) => *n as i128,
        SExpr::Value(Value::U32(n)) => *n as i128,
        SExpr::Value(Value::U64(n)) => *n as i128,
        SExpr::Value(Value::I8(n)) => *n as i128,
        SExpr::Value(Value::I16(n)) => *n as i128,
        SExpr::Value(Value::I32(n)) => *n as i128,
        SExpr::Value(Value::I64(n)) => *n as i128,
        _ => 0,
    }
}

/// The integer literal of `kind` that holds `n`.
fn integer_literal(kind: NumKind, n: i128) -> (e: SExpr)
    requires
        kind.is_integer(),
        kind.holds(n as int),
    ensures
        e == literal(kind, n as int),
{
    match kind {
        NumKind::U8 => SExpr::Value(Value::U8(n as u8)),
        NumKind::U16 => SExpr::Value(Value::U16(n as u16)),
        NumKind::U32 => SExpr::Value(Value::U32(n as u32)),
        NumKind::U64 => SExpr::Value(Value::U64(n as u64)),
        NumKind::I8 => SExpr::Value(Value::I8(n as i8)),
        NumKind::I16 => SExpr::Value(Value::I16(n as i16)),
        NumKind::I32 => SExpr::Value(Value::I32(n as i32)),
        _ => SExpr::Value(Value::I64(n as i64)),
    }
}

/// Whether `n` is a value of the integer kind `kind`.
fn in_kind(kind: NumKind, n: i128) -> (within: bool)
    ensures
        within == kind.holds(n as int),
{
    match kind {
        NumKind::U8 => 0 <= n && n <= 0xff,
        NumKind::U16 => 0 <= n && n <= 0xffff,
        NumKind::U32 => 0 <= n && n <= 0xffff_ffff,
        NumKind::U64 => 0 <= n && n <= 0xffff_ffff_ffff_ffff,
        NumKind::I8 => -0x80 <= n && n <= 0x7f,
        NumKind::I16 => -0x8000 <= n && n <= 0x7fff,
        NumKind::I32 => -0x8000_0000 <= n && n <= 0x7fff_ffff,
        NumKind::I64 => -0x8000_0000_0000_0000 <= n && n <= 0x7fff_ffff_ffff_ffff,
        _ => n == 0,
    }
}

/// One application of an operator to two integers of `kind`, where it is
/// defined.
fn checked_step(op: Operator, kind: NumKind, acc: i128, operand: i128) -> (r: Option<i128>)
    requires
        kind.is_integer(),
        kind.holds(acc as int),
        kind.holds(operand as int),
    ensures
        r is Some <==> step_defined(op, kind, acc as int, operand as int),
        r matches Some(x) ==> x == apply(op, acc as int, operand as int),
{
    let raw = match op {
        Operator::Add => Some(acc + operand),
        Operator::Subtract => Some(acc - operand),
        Operator::Multiply => acc.checked_mul(operand),
        Operator::Divide => if operand == 0 {
            None
        } else {
            acc.checked_div(operand)
        },
    };
    match raw {
        Some(x) => if in_kind(kind, x) {
            Some(x)
        } else {
            None
        },
        None => None,
    }
}

/// The failure for a first operand that is no number.
fn refusal(op: Operator, found: &SExpr) -> (e: String)
    ensures
        e@ == refusal_message(op, *found),
{
    let start = match op {
        Operator::Add => "Type cannot be added: ",
        Operator::Subtract => "Type cannot be subtracted: ",
        Operator::Multiply => "Type cannot be multiplied: ",
        Operator::Divide => "Type cannot be divided: ",
    };
    String::from_str(start).concat(operand_name(found))
}

/// The failure for an operand whose kind is not that of the first.
fn mismatch(expected: NumKind, found: &SExpr) -> (e: String)
    ensures
        e@ == mismatch_message(expected, *found),
{
    String::from_str("Type not match, expect ").concat(expected.name()).concat(" found ").concat(
        operand_name(found),
    )
}

/// Folds `op` over integer operands of one kind.
fn fold_integers(op: Operator, kind: NumKind, values: &Vec<SExpr>) -> (e: SExpr)
    requires
        values@.len() > 0,
        kind.is_integer(),
        uniform(values@, kind),
        defined(op, values@),
    ensures
        e == literal(kind, fold(op, values@, values@.len())),
{
    let mut acc = integer_of(&values[0]);
    let mut n: usize = 1;
    assert(kind_of(values@[0]) == Some(kind));
    while n < values.len()
        invariant
            1 <= n <= values@.len(),
            kind.is_integer(),
            uniform(values@, kind),
            defined(op, values@),
            acc == fold(op, values@, n as nat),
            kind.holds(acc as int),
        decreases values@.len() - n,
    {
        assert(kind_of(values@[0]) == Some(kind));
        assert(kind_of(values@[n as int]) == Some(kind));
        assert(step_defined(op, kind, fold(op, values@, n as nat), int_of(values@[n as int])));
        let operand = integer_of(&values[n]);
        acc = match checked_step(op, kind, acc, operand) {
            Some(next) => next,
            None => unreached(),
        };
        n += 1;
    }
    integer_literal(kind, acc)
}

/// Whether the reduction of `values` by `op` is free of arithmetic faults, and
/// so may be asked for.
pub fn is_defined(op: Operator, values: &Vec<SExpr>) -> (ok: bool)
    ensures
        ok == defined(op, values@),
{
    if values.len() == 0 {
        return true;
    }
    let kind = match numeric_kind(&values[0]) {
        Some(kind) => kind,
        None => {
            return true;
        },
    };
    match kind {
        NumKind::F32 => {
            return true;
        },
        NumKind::F64 => {
            return true;
        },
        _ => {},
    }
    let mut i: usize = 0;
    while i < values.len()
        invariant
            i <= values@.len(),
            kind_of(values@[0]) == Some(kind),
            forall|j: int| 0 <= j < i ==> kind_of(#[trigger] values@[j]) == Some(kind),
        decreases values@.len() - i,
    {
        let same = match numeric_kind(&values[i]) {
            Some(found) => found == kind,
            None => false,
        };
        if !same {
            assert(kind_of(values@[i as int]) != Some(kind));
            return true;
        }
        i += 1;
    }
    let mut acc = integer_of(&values[0]);
    let mut n: usize = 1;
    while n < values.len()
        invariant
            1 <= n <= values@.len(),
            kind.is_integer(),
            kind_of(values@[0]) == Some(kind),
            uniform(values@, kind),
            acc == fold(op, values@, n as nat),
            kind.holds(acc as int),
            forall|m: nat|
                1 <= m < n ==> step_defined(
                    op,
                    kind,
                    #[trigger] fold(op, values@, m),
                    int_of(values@[m as int]),
                ),
        decreases values@.len() - n,
    {
        assert(kind_of(values@[n as int]) == Some(kind));
        let operand = integer_of(&values[n]);
        match checked_step(op, kind, acc, operand) {
            Some(next) => {
                acc = next;
            },
            None => {
                assert(!step_defined(
                    op,
                    kind,
                    fold(op, values@, n as nat),
                    int_of(values@[n as int]),
                ));
                return false;
            },
        }
        n += 1;
    }
    true
}

/// Reduces `values` by `op`. The four public reductions are this function at
/// one operator each.
pub fn reduce(op: Operator, values: Vec<SExpr>) -> (result: Result<Reduction, String>)
    requires
        defined(op, values@),
    ensures
        reduces_to(op, values@, result),
{
    if values.len() == 0 {
        return Err(String::from_str("Cannot do reduce on values"));
    }
    let kind = match numeric_kind(&values[0]) {
        Some(kind) => kind,
        None => {
            return Err(refusal(op, &values[0]));
        },
    };
    let mut i: usize = 0;
    while i < values.len()
        invariant
            i <= values@.len(),
            kind_of(values@[0]) == Some(kind),
            forall|j: int| 0 <= j < i ==> kind_of(#[trigger] values@[j]) == Some(kind),
            first_other(values@, kind, 0) == first_other(values@, kind, i as int),
        decreases values@.len() - i,
    {
        let same = match numeric_kind(&values[i]) {
            Some(found) => found == kind,
            None => false,
        };
        if !same {
            assert(kind_of(values@[i as int]) != Some(kind));
            assert(first_other(values@, kind, i as int) == i);
            return Err(mismatch(kind, &values[i]));
        }
        assert(first_other(values@, kind, i as int) == first_other(values@, kind, i + 1));
        i += 1;
    }
    match kind {
        NumKind::F32 => {
            let mut operands: Vec<Float32> = Vec::new();
            let mut k: usize = 0;
            while k < values.len()
                invariant
                    k <= values@.len(),
                    uniform(values@, NumKind::F32),
                    operands@ == singles(values@).subrange(0, k as int),
                decreases values@.len() - k,
            {
                assert(kind_of(values@[k as int]) == Some(NumKind::F32));
                match &values[k] {
                    SExpr::Value(Value::F32(f)) => {
                        operands.push(*f);
                    },
                    _ => {},
                }
                k += 1;
                assert(operands@ =~= singles(values@).subrange(0, k as int));
            }
            assert(singles(values@).subrange(0, k as int) =~= singles(values@));
            Ok(Reduction::Single(operands))
        },
        NumKind::F64 => {
            let mut operands: Vec<Float64> = Vec::new();
            let mut k: usize = 0;
            while k < values.len()
                invariant
                    k <= values@.len(),
                    uniform(values@, NumKind::F64),
                    operands@ == doubles(values@).subrange(0, k as int),
                decreases values@.len() - k,
            {
                assert(kind_of(values@[k as int]) == Some(NumKind::F64));
                match &values[k] {
                    SExpr::Value(Value::F64(f)) => {
                        operands.push(*f);
                    },
                    _ => {},
                }
                k += 1;
                assert(operands@ =~= doubles(values@).subrange(0, k as int));
            }
            assert(doubles(values@).subrange(0, k as int) =~= doubles(values@));
            Ok(Reduction::Double(operands))
        },
        _ => Ok(Reduction::Done(fold_integers(op, kind, &values))),
    }
}

/// Adds the operands up, from left to right.
pub fn add(values: Vec<SExpr>) -> (result: Result<Reduction, String>)
    requires
        defined(Operator::Add, values@),
    ensures
        reduces_to(Operator::Add, values@, result),
{
    reduce(Operator::Add, values)
}

/// Subtracts every later operand from the first, from left to right.
pub fn subtract(values: Vec<SExpr>) -> (result: Result<Reduction, String>)
    requires
        defined(Operator::Subtract, values@),
    ensures
        reduces_to(Operator::Subtract, values@, result),
{
    reduce(Operator::Subtract, values)
}

/// Multiplies the operands, from left to right.
pub fn multiply(values: Vec<SExpr>) -> (result: Result<Reduction, String>)
    requires
        defined(Operator::Multiply, values@),
    ensures
        reduces_to(Operator::Multiply, values@, result),
{
    reduce(Operator::Multiply, values)
}

/// Divides the first operand by every later one, from left to right. Integers
/// divide towards zero.
pub fn divide(values: Vec<SExpr>) -> (result: Result<Reduction, String>)
    requires
        defined(Operator::Divide, values@),
    ensures
        reduces_to(Operator::Divide, values@, result),
{
    reduce(Operator::Divide, values)
}

/// Whether `value` may be increased.
pub fn can_increase(value: &SExpr) -> (ok: bool)
    ensures
        ok == increase_defined(*value),
{
    match numeric_kind(value) {
        Some(kind) => match kind {
            NumKind::F32 => true,
            NumKind::F64 => true,
            _ => in_kind(kind, integer_of(value) + 1),
        },
        None => true,
    }
}

/// The integer after the one that `value` holds, in the same kind.
pub fn inc(value: SExpr) -> (result: Result<SExpr, String>)
    requires
        increase_defined(value),
    ensures
        increases_to(value, result),
{
    match value {
        SExpr::Value(Value::U8(v)) => Ok(SExpr::Value(Value::U8(v + 1))),
        SExpr::Value(Value::U16(v)) => Ok(SExpr::Value(Value::U16(v + 1))),
        SExpr::Value(Value::U32(v)) => Ok(SExpr::Value(Value::U32(v + 1))),
        SExpr::Value(Value::U64(v)) => Ok(SExpr::Value(Value::U64(v + 1))),
        SExpr::Value(Value::I8(v)) => Ok(SExpr::Value(Value::I8(v + 1))),
        SExpr::Value(Value::I16(v)) => Ok(SExpr::Value(Value::I16(v + 1))),
        SExpr::Value(Value::I32(v)) => Ok(SExpr::Value(Value::I32(v + 1))),
        SExpr::Value(Value::I64(v)) => Ok(SExpr::Value(Value::I64(v + 1))),
        other => Err(String::from_str("Type cannot be increased: ").concat(operand_name(&other))),
    }
}

} // verus!
