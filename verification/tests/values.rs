use value_types::expr::SExpr;
use value_types::types::{
    Bytes, Field, FieldMap, Float32, Float64, Id, Pos2d32, Pos2d64, Pos3d32, Pos3d64, SmallBytes,
    ToValue, Value,
};

fn nested() -> Value {
    Value::Array(vec![
        Value::U8(1),
        Value::String("two".to_string()),
        Value::FieldMap(FieldMap {
            fields: vec![
                Field { name: "a".to_string(), value: Value::Null },
                Field {
                    name: "b".to_string(),
                    value: Value::Array(vec![Value::NA, Value::Bytes(Bytes { data: vec![1, 2] })]),
                },
            ],
        }),
    ])
}

#[test]
fn native_values_lift_to_their_variant() {
    assert_eq!(true.value(), Value::Bool(true));
    assert_eq!('x'.value(), Value::Char('x'));
    assert_eq!((-1i8).value(), Value::I8(-1));
    assert_eq!((-2i16).value(), Value::I16(-2));
    assert_eq!((-3i32).value(), Value::I32(-3));
    assert_eq!((-4i64).value(), Value::I64(-4));
    assert_eq!(1u8.value(), Value::U8(1));
    assert_eq!(2u16.value(), Value::U16(2));
    assert_eq!(3u32.value(), Value::U32(3));
    assert_eq!(4u64.value(), Value::U64(4));
    assert_eq!("text".to_string().value(), Value::String("text".to_string()));
}

#[test]
fn library_values_lift_to_their_variant() {
    let f = Float32::from_bits(1.0f32.to_bits());
    let d = Float64::from_bits(1.0f64.to_bits());
    assert_eq!(f.value(), Value::F32(f));
    assert_eq!(d.value(), Value::F64(d));
    let p = Pos2d32 { x: f, y: f };
    assert_eq!(p.value(), Value::Pos2d32(p));
    let p = Pos2d64 { x: d, y: d };
    assert_eq!(p.value(), Value::Pos2d64(p));
    let p = Pos3d32 { x: f, y: f, z: f };
    assert_eq!(p.value(), Value::Pos3d32(p));
    let p = Pos3d64 { x: d, y: d, z: d };
    assert_eq!(p.value(), Value::Pos3d64(p));
    let id = Id { higher: 1, lower: 2 };
    assert_eq!(id.value(), Value::Id(id));
    assert_eq!(Bytes { data: vec![1] }.value(), Value::Bytes(Bytes { data: vec![1] }));
    assert_eq!(
        SmallBytes { data: vec![1] }.value(),
        Value::SmallBytes(SmallBytes { data: vec![1] })
    );
}

#[test]
fn getters_give_what_is_inside() {
    assert_eq!(Value::Bool(true).Bool(), Some(true));
    assert_eq!(Value::Char('c').Char(), Some('c'));
    assert_eq!(Value::I8(-1).I8(), Some(-1));
    assert_eq!(Value::I16(-1).I16(), Some(-1));
    assert_eq!(Value::I32(-1).I32(), Some(-1));
    assert_eq!(Value::I64(-1).I64(), Some(-1));
    assert_eq!(Value::U8(1).U8(), Some(1));
    assert_eq!(Value::U16(1).U16(), Some(1));
    assert_eq!(Value::U32(1).U32(), Some(1));
    assert_eq!(Value::U64(1).U64(), Some(1));
    let f = Float32::from_bits(7);
    let d = Float64::from_bits(7);
    assert_eq!(Value::F32(f).F32(), Some(f));
    assert_eq!(Value::F64(d).F64(), Some(d));
    let id = Id { higher: 1, lower: 2 };
    assert_eq!(Value::Id(id).Id(), Some(&id));
    let p = Pos2d32 { x: f, y: f };
    assert_eq!(Value::Pos2d32(p).Pos2d32(), Some(&p));
    let p = Pos2d64 { x: d, y: d };
    assert_eq!(Value::Pos2d64(p).Pos2d64(), Some(&p));
    let p = Pos3d32 { x: f, y: f, z: f };
    assert_eq!(Value::Pos3d32(p).Pos3d32(), Some(&p));
    let p = Pos3d64 { x: d, y: d, z: d };
    assert_eq!(Value::Pos3d64(p).Pos3d64(), Some(&p));
    assert_eq!(Value::String("s".to_string()).String(), Some(&"s".to_string()));
    assert_eq!(Value::Bytes(Bytes { data: vec![1] }).Bytes(), Some(&Bytes { data: vec![1] }));
    assert_eq!(
        Value::SmallBytes(SmallBytes { data: vec![1] }).SmallBytes(),
        Some(&SmallBytes { data: vec![1] })
    );
    let map = FieldMap { fields: vec![Field { name: "k".to_string(), value: Value::U8(1) }] };
    let expected = FieldMap { fields: vec![Field { name: "k".to_string(), value: Value::U8(1) }] };
    assert_eq!(Value::FieldMap(map).FieldMap(), Some(&expected));
}

#[test]
fn getters_give_nothing_for_another_variant() {
    let v = Value::U8(1);
    assert_eq!(v.Bool(), None);
    assert_eq!(v.Char(), None);
    assert_eq!(v.I8(), None);
    assert_eq!(v.I16(), None);
    assert_eq!(v.I32(), None);
    assert_eq!(v.I64(), None);
    assert_eq!(v.U16(), None);
    assert_eq!(v.U32(), None);
    assert_eq!(v.U64(), None);
    assert_eq!(v.F32(), None);
    assert_eq!(v.F64(), None);
    assert_eq!(v.Pos2d32(), None);
    assert_eq!(v.Pos2d64(), None);
    assert_eq!(v.Pos3d32(), None);
    assert_eq!(v.Pos3d64(), None);
    assert_eq!(v.Id(), None);
    assert_eq!(v.String(), None);
    assert_eq!(v.Bytes(), None);
    assert_eq!(v.SmallBytes(), None);
    assert_eq!(v.FieldMap(), None);
    assert_eq!(Value::Null.U8(), None);
    assert_eq!(Value::NA.U8(), None);
}

#[test]
fn type_ids_of_values() {
    assert_eq!(Value::Bool(true).type_id(), 1);
    assert_eq!(Value::U32(1).type_id(), 9);
    assert_eq!(Value::F32(Float32::from_bits(0)).type_id(), 13);
    assert_eq!(Value::Id(Id { higher: 0, lower: 0 }).type_id(), 19);
    assert_eq!(Value::String(String::new()).type_id(), 20);
    assert_eq!(Value::Bytes(Bytes { data: vec![] }).type_id(), 22);
    assert_eq!(Value::SmallBytes(SmallBytes { data: vec![] }).type_id(), 23);
    assert_eq!(Value::Array(vec![]).type_id(), 0);
    assert_eq!(Value::FieldMap(FieldMap { fields: vec![] }).type_id(), 0);
    assert_eq!(Value::NA.type_id(), 0);
    assert_eq!(Value::Null.type_id(), 0);
}

#[test]
fn clones_are_equal_and_apart() {
    let first = nested();
    let mut copy = first.clone();
    assert_eq!(copy, first);
    if let Value::Array(items) = &mut copy {
        items.push(Value::Null);
    }
    assert_ne!(copy, first);
    assert_eq!(first, nested());
    assert_eq!(Bytes { data: vec![1, 2] }.clone(), Bytes { data: vec![1, 2] });
    assert_eq!(SmallBytes { data: vec![3] }.clone(), SmallBytes { data: vec![3] });
}

#[test]
fn equality_goes_by_bits_and_by_variant() {
    let nan = Float32::from_bits(f32::NAN.to_bits());
    assert_eq!(Value::F32(nan), Value::F32(nan));
    let zero = Float64::from_bits(0.0f64.to_bits());
    let minus_zero = Float64::from_bits((-0.0f64).to_bits());
    assert_ne!(Value::F64(zero), Value::F64(minus_zero));
    assert_ne!(Value::U8(1), Value::I8(1));
    assert_ne!(Value::NA, Value::Null);
    assert_ne!(
        Value::Bytes(Bytes { data: vec![1] }),
        Value::SmallBytes(SmallBytes { data: vec![1] })
    );
    assert_ne!(Value::Array(vec![Value::U8(1), Value::I8(1)]), Value::Array(vec![Value::U8(1)]));
    assert_eq!(SExpr::Value(Value::Null), SExpr::Value(Value::Null));
    assert_ne!(SExpr::Symbol("a".to_string()), SExpr::Symbol("b".to_string()));
}

#[test]
fn floats_keep_their_bits() {
    for x in [0.0f32, -0.0, 1.0, f32::MAX, f32::MIN_POSITIVE, f32::INFINITY] {
        assert_eq!(f32::from_bits(Float32::from_bits(x.to_bits()).to_bits()), x);
    }
    for x in [0.0f64, -0.0, 1.0, f64::MAX, f64::MIN_POSITIVE, f64::NEG_INFINITY] {
        assert_eq!(f64::from_bits(Float64::from_bits(x.to_bits()).to_bits()), x);
    }
    assert_eq!(Float32::from_bits(0x7fc0_0001).to_bits(), 0x7fc0_0001);
}

#[test]
fn expressions_clone_deeply() {
    let tree = SExpr::List(vec![
        SExpr::Symbol("+".to_string()),
        SExpr::Value(nested()),
        SExpr::List(vec![SExpr::Value(Value::U8(1))]),
    ]);
    let mut copy = tree.clone();
    assert_eq!(copy, tree);
    if let SExpr::List(items) = &mut copy {
        items.pop();
    }
    assert_ne!(copy, tree);
}
