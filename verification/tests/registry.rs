use value_types::types::{
    get_id_type, get_size, get_type_id, get_val, get_vsize, set_val, type_id_of, Bytes, Float32,
    Float64, Id, Pos2d32, Pos3d64, SmallBytes, TypeId, Value, ARRAY_LEN_TYPE_ID, NULL_TYPE_ID,
    TYPE_CODE_TYPE_ID,
};

const TABLE: [(u32, &[&str]); 20] = [
    (1, &["bool", "bit"]),
    (2, &["char"]),
    (3, &["i8"]),
    (4, &["i16", "int"]),
    (5, &["i32", "long"]),
    (6, &["i64", "longlong"]),
    (7, &["u8", "byte"]),
    (8, &["u16"]),
    (9, &["u32"]),
    (10, &["u64"]),
    (13, &["f32", "float"]),
    (14, &["f64", "double"]),
    (15, &["pos2d32", "pos2d", "pos", "pos32"]),
    (16, &["pos2d64", "pos64"]),
    (17, &["pos3d32", "pos3d"]),
    (18, &["pos3d64"]),
    (19, &["id"]),
    (20, &["string", "str"]),
    (22, &["bytes"]),
    (23, &["small_bytes"]),
];

fn samples() -> Vec<Value> {
    vec![
        Value::Bool(true),
        Value::Bool(false),
        Value::Char('a'),
        Value::Char('\u{ff}'),
        Value::I8(-128),
        Value::I8(127),
        Value::I16(-2),
        Value::I16(i16::MAX),
        Value::I32(i32::MIN),
        Value::I32(123_456),
        Value::I64(i64::MIN),
        Value::I64(-1),
        Value::I64(i64::MAX),
        Value::U8(0),
        Value::U8(255),
        Value::U16(0xabcd),
        Value::U32(0xdead_beef),
        Value::U64(u64::MAX),
        Value::U64(0x0102_0304_0506_0708),
        Value::F32(Float32::from_bits(1.5f32.to_bits())),
        Value::F32(Float32::from_bits(f32::NAN.to_bits())),
        Value::F64(Float64::from_bits((-0.0f64).to_bits())),
        Value::F64(Float64::from_bits(f64::INFINITY.to_bits())),
        Value::String(String::new()),
        Value::String("héllo, wörld".to_string()),
        Value::Bytes(Bytes { data: vec![] }),
        Value::Bytes(Bytes { data: (0..=255).collect() }),
        Value::SmallBytes(SmallBytes { data: vec![9, 8, 7] }),
    ]
}

#[test]
fn every_alias_gives_its_id() {
    for (id, names) in TABLE.iter() {
        for name in names.iter() {
            assert_eq!(get_type_id(name.to_string()), *id, "{}", name);
        }
    }
}

#[test]
fn every_id_gives_its_first_name() {
    for (id, names) in TABLE.iter() {
        assert_eq!(get_id_type(*id), names[0]);
        assert_eq!(get_type_id(get_id_type(*id).to_string()), *id);
    }
}

#[test]
fn unknown_names_give_zero() {
    for name in ["", "Bool", "bool ", "u128", "map", "N/A", "pos2", "strings", "i"] {
        assert_eq!(get_type_id(name.to_string()), 0, "{:?}", name);
    }
}

#[test]
fn unknown_ids_give_the_sentinel_name() {
    for id in [0u32, 11, 12, 21, 24, 1000, u32::MAX] {
        assert_eq!(get_id_type(id), "N/A");
    }
}

#[test]
fn type_ids_are_the_documented_numbers() {
    assert_eq!(type_id_of(TypeId::Bool), 1);
    assert_eq!(type_id_of(TypeId::Char), 2);
    assert_eq!(type_id_of(TypeId::I8), 3);
    assert_eq!(type_id_of(TypeId::I16), 4);
    assert_eq!(type_id_of(TypeId::I32), 5);
    assert_eq!(type_id_of(TypeId::I64), 6);
    assert_eq!(type_id_of(TypeId::U8), 7);
    assert_eq!(type_id_of(TypeId::U16), 8);
    assert_eq!(type_id_of(TypeId::U32), 9);
    assert_eq!(type_id_of(TypeId::U64), 10);
    assert_eq!(type_id_of(TypeId::F32), 13);
    assert_eq!(type_id_of(TypeId::F64), 14);
    assert_eq!(type_id_of(TypeId::Pos2d32), 15);
    assert_eq!(type_id_of(TypeId::Pos2d64), 16);
    assert_eq!(type_id_of(TypeId::Pos3d32), 17);
    assert_eq!(type_id_of(TypeId::Pos3d64), 18);
    assert_eq!(type_id_of(TypeId::Id), 19);
    assert_eq!(type_id_of(TypeId::String), 20);
    assert_eq!(type_id_of(TypeId::Bytes), 22);
    assert_eq!(type_id_of(TypeId::SmallBytes), 23);
    assert_eq!(type_id_of(TypeId::FieldMap), 0);
    assert_eq!(ARRAY_LEN_TYPE_ID, 9);
    assert_eq!(TYPE_CODE_TYPE_ID, 9);
    assert_eq!(NULL_TYPE_ID, 7);
}

#[test]
fn values_are_read_as_they_were_written() {
    for value in samples() {
        let id = value.type_id();
        let mut buf = vec![0xaau8; 400];
        set_val(id, &value, &mut buf, 5);
        assert_eq!(get_val(id, &buf, 5), value, "{:?}", value);
    }
}

#[test]
fn the_size_in_the_buffer_is_the_size_of_the_value() {
    let mut all = samples();
    all.push(Value::Pos2d32(Pos2d32 {
        x: Float32::from_bits(1.0f32.to_bits()),
        y: Float32::from_bits(2.0f32.to_bits()),
    }));
    all.push(Value::Id(Id { higher: 1, lower: 2 }));
    for value in all {
        let id = value.type_id();
        let expected = get_vsize(id, &value);
        let mut buf = vec![0x55u8; 400];
        set_val(id, &value, &mut buf, 11);
        assert_eq!(get_size(id, &buf, 11), expected, "{:?}", value);
    }
}

#[test]
fn writing_touches_only_the_bytes_of_the_value() {
    for value in samples() {
        let id = value.type_id();
        let size = get_vsize(id, &value);
        let mut buf = vec![0x77u8; 300];
        set_val(id, &value, &mut buf, 3);
        assert!(buf[..3].iter().all(|b| *b == 0x77));
        assert!(buf[3 + size..].iter().all(|b| *b == 0x77));
    }
}

#[test]
fn sizes_of_the_kinds() {
    let buf = vec![0u8; 16];
    let fixed = [
        (1u32, 1usize),
        (2, 1),
        (3, 1),
        (4, 2),
        (5, 4),
        (6, 8),
        (7, 1),
        (8, 2),
        (9, 4),
        (10, 8),
        (13, 4),
        (14, 8),
        (15, 8),
        (16, 8),
        (17, 8),
        (18, 8),
        (19, 8),
    ];
    for (id, size) in fixed {
        assert_eq!(get_size(id, &buf, 0), size, "id {}", id);
    }
    assert_eq!(get_vsize(20, &Value::String("abc".to_string())), 7);
    assert_eq!(get_vsize(22, &Value::Bytes(Bytes { data: vec![1, 2] })), 6);
    assert_eq!(get_vsize(23, &Value::SmallBytes(SmallBytes { data: vec![1, 2] })), 3);
}

#[test]
fn sizes_of_records_come_from_their_count() {
    let buf = vec![0u8, 0, 1, 2, 9, 9];
    assert_eq!(get_size(20, &buf, 0), 4 + 258);
    assert_eq!(get_size(22, &buf, 0), 4 + 258);
    assert_eq!(get_size(23, &buf, 3), 1 + 2);
}

#[test]
fn unknown_ids_read_as_not_available() {
    let buf = vec![1u8, 2, 3];
    for id in [0u32, 11, 12, 21, 24, 99] {
        assert_eq!(get_val(id, &buf, 1), Value::NA);
        assert_eq!(get_size(id, &buf, 1), 0);
        assert_eq!(get_val(id, &buf, 1000), Value::NA);
    }
}

#[test]
fn compound_kinds_read_as_placeholders() {
    let point = Value::Pos3d64(Pos3d64 {
        x: Float64::from_bits(1.0f64.to_bits()),
        y: Float64::from_bits(2.0f64.to_bits()),
        z: Float64::from_bits(3.0f64.to_bits()),
    });
    let mut buf = vec![0u8; 8];
    set_val(18, &point, &mut buf, 0);
    assert_ne!(buf, vec![0u8; 8]);
    assert_eq!(
        get_val(18, &buf, 0),
        Value::Pos3d64(Pos3d64 {
            x: Float64::from_bits(0),
            y: Float64::from_bits(0),
            z: Float64::from_bits(0),
        })
    );
    assert_eq!(get_val(19, &buf, 0), Value::Id(Id { higher: 0, lower: 0 }));
}

#[test]
fn set_val_writes_the_documented_bytes() {
    let mut buf = vec![0u8; 13];
    set_val(9, &Value::U32(0x0102_0304), &mut buf, 1);
    set_val(4, &Value::I16(-2), &mut buf, 5);
    set_val(20, &Value::String("hi".to_string()), &mut buf, 7);
    assert_eq!(buf, vec![0, 1, 2, 3, 4, 0xff, 0xfe, 0, 0, 0, 2, b'h', b'i']);
}

#[test]
fn is_readable_tells_what_get_val_accepts() {
    let buf = vec![0u8, 0, 0, 2, b'h', b'i', 0xff];
    assert!(value_types::types::is_readable(20, &buf, 0));
    assert!(!value_types::types::is_readable(20, &buf, 1));
    assert!(!value_types::types::is_readable(20, &buf, 4));
    assert!(value_types::types::is_readable(22, &buf, 0));
    assert!(value_types::types::is_readable(23, &buf, 3));
    assert!(!value_types::types::is_readable(23, &buf, 6));
    assert!(value_types::types::is_readable(10, &buf, 0) == false);
    assert!(value_types::types::is_readable(9, &buf, 3));
    assert!(!value_types::types::is_readable(9, &buf, 4));
    assert!(!value_types::types::is_readable(1, &buf, 7));
    assert!(value_types::types::is_readable(1, &buf, 6));
    assert!(value_types::types::is_readable(19, &buf, 100));
    assert!(value_types::types::is_readable(0, &buf, 100));
    let broken = vec![0u8, 0, 0, 2, 0xc3, 0x28];
    assert!(!value_types::types::is_readable(20, &broken, 0));
    assert!(value_types::types::is_readable(22, &broken, 0));
}

#[test]
fn is_measurable_tells_what_get_size_accepts() {
    let buf = vec![0u8, 0, 0, 9, 1];
    assert!(value_types::types::is_measurable(20, &buf, 0));
    assert!(value_types::types::is_measurable(22, &buf, 1));
    assert!(!value_types::types::is_measurable(22, &buf, 2));
    assert!(value_types::types::is_measurable(23, &buf, 4));
    assert!(!value_types::types::is_measurable(23, &buf, 5));
    assert!(value_types::types::is_measurable(5, &buf, 500));
    assert!(value_types::types::is_measurable(11, &buf, 500));
}

#[test]
fn is_writable_tells_what_set_val_accepts() {
    let buf = vec![0u8; 8];
    let text = Value::String("abcd".to_string());
    assert!(value_types::types::is_writable(20, &text, &buf, 0));
    assert!(!value_types::types::is_writable(20, &text, &buf, 1));
    assert!(!value_types::types::is_writable(22, &text, &buf, 0));
    assert!(value_types::types::is_writable(6, &Value::I64(1), &buf, 0));
    assert!(!value_types::types::is_writable(6, &Value::I64(1), &buf, 1));
    assert!(!value_types::types::is_writable(6, &Value::U64(1), &buf, 0));
    assert!(!value_types::types::is_writable(0, &Value::Null, &buf, 0));
    assert!(!value_types::types::is_writable(11, &Value::NA, &buf, 0));
    assert!(value_types::types::is_sizable(20, &text));
    assert!(!value_types::types::is_sizable(23, &text));
    assert!(!value_types::types::is_sizable(0, &Value::Array(vec![])));
    assert!(value_types::types::is_registered(23));
    assert!(!value_types::types::is_registered(21));
    assert!(!value_types::types::is_registered(0));
}
