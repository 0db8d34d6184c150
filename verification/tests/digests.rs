use std::hash::Hasher;
use twox_hash::XxHash64;
use value_types::bytes::{key_of_be, key_of_bytes};
use value_types::types::{
    bool_io, bytes_io, char_io, f32_io, f64_io, i16_io, i32_io, i64_io, i8_io, id_io, pos2d32_io,
    pos2d64_io, pos3d32_io, pos3d64_io, small_bytes_io, string_io, u16_io, u32_io, u64_io, u8_io,
    Float32, Float64, Id, Pos2d32, Pos2d64, Pos3d32, Pos3d64,
};

fn xxh64(parts: &[&[u8]]) -> [u8; 8] {
    let mut hasher = XxHash64::default();
    for part in parts {
        hasher.write(part);
    }
    hasher.finish().to_be_bytes()
}

fn single(x: f32) -> Float32 {
    Float32::from_bits(x.to_bits())
}

fn double(x: f64) -> Float64 {
    Float64::from_bits(x.to_bits())
}

#[test]
fn keys_of_integers_are_their_bytes_then_zeros() {
    assert_eq!(u8_io::feature(0xab), [0xab, 0, 0, 0, 0, 0, 0, 0]);
    assert_eq!(u16_io::feature(0x0102), [1, 2, 0, 0, 0, 0, 0, 0]);
    assert_eq!(u32_io::feature(0x0102_0304), [1, 2, 3, 4, 0, 0, 0, 0]);
    assert_eq!(u64_io::feature(0x0102_0304_0506_0708), [1, 2, 3, 4, 5, 6, 7, 8]);
    assert_eq!(i8_io::feature(-1), [0xff, 0, 0, 0, 0, 0, 0, 0]);
    assert_eq!(i16_io::feature(-2), [0xff, 0xfe, 0, 0, 0, 0, 0, 0]);
    assert_eq!(i32_io::feature(1), [0, 0, 0, 1, 0, 0, 0, 0]);
    assert_eq!(i64_io::feature(-1), [0xff; 8]);
}

#[test]
fn keys_of_the_other_primitives() {
    assert_eq!(bool_io::feature(true), [1, 0, 0, 0, 0, 0, 0, 0]);
    assert_eq!(bool_io::feature(false), [0; 8]);
    assert_eq!(char_io::feature('a'), [0x61, 0, 0, 0, 0, 0, 0, 0]);
    assert_eq!(f32_io::feature(single(1.0)), [0x3f, 0x80, 0, 0, 0, 0, 0, 0]);
    assert_eq!(f64_io::feature(double(1.0)), [0x3f, 0xf0, 0, 0, 0, 0, 0, 0]);
}

#[test]
fn keys_of_text_are_its_beginning() {
    assert_eq!(string_io::feature(""), [0; 8]);
    assert_eq!(string_io::feature("a"), [b'a', 0, 0, 0, 0, 0, 0, 0]);
    assert_eq!(string_io::feature("abcdefgh"), *b"abcdefgh");
    assert_eq!(string_io::feature("abcdefghijk"), *b"abcdefgh");
    assert_eq!(string_io::feature("é"), [0xc3, 0xa9, 0, 0, 0, 0, 0, 0]);
}

#[test]
fn keys_are_eight_bytes_whatever_the_length() {
    let long: String = std::iter::repeat('x').take(300).collect();
    assert_eq!(string_io::feature(&long).len(), 8);
    assert_eq!(string_io::feature("x").len(), 8);
    assert_eq!(bytes_io::feature(&vec![1u8; 300]).len(), 8);
    assert_eq!(bytes_io::hash(&vec![1u8; 300]).len(), 8);
    assert_eq!(bytes_io::hash(&[1u8]).len(), 8);
    assert_eq!(small_bytes_io::hash(&[]).len(), 8);
    assert_eq!(string_io::feature(&long), *b"xxxxxxxx");
}

#[test]
fn keys_of_byte_strings_are_their_beginning() {
    assert_eq!(bytes_io::feature(&[]), [0; 8]);
    assert_eq!(bytes_io::feature(&[1, 2, 3]), [1, 2, 3, 0, 0, 0, 0, 0]);
    assert_eq!(bytes_io::feature(&[1, 2, 3, 4, 5, 6, 7, 8, 9]), [1, 2, 3, 4, 5, 6, 7, 8]);
    assert_eq!(small_bytes_io::feature(&[9]), [9, 0, 0, 0, 0, 0, 0, 0]);
    assert_eq!(key_of_bytes(&[1, 2]), [1, 2, 0, 0, 0, 0, 0, 0]);
    assert_eq!(key_of_be(0x0102, 2), [1, 2, 0, 0, 0, 0, 0, 0]);
    assert_eq!(key_of_be(7, 0), [0; 8]);
}

#[test]
fn content_keys_are_the_xxh64_digest() {
    assert_eq!(bytes_io::hash(&[]), 0xef46_db37_51d8_e999u64.to_be_bytes());
    assert_eq!(bytes_io::hash(&[42]), 0x0a9e_dece_beb0_3ae4u64.to_be_bytes());
    assert_eq!(
        bytes_io::hash(b"Hello, world!\0"),
        0x7b06_c531_ea43_e89fu64.to_be_bytes()
    );
    let hundred: Vec<u8> = (0..100).collect();
    assert_eq!(small_bytes_io::hash(&hundred), 0x6ac1_e580_3216_6597u64.to_be_bytes());
    assert_eq!(bytes_io::hash(&hundred), xxh64(&[&hundred]));
}

#[test]
fn keys_of_points_hash_the_keys_of_their_coordinates() {
    let p = Pos2d32 { x: single(1.5), y: single(-2.0) };
    let expected = xxh64(&[
        &[0x3f, 0xc0, 0, 0, 0, 0, 0, 0],
        &[0xc0, 0, 0, 0, 0, 0, 0, 0],
    ]);
    assert_eq!(pos2d32_io::feature(&p), expected);

    let p = Pos2d64 { x: double(1.5), y: double(-2.0) };
    let expected = xxh64(&[&1.5f64.to_be_bytes(), &(-2.0f64).to_be_bytes()]);
    assert_eq!(pos2d64_io::feature(&p), expected);

    let p = Pos3d32 { x: single(1.0), y: single(2.0), z: single(3.0) };
    let expected = xxh64(&[
        &f32_io::feature(single(1.0)),
        &f32_io::feature(single(2.0)),
        &f32_io::feature(single(3.0)),
    ]);
    assert_eq!(pos3d32_io::feature(&p), expected);

    let p = Pos3d64 { x: double(1.0), y: double(2.0), z: double(3.0) };
    let expected = xxh64(&[
        &1.0f64.to_be_bytes(),
        &2.0f64.to_be_bytes(),
        &3.0f64.to_be_bytes(),
    ]);
    assert_eq!(pos3d64_io::feature(&p), expected);
}

#[test]
fn keys_of_points_depend_on_the_order_of_the_coordinates() {
    let a = Pos2d32 { x: single(1.0), y: single(2.0) };
    let b = Pos2d32 { x: single(2.0), y: single(1.0) };
    assert_ne!(pos2d32_io::feature(&a), pos2d32_io::feature(&b));
}

#[test]
fn keys_of_identifiers_hash_both_halves() {
    let id = Id { higher: 0x0102_0304_0506_0708, lower: 0x1112_1314_1516_1718 };
    let expected = xxh64(&[
        &[1, 2, 3, 4, 5, 6, 7, 8],
        &[0x11, 0x12, 0x13, 0x14, 0x15, 0x16, 0x17, 0x18],
    ]);
    assert_eq!(id_io::feature(&id), expected);
    let swapped = Id { higher: id.lower, lower: id.higher };
    assert_ne!(id_io::feature(&swapped), expected);
}

#[test]
fn keys_are_the_same_on_every_call() {
    let p = Pos3d64 { x: double(0.1), y: double(0.2), z: double(0.3) };
    let first = pos3d64_io::feature(&p);
    for _ in 0..10 {
        assert_eq!(pos3d64_io::feature(&p), first);
    }
    let id = Id { higher: 7, lower: 9 };
    assert_eq!(id_io::feature(&id), id_io::feature(&id));
    assert_eq!(bytes_io::hash(&[1, 2, 3]), bytes_io::hash(&[1, 2, 3]));
}

#[test]
fn compound_values_are_stored_as_their_key() {
    let p = Pos2d64 { x: double(4.0), y: double(5.0) };
    let mut buf = vec![0u8; 10];
    pos2d64_io::write(&p, &mut buf, 1);
    assert_eq!(buf[1..9].to_vec(), pos2d64_io::feature(&p).to_vec());
    assert_eq!(buf[0], 0);
    assert_eq!(buf[9], 0);
    assert_eq!(pos2d64_io::size(&buf, 1), 8);
    assert_eq!(pos2d64_io::val_size(&p), 8);
    assert_eq!(pos2d64_io::read(&buf, 1), Pos2d64 { x: double(0.0), y: double(0.0) });

    let id = Id { higher: 1, lower: 2 };
    id_io::write(&id, &mut buf, 0);
    assert_eq!(buf[..8].to_vec(), id_io::feature(&id).to_vec());
    assert_eq!(id_io::read(&buf, 0), Id { higher: 0, lower: 0 });
    assert_eq!(id_io::size(&buf, 0), 8);
    assert_eq!(id_io::val_size(&id), 8);
    assert_eq!(pos2d32_io::size(&buf, 0), 8);
    assert_eq!(pos3d32_io::size(&buf, 0), 8);
    assert_eq!(pos3d64_io::size(&buf, 0), 8);
}
