use value_types::bytes::{from_pattern, load_be, load_bytes, store_be, store_bytes, to_pattern};
use value_types::types::prefixed::{read_record, record_size, write_record};
use value_types::types::{
    bool_io, bytes_io, char_io, f32_io, f64_io, i16_io, i32_io, i64_io, i8_io, small_bytes_io,
    string_io, u16_io, u32_io, u64_io, u8_io, Bytes, Float32, Float64, SmallBytes,
};

#[test]
fn unsigned_integers_are_big_endian() {
    let mut buf = vec![0u8; 16];
    u8_io::write(0xab, &mut buf, 0);
    u16_io::write(0x0102, &mut buf, 1);
    u32_io::write(0x0304_0506, &mut buf, 3);
    u64_io::write(0x0708_090a_0b0c_0d0e, &mut buf, 7);
    assert_eq!(buf, vec![0xab, 1, 2, 3, 4, 5, 6, 7, 8, 9, 10, 11, 12, 13, 14, 0]);
    assert_eq!(u8_io::read(&buf, 0), 0xab);
    assert_eq!(u16_io::read(&buf, 1), 0x0102);
    assert_eq!(u32_io::read(&buf, 3), 0x0304_0506);
    assert_eq!(u64_io::read(&buf, 7), 0x0708_090a_0b0c_0d0e);
}

#[test]
fn signed_integers_are_twos_complement() {
    let mut buf = vec![0u8; 15];
    i8_io::write(-1, &mut buf, 0);
    i16_io::write(-2, &mut buf, 1);
    i32_io::write(-3, &mut buf, 3);
    i64_io::write(i64::MIN, &mut buf, 7);
    assert_eq!(
        buf,
        vec![0xff, 0xff, 0xfe, 0xff, 0xff, 0xff, 0xfd, 0x80, 0, 0, 0, 0, 0, 0, 0]
    );
    assert_eq!(i8_io::read(&buf, 0), -1);
    assert_eq!(i16_io::read(&buf, 1), -2);
    assert_eq!(i32_io::read(&buf, 3), -3);
    assert_eq!(i64_io::read(&buf, 7), i64::MIN);
}

#[test]
fn every_i8_and_u8_comes_back() {
    let mut buf = vec![0u8; 3];
    for v in i8::MIN..=i8::MAX {
        i8_io::write(v, &mut buf, 1);
        assert_eq!(i8_io::read(&buf, 1), v);
        assert_eq!(buf[1], v as u8);
    }
    for v in u8::MIN..=u8::MAX {
        u8_io::write(v, &mut buf, 2);
        assert_eq!(u8_io::read(&buf, 2), v);
    }
}

#[test]
fn every_i16_comes_back() {
    let mut buf = vec![0u8; 2];
    for v in i16::MIN..=i16::MAX {
        i16_io::write(v, &mut buf, 0);
        assert_eq!(i16_io::read(&buf, 0), v);
        assert_eq!(buf, v.to_be_bytes().to_vec());
    }
}

#[test]
fn wide_integers_match_the_standard_encoding() {
    let mut buf = vec![0u8; 8];
    for v in [0i64, 1, -1, 255, -256, i64::MAX, i64::MIN, 0x0123_4567_89ab_cdef] {
        i64_io::write(v, &mut buf, 0);
        assert_eq!(buf, v.to_be_bytes().to_vec());
        assert_eq!(i64_io::read(&buf, 0), v);
    }
    for v in [0i32, 1, -1, i32::MAX, i32::MIN, 0x1234_5678] {
        i32_io::write(v, &mut buf, 2);
        assert_eq!(buf[2..6].to_vec(), v.to_be_bytes().to_vec());
        assert_eq!(i32_io::read(&buf, 2), v);
    }
    for v in [0u64, 1, u64::MAX, 0x8000_0000_0000_0000] {
        u64_io::write(v, &mut buf, 0);
        assert_eq!(buf, v.to_be_bytes().to_vec());
        assert_eq!(u64_io::read(&buf, 0), v);
    }
}

#[test]
fn floats_are_stored_by_their_bits() {
    let mut buf = vec![0u8; 12];
    f32_io::write(Float32::from_bits(1.0f32.to_bits()), &mut buf, 0);
    f64_io::write(Float64::from_bits((-2.0f64).to_bits()), &mut buf, 4);
    assert_eq!(buf, vec![0x3f, 0x80, 0, 0, 0xc0, 0, 0, 0, 0, 0, 0, 0]);
    assert_eq!(f32::from_bits(f32_io::read(&buf, 0).to_bits()), 1.0);
    assert_eq!(f64::from_bits(f64_io::read(&buf, 4).to_bits()), -2.0);
    let nan = Float32::from_bits(0x7fc0_1234);
    f32_io::write(nan, &mut buf, 8);
    assert_eq!(f32_io::read(&buf, 8), nan);
}

#[test]
fn booleans_are_one_byte() {
    let mut buf = vec![9u8; 2];
    bool_io::write(true, &mut buf, 0);
    bool_io::write(false, &mut buf, 1);
    assert_eq!(buf, vec![1, 0]);
    assert!(bool_io::read(&buf, 0));
    assert!(!bool_io::read(&buf, 1));
    assert!(bool_io::read(&[7u8], 0));
}

#[test]
fn characters_keep_their_low_byte() {
    let mut buf = vec![0u8; 1];
    char_io::write('A', &mut buf, 0);
    assert_eq!(buf, vec![0x41]);
    assert_eq!(char_io::read(&buf, 0), 'A');
    char_io::write('\u{e9}', &mut buf, 0);
    assert_eq!(char_io::read(&buf, 0), '\u{e9}');
    char_io::write('\u{20ac}', &mut buf, 0);
    assert_eq!(buf, vec![0xac]);
    assert_eq!(char_io::read(&buf, 0), '\u{ac}');
}

#[test]
fn fixed_sizes_ignore_the_buffer() {
    let empty: [u8; 0] = [];
    assert_eq!(bool_io::size(&empty, 99), 1);
    assert_eq!(char_io::size(&empty, 99), 1);
    assert_eq!(i8_io::size(&empty, 99), 1);
    assert_eq!(i16_io::size(&empty, 99), 2);
    assert_eq!(i32_io::size(&empty, 99), 4);
    assert_eq!(i64_io::size(&empty, 99), 8);
    assert_eq!(u8_io::size(&empty, 99), 1);
    assert_eq!(u16_io::size(&empty, 99), 2);
    assert_eq!(u32_io::size(&empty, 99), 4);
    assert_eq!(u64_io::size(&empty, 99), 8);
    assert_eq!(f32_io::size(&empty, 99), 4);
    assert_eq!(f64_io::size(&empty, 99), 8);
    assert_eq!(bool_io::val_size(true), 1);
    assert_eq!(char_io::val_size('x'), 1);
    assert_eq!(i8_io::val_size(1), 1);
    assert_eq!(i16_io::val_size(1), 2);
    assert_eq!(i32_io::val_size(1), 4);
    assert_eq!(i64_io::val_size(1), 8);
    assert_eq!(u8_io::val_size(1), 1);
    assert_eq!(u16_io::val_size(1), 2);
    assert_eq!(u32_io::val_size(1), 4);
    assert_eq!(u64_io::val_size(1), 8);
    assert_eq!(f32_io::val_size(Float32::from_bits(0)), 4);
    assert_eq!(f64_io::val_size(Float64::from_bits(0)), 8);
}

#[test]
fn text_is_a_count_and_utf8() {
    let mut buf = vec![0xeeu8; 12];
    string_io::write("héllo", &mut buf, 1);
    assert_eq!(buf, vec![0xee, 0, 0, 0, 6, b'h', 0xc3, 0xa9, b'l', b'l', b'o', 0xee]);
    assert_eq!(string_io::read(&buf, 1), "héllo");
    assert_eq!(string_io::size(&buf, 1), 10);
    assert_eq!(string_io::val_size("héllo"), 10);
}

#[test]
fn empty_text_is_a_bare_count() {
    let mut buf = vec![1u8; 4];
    string_io::write("", &mut buf, 0);
    assert_eq!(buf, vec![0, 0, 0, 0]);
    assert_eq!(string_io::read(&buf, 0), "");
    assert_eq!(string_io::size(&buf, 0), 4);
    assert_eq!(string_io::val_size(""), 4);
}

#[test]
fn long_text_comes_back() {
    let text: String = std::iter::repeat("añ€😀").take(200).collect();
    let size = string_io::val_size(&text);
    assert_eq!(size, 4 + 200 * 10);
    let mut buf = vec![0u8; size + 7];
    string_io::write(&text, &mut buf, 7);
    assert_eq!(string_io::size(&buf, 7), size);
    assert_eq!(string_io::read(&buf, 7), text);
}

#[test]
fn byte_strings_are_a_count_and_the_bytes() {
    let mut buf = vec![0u8; 9];
    bytes_io::write(&[5, 6, 7], &mut buf, 2);
    assert_eq!(buf, vec![0, 0, 0, 0, 0, 3, 5, 6, 7]);
    assert_eq!(bytes_io::read(&buf, 2), Bytes { data: vec![5, 6, 7] });
    assert_eq!(bytes_io::size(&buf, 2), 7);
    assert_eq!(bytes_io::val_size(&[5, 6, 7]), 7);
}

#[test]
fn byte_strings_longer_than_a_byte_counts_come_back() {
    let data: Vec<u8> = (0..70_000u32).map(|i| (i % 251) as u8).collect();
    let mut buf = vec![0u8; data.len() + 4];
    bytes_io::write(&data, &mut buf, 0);
    assert_eq!(buf[..4].to_vec(), vec![0, 1, 0x11, 0x70]);
    assert_eq!(bytes_io::size(&buf, 0), data.len() + 4);
    assert_eq!(bytes_io::read(&buf, 0).data, data);
}

#[test]
fn short_byte_strings_have_a_one_byte_count() {
    let mut buf = vec![0u8; 5];
    small_bytes_io::write(&[5, 6, 7], &mut buf, 1);
    assert_eq!(buf, vec![0, 3, 5, 6, 7]);
    assert_eq!(small_bytes_io::read(&buf, 1), SmallBytes { data: vec![5, 6, 7] });
    assert_eq!(small_bytes_io::size(&buf, 1), 4);
    assert_eq!(small_bytes_io::val_size(&[5, 6, 7]), 4);
}

#[test]
fn a_short_byte_string_of_255_bytes_comes_back() {
    let data: Vec<u8> = (0..255u32).map(|i| (i * 7 % 256) as u8).collect();
    assert_eq!(small_bytes_io::val_size(&data), 256);
    let mut buf = vec![0u8; 260];
    small_bytes_io::write(&data, &mut buf, 2);
    assert_eq!(buf[2], 255);
    assert_eq!(small_bytes_io::size(&buf, 2), 256);
    assert_eq!(small_bytes_io::read(&buf, 2).data, data);
}

#[test]
fn a_short_byte_string_of_256_bytes_keeps_the_low_byte_of_its_length() {
    let data = vec![3u8; 256];
    let mut buf = vec![9u8; 258];
    small_bytes_io::write(&data, &mut buf, 1);
    assert_eq!(buf[1], 0);
    assert_eq!(buf[2..258].to_vec(), data);
    assert_eq!(small_bytes_io::size(&buf, 1), 1);
    assert_eq!(small_bytes_io::read(&buf, 1).data, Vec::<u8>::new());
    assert_eq!(small_bytes_io::val_size(&data), 257);
}

#[test]
fn records_are_read_where_they_were_written() {
    let mut buf = vec![0u8; 32];
    write_record(&[1, 2, 3], &mut buf, 10, 4);
    write_record(&[4, 5], &mut buf, 20, 1);
    assert_eq!(read_record(&buf, 10, 4), vec![1, 2, 3]);
    assert_eq!(read_record(&buf, 20, 1), vec![4, 5]);
    assert_eq!(record_size(&buf, 10, 4), 7);
    assert_eq!(record_size(&buf, 20, 1), 3);
}

#[test]
fn big_endian_loads_and_stores() {
    let mut buf = vec![0u8; 10];
    store_be(&mut buf, 1, 3, 0x0a0b0c);
    assert_eq!(buf, vec![0, 0x0a, 0x0b, 0x0c, 0, 0, 0, 0, 0, 0]);
    assert_eq!(load_be(&buf, 1, 3), 0x0a0b0c);
    assert_eq!(load_be(&buf, 0, 0), 0);
    store_be(&mut buf, 4, 2, 0x12_3456);
    assert_eq!(load_be(&buf, 4, 2), 0x3456);
    store_be(&mut buf, 2, 8, u64::MAX);
    assert_eq!(load_be(&buf, 2, 8), u64::MAX);
    store_bytes(&mut buf, 8, &[1, 2]);
    assert_eq!(load_bytes(&buf, 7, 3), vec![0xff, 1, 2]);
}

#[test]
fn patterns_of_signed_integers() {
    assert_eq!(to_pattern(-1, 1), 0xff);
    assert_eq!(to_pattern(-1, 2), 0xffff);
    assert_eq!(to_pattern(-1, 4), 0xffff_ffff);
    assert_eq!(to_pattern(-1, 8), u64::MAX);
    assert_eq!(to_pattern(5, 2), 5);
    assert_eq!(to_pattern(i64::MIN, 8), 0x8000_0000_0000_0000);
    assert_eq!(from_pattern(0x80, 1), -128);
    assert_eq!(from_pattern(0x7f, 1), 127);
    assert_eq!(from_pattern(0xfffe, 2), -2);
    assert_eq!(from_pattern(0x8000_0000, 4), i32::MIN as i64);
    assert_eq!(from_pattern(u64::MAX, 8), -1);
    assert_eq!(from_pattern(0x7fff_ffff_ffff_ffff, 8), i64::MAX);
}
