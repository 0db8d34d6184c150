//! Big-endian integers inside byte buffers.
//!
//! The mathematical model is a pair of functions between natural numbers and
//! byte sequences, [`be_bytes`] and [`be_value`], together with [`overwrite`],
//! which says what a buffer holds after a run of bytes was stored into it.
use vstd::arithmetic::div_mod::lemma_mod_breakdown;
use vstd::prelude::*;

verus! {

/// `256` to the power `width`: the number of values that `width` bytes can hold.
pub open spec fn radix(width: nat) -> nat
    decreases width,
{
    if width == 0 {
        1
    } else {
        256 * radix((width - 1) as nat)
    }
}

/// The number that a byte sequence denotes when its first byte is the most
/// significant one.
pub open spec fn be_value(bytes: Seq<u8>) -> nat
    decreases bytes.len(),
{
    if bytes.len() == 0 {
        0
    } else {
        be_value(bytes.drop_last()) * 256 + bytes.last() as nat
    }
}

/// The `width` low-order bytes of `value`, most significant first. A value that
/// does not fit in `width` bytes loses its high-order part.
pub open spec fn be_bytes(value: nat, width: nat) -> Seq<u8>
    decreases width,
{
    if width == 0 {
        Seq::empty()
    } else {
        be_bytes(value / 256, (width - 1) as nat).push((value % 256) as u8)
    }
}

/// The `len` bytes of `buf` that start at `at`.
pub open spec fn window(buf: Seq<u8>, at: int, len: int) -> Seq<u8> {
    buf.subrange(at, at + len)
}

/// `buf` with the bytes from `at` on replaced by `bytes`; every other position
/// keeps what it held.
pub open spec fn overwrite(buf: Seq<u8>, at: int, bytes: Seq<u8>) -> Seq<u8> {
    Seq::new(
        buf.len(),
        |i: int|
            if at <= i < at + bytes.len() {
                bytes[i - at]
            } else {
                buf[i]
            },
    )
}

/// The first eight bytes of `data`, with zeros after them where `data` is
/// shorter: a key of fixed width that orders like the data's beginning.
pub open spec fn prefix_key(data: Seq<u8>) -> Seq<u8> {
    Seq::new(
        8,
        |i: int|
            if i < data.len() {
                data[i]
            } else {
                0u8
            },
    )
}

/// The unsigned number whose `width`-byte pattern is the two's complement
/// pattern of `value`.
pub open spec fn twos_complement(value: int, width: nat) -> nat {
    if value < 0 {
        (value + radix(width)) as nat
    } else {
        value as nat
    }
}

/// The signed number that the `width`-byte pattern of `pattern` denotes in
/// two's complement.
pub open spec fn from_twos_complement(pattern: nat, width: nat) -> int {
    if 2 * pattern >= radix(width) {
        pattern - radix(width)
    } else {
        pattern as int
    }
}

/// Whether `value` is in the range of a signed integer of `width` bytes.
pub open spec fn fits_signed(value: int, width: nat) -> bool {
    -(radix(width) as int) <= 2 * value < radix(width)
}

/// The values of `radix` at the widths that the codecs use.
pub proof fn lemma_radix_values()
    ensures
        radix(0) == 1,
        radix(1) == 0x100,
        radix(2) == 0x1_0000,
        radix(3) == 0x100_0000,
        radix(4) == 0x1_0000_0000,
        radix(5) == 0x100_0000_0000,
        radix(6) == 0x1_0000_0000_0000,
        radix(7) == 0x100_0000_0000_0000,
        radix(8) == 0x1_0000_0000_0000_0000,
{
    reveal_with_fuel(radix, 10);
}

/// `radix` is never zero.
pub proof fn lemma_radix_positive(width: nat)
    ensures
        radix(width) > 0,
    decreases width,
{
    if width > 0 {
        lemma_radix_positive((width - 1) as nat);
    }
}

/// `radix` grows with the width.
pub proof fn lemma_radix_monotone(a: nat, b: nat)
    requires
        a <= b,
    ensures
        radix(a) <= radix(b),
    decreases b,
{
    if a < b {
        lemma_radix_monotone(a, (b - 1) as nat);
    }
}

/// `be_bytes` yields exactly `width` bytes.
pub proof fn lemma_be_bytes_len(value: nat, width: nat)
    ensures
        be_bytes(value, width).len() == width,
    decreases width,
{
    if width > 0 {
        lemma_be_bytes_len(value / 256, (width - 1) as nat);
    }
}

/// Decoding what was encoded gives the value back, cut to `width` bytes.
pub proof fn lemma_be_value_of_bytes(value: nat, width: nat)
    ensures
        be_value(be_bytes(value, width)) == value % radix(width),
    decreases width,
{
    if width > 0 {
        let rest = be_bytes(value / 256, (width - 1) as nat);
        let all = be_bytes(value, width);
        lemma_be_value_of_bytes(value / 256, (width - 1) as nat);
        lemma_be_bytes_len(value / 256, (width - 1) as nat);
        assert(all.drop_last() =~= rest);
        assert(all.last() == (value % 256) as u8);
        lemma_radix_positive((width - 1) as nat);
        lemma_mod_breakdown(value as int, 256, radix((width - 1) as nat) as int);
    }
}

/// Reads the `width`-byte big-endian number at `addr`.
pub fn load_be(buf: &[u8], addr: usize, width: usize) -> (value: u64)
    requires
        width <= 8,
        addr + width <= buf@.len(),
    ensures
        value == be_value(window(buf@, addr as int, width as int)),
        value < radix(width as nat),
    decreases width,
{
    if width == 0 {
        proof {
            lemma_radix_values();
        }
        0
    } else {
        let high = load_be(buf, addr, width - 1);
        assert(buf@.len() == buf.len());
        let low = buf[addr + (width - 1)];
        proof {
            let s = window(buf@, addr as int, width as int);
            assert(s.drop_last() =~= window(buf@, addr as int, width - 1));
            lemma_radix_values();
            lemma_radix_monotone(width as nat, 8);
        }
        high * 256 + low as u64
    }
}

/// Stores the `width` low-order bytes of `value` at `addr`, most significant
/// first.
pub fn store_be(buf: &mut [u8], addr: usize, width: usize, value: u64)
    requires
        width <= 8,
        addr + width <= old(buf)@.len(),
    ensures
        final(buf)@ == overwrite(old(buf)@, addr as int, be_bytes(value as nat, width as nat)),
    decreases width,
{
    if width == 0 {
        assert(buf@ =~= overwrite(buf@, addr as int, be_bytes(value as nat, 0)));
    } else {
        store_be(buf, addr, width - 1, value / 256);
        proof {
            lemma_be_bytes_len((value / 256) as nat, (width - 1) as nat);
        }
        assert(buf@.len() == buf.len());
        buf[addr + (width - 1)] = (value % 256) as u8;
        assert(buf@ =~= overwrite(old(buf)@, addr as int, be_bytes(value as nat, width as nat)));
    }
}

/// Copies the `len` bytes at `addr` out of the buffer.
pub fn load_bytes(buf: &[u8], addr: usize, len: usize) -> (out: Vec<u8>)
    requires
        addr + len <= buf@.len(),
    ensures
        out@ == window(buf@, addr as int, len as int),
{
    let mut out: Vec<u8> = Vec::new();
    let mut i: usize = 0;
    while i < len
        invariant
            i <= len,
            addr + len <= buf@.len(),
            out@ == window(buf@, addr as int, i as int),
        decreases len - i,
    {
        assert(buf@.len() == buf.len());
        out.push(buf[addr + i]);
        i += 1;
        assert(out@ =~= window(buf@, addr as int, i as int));
    }
    out
}

/// Copies `data` into the buffer at `addr`.
pub fn store_bytes(buf: &mut [u8], addr: usize, data: &[u8])
    requires
        addr + data@.len() <= old(buf)@.len(),
    ensures
        final(buf)@ == overwrite(old(buf)@, addr as int, data@),
{
    let mut i: usize = 0;
    assert(buf@ =~= overwrite(old(buf)@, addr as int, data@.subrange(0, 0)));
    while i < data.len()
        invariant
            i <= data@.len(),
            addr + data@.len() <= buf@.len(),
            buf@ == overwrite(old(buf)@, addr as int, data@.subrange(0, i as int)),
        decreases data@.len() - i,
    {
        assert(buf@.len() == buf.len());
        buf[addr + i] = data[i];
        i += 1;
        assert(buf@ =~= overwrite(old(buf)@, addr as int, data@.subrange(0, i as int)));
    }
    assert(data@.subrange(0, i as int) =~= data@);
}

/// The two's complement pattern of a signed integer of `width` bytes.
pub fn to_pattern(value: i64, width: usize) -> (pattern: u64)
    requires
        width == 1 || width == 2 || width == 4 || width == 8,
        fits_signed(value as int, width as nat),
    ensures
        pattern == twos_complement(value as int, width as nat),
        pattern < radix(width as nat),
{
    proof {
        lemma_radix_values();
    }
    if value >= 0 {
        value as u64
    } else if width == 1 {
        (value + 0x100) as u64
    } else if width == 2 {
        (value + 0x1_0000) as u64
    } else if width == 4 {
        (value + 0x1_0000_0000) as u64
    } else {
        (value as i128 + 0x1_0000_0000_0000_0000) as u64
    }
}

/// The signed integer of `width` bytes that has the given two's complement
/// pattern.
pub fn from_pattern(pattern: u64, width: usize) -> (value: i64)
    requires
        width == 1 || width == 2 || width == 4 || width == 8,
        pattern < radix(width as nat),
    ensures
        value == from_twos_complement(pattern as nat, width as nat),
        fits_signed(value as int, width as nat),
{
    proof {
        lemma_radix_values();
    }
    if width == 1 {
        if pattern >= 0x80 {
            pattern as i64 - 0x100
        } else {
            pattern as i64
        }
    } else if width == 2 {
        if pattern >= 0x8000 {
            pattern as i64 - 0x1_0000
        } else {
            pattern as i64
        }
    } else if width == 4 {
        if pattern >= 0x8000_0000 {
            pattern as i64 - 0x1_0000_0000
        } else {
            pattern as i64
        }
    } else {
        if pattern >= 0x8000_0000_0000_0000 {
            (pattern as i128 - 0x1_0000_0000_0000_0000) as i64
        } else {
            pattern as i64
        }
    }
}

/// The key of a big-endian number: its `width` bytes, then zeros.
pub fn key_of_be(value: u64, width: usize) -> (key: [u8; 8])
    requires
        width <= 8,
    ensures
        key@ == prefix_key(be_bytes(value as nat, width as nat)),
        key@.len() == 8,
{
    let mut key = [0u8; 8];
    store_be(&mut key, 0, width, value);
    proof {
        lemma_be_bytes_len(value as nat, width as nat);
        assert(key@ =~= prefix_key(be_bytes(value as nat, width as nat)));
    }
    key
}

/// The key of a byte string: its first eight bytes, then zeros.
pub fn key_of_bytes(data: &[u8]) -> (key: [u8; 8])
    ensures
        key@ == prefix_key(data@),
        key@.len() == 8,
{
    let mut key = [0u8; 8];
    let mut i: usize = 0;
    while i < 8 && i < data.len()
        invariant
            i <= 8,
            i <= data@.len(),
            forall|j: int| 0 <= j < i ==> key@[j] == data@[j],
            forall|j: int| i <= j < 8 ==> key@[j] == 0u8,
        decreases 8 - i,
    {
        key[i] = data[i];
        i += 1;
    }
    assert(key@ =~= prefix_key(data@));
    key
}

} // verus!
