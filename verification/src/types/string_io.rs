//! The codec of text: a four-byte count, then the text in UTF-8.
use crate::bytes::{key_of_bytes, overwrite, prefix_key, radix};
use crate::types::prefixed::{
    countable, lemma_record_round_trip, read_record, readable, record, record_size, stored,
    stored_len, write_record,
};
use vstd::pervasive::unreached;
use vstd::prelude::*;
use vstd::utf8::{
    decode_utf8, encode_utf8, encode_utf8_decode_utf8, encode_utf8_valid_utf8, valid_utf8,
};

verus! {

/// The number of bytes of the count.
pub const PREFIX: usize = 4;

/// The bytes that stand for `val`.
pub open spec fn encoding(val: Seq<char>) -> Seq<u8> {
    record(4, encode_utf8(val))
}

/// The text of the record at `addr`.
pub open spec fn decoding(buf: Seq<u8>, addr: int) -> Seq<char> {
    decode_utf8(stored(buf, addr, 4))
}

/// The key of `val` that orders like its beginning: the first eight bytes of
/// its UTF-8 form, then zeros.
pub open spec fn digest(val: Seq<char>) -> Seq<u8> {
    prefix_key(encode_utf8(val))
}

/// `String::from_utf8`: the string whose UTF-8 form is `bytes`, or `None` where
/// `bytes` is not well-formed UTF-8.
#[verifier::external_body]
fn from_utf8(bytes: Vec<u8>) -> (text: Option<String>)
    ensures
        text is Some <==> valid_utf8(bytes@),
        text matches Some(s) ==> encode_utf8(s@) == bytes@,
{
    String::from_utf8(bytes).ok()
}

/// Whether the payload of the record at `addr` is well-formed UTF-8, and so
/// text that can be read.
pub fn holds_text(buf: &[u8], addr: usize) -> (ok: bool)
    requires
        readable(buf@, addr as int, 4),
    ensures
        ok == valid_utf8(stored(buf@, addr as int, 4)),
{
    let payload = read_record(buf, addr, PREFIX);
    from_utf8(payload).is_some()
}

/// Reads the text at `addr`. The payload there must be well-formed UTF-8.
pub fn read(buf: &[u8], addr: usize) -> (val: String)
    requires
        readable(buf@, addr as int, 4),
        valid_utf8(stored(buf@, addr as int, 4)),
    ensures
        val@ == decoding(buf@, addr as int),
{
    let payload = read_record(buf, addr, PREFIX);
    match from_utf8(payload) {
        Some(text) => {
            proof {
                encode_utf8_decode_utf8(text@);
            }
            text
        },
        None => unreached(),
    }
}

/// Writes `val` at `addr`.
pub fn write(val: &str, buf: &mut [u8], addr: usize)
    requires
        addr + PREFIX + encode_utf8(val@).len() <= old(buf)@.len(),
    ensures
        final(buf)@ == overwrite(old(buf)@, addr as int, encoding(val@)),
{
    write_record(val.as_bytes(), buf, addr, PREFIX);
}

/// The number of bytes that the record at `addr` occupies.
pub fn size(buf: &[u8], addr: usize) -> (n: usize)
    requires
        countable(buf@, addr as int, 4),
    ensures
        n == PREFIX + stored_len(buf@, addr as int, 4),
{
    record_size(buf, addr, PREFIX)
}

/// The number of bytes that `val` occupies once written.
pub fn val_size(val: &str) -> (n: usize)
    requires
        PREFIX + encode_utf8(val@).len() <= usize::MAX,
    ensures
        n == PREFIX + encode_utf8(val@).len(),
{
    val.len() + PREFIX
}

/// The eight-byte key of `val` that orders like its beginning.
pub fn feature(val: &str) -> (key: [u8; 8])
    ensures
        key@ == digest(val@),
        key@.len() == 8,
{
    key_of_bytes(val.as_bytes())
}

/// Text whose UTF-8 form is shorter than 2^32 bytes is read as it was written,
/// and occupies in the buffer the size computed from the value.
pub proof fn lemma_round_trip(buf: Seq<u8>, addr: int, val: Seq<char>)
    requires
        0 <= addr,
        addr + PREFIX + encode_utf8(val).len() <= buf.len(),
        encode_utf8(val).len() < radix(4),
    ensures
        readable(overwrite(buf, addr, encoding(val)), addr, 4),
        valid_utf8(stored(overwrite(buf, addr, encoding(val)), addr, 4)),
        decoding(overwrite(buf, addr, encoding(val)), addr) == val,
        PREFIX + stored_len(overwrite(buf, addr, encoding(val)), addr, 4) == PREFIX + encode_utf8(
            val,
        ).len(),
{
    lemma_record_round_trip(buf, addr, 4, encode_utf8(val));
    encode_utf8_decode_utf8(val);
    encode_utf8_valid_utf8(val);
}

} // verus!
