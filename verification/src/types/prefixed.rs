//! Records of variable length: a count of bytes, then that many bytes.
//!
//! The count is a big-endian number of one or four bytes. A payload too long
//! for its count is still written whole, but only the low-order bytes of its
//! length are kept: such a record does not read back as it was written.
use crate::bytes::{
    be_bytes, be_value, lemma_be_bytes_len, lemma_be_value_of_bytes, lemma_radix_values, load_be,
    load_bytes, overwrite, radix, store_be, store_bytes, window,
};
use vstd::arithmetic::div_mod::lemma_small_mod;
use vstd::prelude::*;

verus! {

/// The bytes of a record: the payload's length in `prefix` bytes, then the
/// payload.
pub open spec fn record(prefix: nat, payload: Seq<u8>) -> Seq<u8> {
    be_bytes(payload.len(), prefix) + payload
}

/// The payload length that the record at `addr` declares.
pub open spec fn stored_len(buf: Seq<u8>, addr: int, prefix: nat) -> nat {
    be_value(window(buf, addr, prefix as int))
}

/// The payload of the record at `addr`.
pub open spec fn stored(buf: Seq<u8>, addr: int, prefix: nat) -> Seq<u8> {
    window(buf, addr + prefix, stored_len(buf, addr, prefix) as int)
}

/// Whether the count of the record at `addr` lies within the buffer, and the
/// size that it declares is a number that the machine can hold.
pub open spec fn countable(buf: Seq<u8>, addr: int, prefix: nat) -> bool {
    &&& 0 <= addr
    &&& addr + prefix <= buf.len()
    &&& prefix + stored_len(buf, addr, prefix) <= usize::MAX
}

/// Whether the record at `addr` lies within the buffer: its count does, and so
/// do as many bytes after it as the count says.
pub open spec fn readable(buf: Seq<u8>, addr: int, prefix: nat) -> bool {
    &&& 0 <= addr
    &&& addr + prefix <= buf.len()
    &&& addr + prefix + stored_len(buf, addr, prefix) <= buf.len()
}

/// Whether the count of the record at `addr` lies within the buffer, and the
/// size that it declares is a number that the machine can hold.
pub fn is_countable(buf: &[u8], addr: usize, prefix: usize) -> (ok: bool)
    requires
        prefix == 1 || prefix == 4,
    ensures
        ok == countable(buf@, addr as int, prefix as nat),
{
    assert(buf@.len() == buf.len());
    if addr > buf.len() || prefix > buf.len() - addr {
        return false;
    }
    let len = load_be(buf, addr, prefix);
    len <= (usize::MAX - prefix) as u64
}

/// Whether the record at `addr` lies within the buffer.
pub fn is_readable(buf: &[u8], addr: usize, prefix: usize) -> (ok: bool)
    requires
        prefix == 1 || prefix == 4,
    ensures
        ok == readable(buf@, addr as int, prefix as nat),
{
    assert(buf@.len() == buf.len());
    if addr > buf.len() || prefix > buf.len() - addr {
        return false;
    }
    let len = load_be(buf, addr, prefix);
    len <= (buf.len() - addr - prefix) as u64
}

/// A record is as long as its count and its payload together.
pub proof fn lemma_record_len(prefix: nat, payload: Seq<u8>)
    ensures
        record(prefix, payload).len() == prefix + payload.len(),
{
    lemma_be_bytes_len(payload.len(), prefix);
}

/// The payload of the record at `addr`.
pub fn read_record(buf: &[u8], addr: usize, prefix: usize) -> (payload: Vec<u8>)
    requires
        prefix == 1 || prefix == 4,
        readable(buf@, addr as int, prefix as nat),
    ensures
        payload@ == stored(buf@, addr as int, prefix as nat),
{
    proof {
        lemma_radix_values();
    }
    assert(buf@.len() == buf.len());
    let len = load_be(buf, addr, prefix) as usize;
    load_bytes(buf, addr + prefix, len)
}

/// Writes the record of `payload` at `addr`.
pub fn write_record(payload: &[u8], buf: &mut [u8], addr: usize, prefix: usize)
    requires
        prefix == 1 || prefix == 4,
        addr + prefix + payload@.len() <= old(buf)@.len(),
    ensures
        final(buf)@ == overwrite(old(buf)@, addr as int, record(prefix as nat, payload@)),
{
    assert(payload@.len() == payload.len());
    assert(buf@.len() == buf.len());
    store_be(buf, addr, prefix, payload.len() as u64);
    store_bytes(buf, addr + prefix, payload);
    proof {
        lemma_be_bytes_len(payload@.len(), prefix as nat);
        assert(buf@ =~= overwrite(old(buf)@, addr as int, record(prefix as nat, payload@)));
    }
}

/// The number of bytes that the record at `addr` occupies.
pub fn record_size(buf: &[u8], addr: usize, prefix: usize) -> (n: usize)
    requires
        prefix == 1 || prefix == 4,
        countable(buf@, addr as int, prefix as nat),
    ensures
        n == prefix + stored_len(buf@, addr as int, prefix as nat),
{
    proof {
        lemma_radix_values();
    }
    assert(buf@.len() == buf.len());
    let len = load_be(buf, addr, prefix) as usize;
    len + prefix
}

/// A record whose payload is short enough for its count reads back as it was
/// written, wherever in a buffer it was put.
pub proof fn lemma_record_round_trip(buf: Seq<u8>, addr: int, prefix: nat, payload: Seq<u8>)
    requires
        0 <= addr,
        addr + prefix + payload.len() <= buf.len(),
        payload.len() < radix(prefix),
    ensures
        readable(overwrite(buf, addr, record(prefix, payload)), addr, prefix),
        stored_len(overwrite(buf, addr, record(prefix, payload)), addr, prefix) == payload.len(),
        stored(overwrite(buf, addr, record(prefix, payload)), addr, prefix) == payload,
{
    let after = overwrite(buf, addr, record(prefix, payload));
    let count = be_bytes(payload.len(), prefix);
    lemma_be_bytes_len(payload.len(), prefix);
    lemma_be_value_of_bytes(payload.len(), prefix);
    lemma_small_mod(payload.len(), radix(prefix));
    assert(window(after, addr, prefix as int) =~= count);
    assert(window(after, addr + prefix, payload.len() as int) =~= payload);
}

} // verus!
