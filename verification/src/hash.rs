//! The 64-bit XXH64 digest, as the `twox-hash` crate computes it.
//!
//! Nothing in this file is proved: each item states what the crate's hasher
//! does, and the digests built on it rest on these statements.
use std::hash::Hasher;
use twox_hash::XxHash64;
use vstd::prelude::*;

verus! {

/// `twox_hash::XxHash64`, the streaming XXH64 hasher. Its state is private to
/// the crate; [`seed_of`] and [`fed`] stand for what determines its digest.
#[verifier::external_type_specification]
#[verifier::external_body]
pub struct ExXxHash64(XxHash64);

/// The seed that a hasher was made with.
pub uninterp spec fn seed_of(hasher: XxHash64) -> u64;

/// The bytes that a hasher has been given since it was made, in order.
pub uninterp spec fn fed(hasher: XxHash64) -> Seq<u8>;

/// The XXH64 digest of a sequence of bytes under a seed.
pub uninterp spec fn xxh64_seeded(seed: u64, data: Seq<u8>) -> u64;

/// The XXH64 digest of a sequence of bytes under the seed 0.
pub open spec fn xxh64(data: Seq<u8>) -> u64 {
    xxh64_seeded(0, data)
}

/// `XxHash64::default()`: a hasher with seed 0 that has been given nothing.
#[verifier::external_body]
pub(crate) fn hasher() -> (h: XxHash64)
    ensures
        seed_of(h) == 0,
        fed(h) == Seq::<u8>::empty(),
{
    XxHash64::default()
}

/// `Hasher::write` of `XxHash64`: the hasher takes `data` in after what it was
/// given before, and keeps its seed. How the bytes are cut into calls makes no
/// difference to it. The hasher counts its input in a `u64`, which must not
/// overflow.
#[verifier::external_body]
pub(crate) fn feed(h: &mut XxHash64, data: &[u8])
    requires
        fed(*old(h)).len() + data@.len() <= u64::MAX,
    ensures
        seed_of(*final(h)) == seed_of(*old(h)),
        fed(*final(h)) == fed(*old(h)) + data@,
{
    h.write(data)
}

/// `Hasher::finish` of `XxHash64`: the digest, under the hasher's seed, of
/// everything that the hasher was given. The hasher itself is left as it was.
#[verifier::external_body]
pub(crate) fn finish(h: &XxHash64) -> (d: u64)
    ensures
        d == xxh64_seeded(seed_of(*h), fed(*h)),
{
    h.finish()
}

} // verus!
