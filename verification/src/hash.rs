//! The two hash functions that the lock commits with.

use vstd::prelude::*;

verus! {

/// The 32-byte Blake2b digest of `data` under the chain's personalisation.
pub uninterp spec fn blake2b_256_digest(data: Seq<u8>) -> Seq<u8>;

/// The 32-byte SHA-256 digest of `data`.
pub uninterp spec fn sha256_digest(data: Seq<u8>) -> Seq<u8>;

/// Length of the truncated hashes that script arguments, payment hashes and
/// public-key hashes carry.
pub const SHORT_HASH_LEN: usize = 20;

/// The leading 20 bytes of the Blake2b digest of `data`.
pub open spec fn blake2b_160(data: Seq<u8>) -> Seq<u8> {
    blake2b_256_digest(data).subrange(0, 20)
}

/// The leading 20 bytes of the SHA-256 digest of `data`.
pub open spec fn sha256_160(data: Seq<u8>) -> Seq<u8> {
    sha256_digest(data).subrange(0, 20)
}

/// Calls `ckb_hash::blake2b_256`. Trusted: the result is the digest that the
/// name `blake2b_256_digest` stands for, a function of the input bytes alone.
#[verifier::external_body]
pub(crate) fn blake2b_256(data: &[u8]) -> (digest: [u8; 32])
    ensures
        digest@ == blake2b_256_digest(data@),
{
    ckb_hash::blake2b_256(data)
}

/// Calls `sha2::Sha256::digest`. Trusted: the result is the digest that the
/// name `sha256_digest` stands for, a function of the input bytes alone.
#[verifier::external_body]
pub(crate) fn sha256(data: &[u8]) -> (digest: [u8; 32])
    ensures
        digest@ == sha256_digest(data@),
{
    <sha2::Sha256 as sha2::Digest>::digest(data).into()
}

/// A result that holds bytes as a mathematical value.
pub open spec fn bytes_view<E>(bytes: Result<Vec<u8>, E>) -> Result<Seq<u8>, E> {
    match bytes {
        Ok(b) => Ok(b@),
        Err(e) => Err(e),
    }
}

/// Whether two byte strings are equal.
pub fn bytes_eq(a: &[u8], b: &[u8]) -> (eq: bool)
    ensures
        eq <==> a@ == b@,
{
    if a.len() != b.len() {
        return false;
    }
    let mut i: usize = 0;
    while i < a.len()
        invariant
            a@.len() == b@.len(),
            i <= a@.len(),
            a@.subrange(0, i as int) == b@.subrange(0, i as int),
        decreases a@.len() - i,
    {
        if a[i] != b[i] {
            assert(a@[i as int] != b@[i as int]);
            return false;
        }
        assert(a@.subrange(0, i + 1) == a@.subrange(0, i as int).push(a@[i as int]));
        assert(b@.subrange(0, i + 1) == b@.subrange(0, i as int).push(b@[i as int]));
        i += 1;
    }
    assert(a@ == a@.subrange(0, a@.len() as int));
    assert(b@ == b@.subrange(0, b@.len() as int));
    true
}

/// The truncated Blake2b hash of `data`, as script arguments and public-key
/// hashes use it.
pub fn short_blake2b(data: &[u8]) -> (hash: Vec<u8>)
    ensures
        hash@ == blake2b_160(data@),
        hash@.len() == SHORT_HASH_LEN,
{
    let digest = blake2b_256(data);
    let hash = vstd::slice::slice_to_vec(vstd::slice::slice_subrange(digest.as_slice(), 0, SHORT_HASH_LEN));
    hash
}

/// The truncated SHA-256 hash of `data`.
pub fn short_sha256(data: &[u8]) -> (hash: Vec<u8>)
    ensures
        hash@ == sha256_160(data@),
        hash@.len() == SHORT_HASH_LEN,
{
    let digest = sha256(data);
    let hash = vstd::slice::slice_to_vec(vstd::slice::slice_subrange(digest.as_slice(), 0, SHORT_HASH_LEN));
    hash
}

} // verus!
