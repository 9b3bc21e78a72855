//! The hash functions the key formats are built on, and the two pipelines
//! made of them.

use hmac::{Hmac, Mac};
use ripemd::Ripemd160;
use sha2::{Digest, Sha256, Sha512};
use vstd::prelude::*;

verus! {

/// The SHA-256 digest of a byte string, as the `sha2` crate computes it.
pub uninterp spec fn sha256_digest(data: Seq<u8>) -> Seq<u8>;

/// The RIPEMD-160 digest of a byte string, as the `ripemd` crate computes it.
pub uninterp spec fn ripemd160_digest(data: Seq<u8>) -> Seq<u8>;

/// The HMAC-SHA-512 tag of `data` under `key`, as the `hmac` crate computes
/// it.
pub uninterp spec fn hmac_sha512_digest(key: Seq<u8>, data: Seq<u8>) -> Seq<u8>;

/// SHA-256 applied twice.
pub open spec fn double_sha256_digest(data: Seq<u8>) -> Seq<u8> {
    sha256_digest(sha256_digest(data))
}

/// RIPEMD-160 of SHA-256.
pub open spec fn hash160_digest(data: Seq<u8>) -> Seq<u8> {
    ripemd160_digest(sha256_digest(data))
}

/// Calls `Sha256::digest`. Believed of it: the digest is a function of the
/// data alone and has 32 bytes.
#[verifier::external_body]
pub(crate) fn sha256(data: &[u8]) -> (digest: Vec<u8>)
    ensures
        digest@ == sha256_digest(data@),
        digest@.len() == 32,
{
    Sha256::digest(data).to_vec()
}

/// Calls `Ripemd160::digest`. Believed of it: the digest is a function of the
/// data alone and has 20 bytes.
#[verifier::external_body]
pub(crate) fn ripemd160(data: &[u8]) -> (digest: Vec<u8>)
    ensures
        digest@ == ripemd160_digest(data@),
        digest@.len() == 20,
{
    Ripemd160::digest(data).to_vec()
}

/// Keys `Hmac<Sha512>` with `key`, feeds it `data` and takes the tag.
/// Believed of it: the tag is a function of key and data alone and has 64
/// bytes. `new_from_slice` accepts a key of any length.
#[verifier::external_body]
pub(crate) fn hmac_sha512(key: &[u8], data: &[u8]) -> (tag: Vec<u8>)
    ensures
        tag@ == hmac_sha512_digest(key@, data@),
        tag@.len() == 64,
{
    let mut mac = Hmac::<Sha512>::new_from_slice(key).expect("HMAC takes a key of any length");
    mac.update(data);
    mac.finalize().into_bytes().to_vec()
}

/// SHA-256 of SHA-256 of `data`.
pub fn double_sha256(data: &[u8]) -> (digest: Vec<u8>)
    ensures
        digest@ == double_sha256_digest(data@),
        digest@.len() == 32,
{
    let first = sha256(data);
    sha256(first.as_slice())
}

/// RIPEMD-160 of SHA-256 of `data`.
pub fn hash160(data: &[u8]) -> (digest: Vec<u8>)
    ensures
        digest@ == hash160_digest(data@),
        digest@.len() == 20,
{
    let first = sha256(data);
    ripemd160(first.as_slice())
}

} // verus!
