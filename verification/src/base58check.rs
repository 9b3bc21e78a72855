//! Checksummed Base58 text: a payload, the first four bytes of its double
//! SHA-256 behind it, and the whole written in Base58.

use crate::base58::{
    base58_bytes, base58_text, decode_base58, encode_base58, lemma_base58_round_trip,
};
use crate::bytes::{append_bytes, bytes_equal, copy_bytes, sub_bytes};
use crate::hash::{double_sha256, double_sha256_digest};
use crate::keypair::extended_key_errors::ExtendedKeyErrors;
use vstd::prelude::*;

verus! {

/// The four checksum bytes of a payload.
pub open spec fn checksum_of(payload: Seq<u8>) -> Seq<u8> {
    double_sha256_digest(payload).subrange(0, 4)
}

/// The checksummed text of a payload.
pub open spec fn check_text(payload: Seq<u8>) -> Seq<char> {
    base58_text(payload + checksum_of(payload))
}

/// What is left of checksummed bytes once the checksum is taken off, given
/// the digest of the part before the last four bytes.
pub open spec fn spec_strip_checksum(data: Seq<u8>, digest: Seq<u8>) -> Result<
    Seq<u8>,
    ExtendedKeyErrors,
> {
    if data.len() < 4 || digest.len() < 4 {
        Err(ExtendedKeyErrors::InvalidLength)
    } else if data.subrange(data.len() - 4, data.len() as int) != digest.subrange(0, 4) {
        Err(ExtendedKeyErrors::InvalidChecksum)
    } else {
        Ok(data.subrange(0, data.len() - 4))
    }
}

/// The payload under checksummed bytes: what stands before the last four
/// bytes, where those are its checksum.
pub open spec fn spec_split_check(data: Seq<u8>) -> Result<Seq<u8>, ExtendedKeyErrors> {
    if data.len() < 4 {
        Err(ExtendedKeyErrors::InvalidLength)
    } else if data.subrange(data.len() - 4, data.len() as int) != checksum_of(
        data.subrange(0, data.len() - 4),
    ) {
        Err(ExtendedKeyErrors::InvalidChecksum)
    } else {
        Ok(data.subrange(0, data.len() - 4))
    }
}

/// The payload under a checksummed text.
pub open spec fn check_payload(text: Seq<char>) -> Result<Seq<u8>, ExtendedKeyErrors> {
    match base58_bytes(text) {
        Some(data) => spec_split_check(data),
        None => Err(ExtendedKeyErrors::Base58Decode),
    }
}

/// The bytes of a result that holds a buffer.
pub open spec fn bytes_result(r: Result<Vec<u8>, ExtendedKeyErrors>) -> Result<
    Seq<u8>,
    ExtendedKeyErrors,
> {
    match r {
        Ok(v) => Ok(v@),
        Err(e) => Err(e),
    }
}

/// Takes the checksum off `data`, holding its last four bytes against the
/// first four of `digest`: the digest of the bytes before them.
pub fn strip_checksum(data: &[u8], digest: &[u8]) -> (r: Result<Vec<u8>, ExtendedKeyErrors>)
    ensures
        bytes_result(r) == spec_strip_checksum(data@, digest@),
{
    if data.len() < 4 || digest.len() < 4 {
        return Err(ExtendedKeyErrors::InvalidLength);
    }
    let body = data.len() - 4;
    let given = sub_bytes(data, body, data.len());
    let wanted = sub_bytes(digest, 0, 4);
    if !bytes_equal(given.as_slice(), wanted.as_slice()) {
        return Err(ExtendedKeyErrors::InvalidChecksum);
    }
    Ok(sub_bytes(data, 0, body))
}

/// The payload with its checksum behind it.
pub fn with_checksum(payload: &[u8]) -> (data: Vec<u8>)
    ensures
        data@ == payload@ + checksum_of(payload@),
        data@.len() == payload@.len() + 4,
        spec_split_check(data@) == Ok::<Seq<u8>, ExtendedKeyErrors>(payload@),
{
    let digest = double_sha256(payload);
    let sum = sub_bytes(digest.as_slice(), 0, 4);
    let mut data = copy_bytes(payload);
    append_bytes(&mut data, sum.as_slice());
    proof {
        let n = data@.len() as int;
        assert(data@.subrange(0, n - 4) =~= payload@);
        assert(data@.subrange(n - 4, n) =~= checksum_of(payload@));
    }
    data
}

/// Takes the checksum off `data` and hands back the payload before it.
pub fn split_check(data: &[u8]) -> (r: Result<Vec<u8>, ExtendedKeyErrors>)
    ensures
        bytes_result(r) == spec_split_check(data@),
{
    if data.len() < 4 {
        return Err(ExtendedKeyErrors::InvalidLength);
    }
    let body = sub_bytes(data, 0, data.len() - 4);
    let digest = double_sha256(body.as_slice());
    strip_checksum(data, digest.as_slice())
}

/// Writes a payload as checksummed Base58 text. Reading the text back gives
/// the payload.
pub fn encode_check(payload: &[u8]) -> (text: String)
    ensures
        text@ == check_text(payload@),
        check_payload(text@) == Ok::<Seq<u8>, ExtendedKeyErrors>(payload@),
{
    let data = with_checksum(payload);
    proof {
        lemma_base58_round_trip(data@);
    }
    encode_base58(data.as_slice())
}

/// Reads the payload under a checksummed Base58 text. Fails with
/// `Base58Decode` where the text is not Base58, with `InvalidLength` where
/// fewer than four bytes lie under it, and with `InvalidChecksum` where the
/// last four bytes are not the checksum of the rest.
pub fn decode_check(text: &str) -> (r: Result<Vec<u8>, ExtendedKeyErrors>)
    ensures
        bytes_result(r) == check_payload(text@),
{
    match decode_base58(text) {
        Ok(data) => split_check(data.as_slice()),
        Err(_) => Err(ExtendedKeyErrors::Base58Decode),
    }
}

} // verus!
