//! Short identifiers of a public key: the 20-byte hash of its bytes, and the
//! first four bytes of that hash, by which an extended key names its parent.

pub mod errors;

pub use errors::AddressErrors;

use crate::bytes::sub_bytes;
use crate::hash::{hash160, hash160_digest};
use crate::keypair::pubkey_errors::PublicKeyErrors;
use crate::keypair::public_key::PublicKey;
use vstd::prelude::*;

verus! {

/// The address bytes of a point encoding: RIPEMD-160 of SHA-256 of it.
pub open spec fn address_of(point: Seq<u8>) -> Seq<u8> {
    hash160_digest(point)
}

/// The fingerprint of a point encoding: the first four bytes of its address.
pub open spec fn fingerprint_of(point: Seq<u8>) -> Seq<u8> {
    hash160_digest(point).subrange(0, 4)
}

/// What `address_from_hex` gives for a text and a form.
pub open spec fn spec_address_from_hex(text: Seq<char>, compress: bool) -> Result<
    Seq<u8>,
    PublicKeyErrors,
> {
    match PublicKey::spec_from_hex(text, compress) {
        Ok(key) => Ok(address_of(key.point)),
        Err(e) => Err(e),
    }
}

/// The fingerprint of the bytes of a point.
pub fn fingerprint_of_point(point: &[u8]) -> (print: Vec<u8>)
    ensures
        print@ == fingerprint_of(point@),
        print@.len() == 4,
{
    let hash = hash160(point);
    sub_bytes(hash.as_slice(), 0, 4)
}

/// The four-byte fingerprint of a public key, over its bytes as the key
/// writes them.
pub fn fingerprint(public_key: &PublicKey) -> (print: Vec<u8>)
    ensures
        print@ == fingerprint_of(public_key@.point),
        print@.len() == 4,
{
    fingerprint_of_point(public_key.point())
}

/// The 20 address bytes of a public key, over its bytes as the key writes
/// them.
pub fn address(public_key: &PublicKey) -> (hash: Vec<u8>)
    ensures
        hash@ == address_of(public_key@.point),
        hash@.len() == 20,
{
    hash160(public_key.point())
}

/// The address bytes of the public key that a hexadecimal text holds. Fails
/// with `ParseHex`, which hands the text back, where the text is not
/// hexadecimal, and with `PublicKeyError` where the bytes are not a point.
pub fn address_from_hex(hex_str: String, compress: bool) -> (r: Result<Vec<u8>, AddressErrors>)
    ensures
        match spec_address_from_hex(hex_str@, compress) {
            Ok(hash) => r matches Ok(found) && found@ == hash,
            Err(PublicKeyErrors::ParseHex) => r matches Err(AddressErrors::ParseHex { hex })
                && hex@ == hex_str@,
            Err(PublicKeyErrors::InvalidPoint) => r matches Err(
                AddressErrors::PublicKeyError { error },
            ) && error == PublicKeyErrors::InvalidPoint,
        },
{
    let kept = hex_str.clone();
    match PublicKey::from_hex(hex_str, compress) {
        Ok(key) => Ok(address(&key)),
        Err(PublicKeyErrors::ParseHex) => Err(AddressErrors::ParseHex { hex: kept }),
        Err(error) => Err(AddressErrors::PublicKeyError { error }),
    }
}

} // verus!
