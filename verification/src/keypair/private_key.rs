//! A private key: a scalar `d` with `1 <= d < n`, held as its 32 big-endian
//! bytes.

use crate::bytes::copy_bytes;
use crate::curve::{is_point, is_scalar, parse_scalar, public_point, secp256k1_public_point};
use crate::hex::{decode_hex, encode_hex, hex_bytes, hex_text};
use crate::keypair::errors::PrivateKeyErrors;
use vstd::prelude::*;

verus! {

/// A private key. Its view is the 32 big-endian bytes of its scalar; a key is
/// made by a reader or a derivation and never changed.
#[derive(Debug, PartialEq, Eq)]
pub struct PrivateKey {
    scalar: Vec<u8>,
}

impl View for PrivateKey {
    type V = Seq<u8>;

    /// The 32 bytes of the scalar.
    closed spec fn view(&self) -> Seq<u8> {
        self.scalar@
    }
}

impl Clone for PrivateKey {
    fn clone(&self) -> (copy: Self)
        ensures
            copy@ == self@,
    {
        proof {
            use_type_invariant(self);
        }
        PrivateKey { scalar: copy_bytes(self.scalar.as_slice()) }
    }
}

impl PrivateKey {
    /// Every private key holds a scalar in range.
    #[verifier::type_invariant]
    spec fn wf(&self) -> bool {
        is_scalar(self.scalar@)
    }

    /// What reading a byte string as a private key gives.
    pub open spec fn spec_from_bytes(bytes: Seq<u8>) -> Result<Seq<u8>, PrivateKeyErrors> {
        if is_scalar(bytes) {
            Ok(bytes)
        } else {
            Err(PrivateKeyErrors::InvalidScalar)
        }
    }

    /// What reading a hexadecimal text as a private key gives.
    pub open spec fn spec_from_hex(text: Seq<char>) -> Result<Seq<u8>, PrivateKeyErrors> {
        match hex_bytes(text) {
            Some(bytes) => Self::spec_from_bytes(bytes),
            None => Err(PrivateKeyErrors::ParseHex),
        }
    }

    /// The bytes of a result of the two readers.
    pub open spec fn view_result(r: Result<PrivateKey, PrivateKeyErrors>) -> Result<
        Seq<u8>,
        PrivateKeyErrors,
    > {
        match r {
            Ok(key) => Ok(key@),
            Err(e) => Err(e),
        }
    }

    pub(crate) fn from_scalar(scalar: Vec<u8>) -> (key: PrivateKey)
        requires
            is_scalar(scalar@),
        ensures
            key@ == scalar@,
    {
        PrivateKey { scalar }
    }

    /// Reads a private key from its 32 big-endian bytes.
    pub fn from_bytes(bytes: &[u8]) -> (r: Result<PrivateKey, PrivateKeyErrors>)
        ensures
            Self::view_result(r) == Self::spec_from_bytes(bytes@),
    {
        if bytes.len() != 32 {
            return Err(PrivateKeyErrors::InvalidScalar);
        }
        match parse_scalar(bytes) {
            Ok(scalar) => Ok(PrivateKey { scalar }),
            Err(_) => Err(PrivateKeyErrors::InvalidScalar),
        }
    }

    /// Reads a private key from 64 hexadecimal digits.
    pub fn from_hex(hex_str: String) -> (r: Result<PrivateKey, PrivateKeyErrors>)
        ensures
            Self::view_result(r) == Self::spec_from_hex(hex_str@),
    {
        match decode_hex(hex_str.as_str()) {
            Ok(bytes) => Self::from_bytes(bytes.as_slice()),
            Err(_) => Err(PrivateKeyErrors::ParseHex),
        }
    }

    /// The 32 big-endian bytes of the scalar. Reading them back gives the
    /// key.
    pub fn to_bytes(&self) -> (bytes: Vec<u8>)
        ensures
            bytes@ == self@,
            Self::spec_from_bytes(bytes@) == Ok::<Seq<u8>, PrivateKeyErrors>(self@),
    {
        proof {
            use_type_invariant(self);
        }
        copy_bytes(self.scalar.as_slice())
    }

    /// The scalar as 64 lower-case hexadecimal digits. Reading them back
    /// gives the key.
    pub fn to_hex(&self) -> (text: String)
        ensures
            text@ == hex_text(self@),
            Self::spec_from_hex(text@) == Ok::<Seq<u8>, PrivateKeyErrors>(self@),
    {
        proof {
            use_type_invariant(self);
            crate::hex::lemma_hex_round_trip(self@);
        }
        encode_hex(self.scalar.as_slice())
    }

    /// The SEC1 bytes of the public point `d * G`, compressed or not.
    pub fn get_point(&self, compress: bool) -> (point: Vec<u8>)
        ensures
            point@ == secp256k1_public_point(self@, compress),
            is_point(point@, compress),
    {
        proof {
            use_type_invariant(self);
        }
        public_point(self.scalar.as_slice(), compress)
    }
}

/// Writing a private key out and reading the bytes back gives the same key,
/// through bytes and through hexadecimal text.
pub proof fn law_private_key_round_trip(scalar: Seq<u8>)
    requires
        is_scalar(scalar),
    ensures
        PrivateKey::spec_from_bytes(scalar) == Ok::<Seq<u8>, PrivateKeyErrors>(scalar),
        PrivateKey::spec_from_hex(hex_text(scalar)) == Ok::<Seq<u8>, PrivateKeyErrors>(scalar),
{
    crate::hex::lemma_hex_round_trip(scalar);
}

} // verus!
