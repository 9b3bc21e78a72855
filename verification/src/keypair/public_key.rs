//! A public key: a point on the curve, held as its SEC1 bytes in the form
//! that the key records.

use crate::bytes::copy_bytes;
use crate::curve::{
    is_point, sec1_frame, sec1_framed, sec1_point, secp256k1_public_point, secp256k1_sec1_point,
};
use crate::hex::{decode_hex, encode_hex, hex_bytes, hex_text};
use crate::keypair::private_key::PrivateKey;
use crate::keypair::pubkey_errors::PublicKeyErrors;
use vstd::prelude::*;

verus! {

/// A public key: the SEC1 bytes of a point on the curve, 33 when compressed
/// and 65 when not, and the form they are in. A key is made by a reader or
/// from a private key and never changed.
#[derive(Debug, PartialEq, Eq)]
pub struct PublicKey {
    point: Vec<u8>,
    is_compressed: bool,
}

/// What a public key holds: the bytes of its point and the form they are in.
/// Two keys are the same key when both agree, so a compressed key and the
/// uncompressed key of the same point are different keys.
pub struct PublicKeyView {
    pub point: Seq<u8>,
    pub is_compressed: bool,
}

impl PublicKeyView {
    /// The bytes are a point encoding in the recorded form.
    pub open spec fn wf(self) -> bool {
        is_point(self.point, self.is_compressed)
    }
}

impl View for PublicKey {
    type V = PublicKeyView;

    closed spec fn view(&self) -> PublicKeyView {
        PublicKeyView { point: self.point@, is_compressed: self.is_compressed }
    }
}

impl Clone for PublicKey {
    fn clone(&self) -> (copy: Self)
        ensures
            copy@ == self@,
    {
        proof {
            use_type_invariant(self);
        }
        PublicKey { point: copy_bytes(self.point.as_slice()), is_compressed: self.is_compressed }
    }
}

impl PublicKey {
    /// Every public key holds a point encoding in the form it records.
    #[verifier::type_invariant]
    spec fn wf(&self) -> bool {
        self@.wf()
    }

    /// What reading SEC1 bytes as a public key in the given form gives.
    pub open spec fn spec_from_bytes(bytes: Seq<u8>, compress: bool) -> Result<
        PublicKeyView,
        PublicKeyErrors,
    > {
        match secp256k1_sec1_point(bytes, compress) {
            Some(point) => Ok(PublicKeyView { point, is_compressed: compress }),
            None => Err(PublicKeyErrors::InvalidPoint),
        }
    }

    /// What reading a hexadecimal text as a public key in the given form
    /// gives.
    pub open spec fn spec_from_hex(text: Seq<char>, compress: bool) -> Result<
        PublicKeyView,
        PublicKeyErrors,
    > {
        match hex_bytes(text) {
            Some(bytes) => Self::spec_from_bytes(bytes, compress),
            None => Err(PublicKeyErrors::ParseHex),
        }
    }

    /// The public key of a private scalar in the given form.
    pub open spec fn spec_from_private_key(scalar: Seq<u8>, compress: bool) -> PublicKeyView {
        PublicKeyView { point: secp256k1_public_point(scalar, compress), is_compressed: compress }
    }

    /// The view of a result of the readers.
    pub open spec fn view_result(r: Result<PublicKey, PublicKeyErrors>) -> Result<
        PublicKeyView,
        PublicKeyErrors,
    > {
        match r {
            Ok(key) => Ok(key@),
            Err(e) => Err(e),
        }
    }

    pub(crate) fn from_point(point: Vec<u8>, compress: bool) -> (key: PublicKey)
        requires
            is_point(point@, compress),
        ensures
            key@ == (PublicKeyView { point: point@, is_compressed: compress }),
            key@.wf(),
    {
        PublicKey { point, is_compressed: compress }
    }

    pub(crate) fn from_private_key_impl(priv_key: &PrivateKey, compress: bool) -> (key: PublicKey)
        ensures
            key@ == Self::spec_from_private_key(priv_key@, compress),
            key@.wf(),
    {
        PublicKey { point: priv_key.get_point(compress), is_compressed: compress }
    }

    pub(crate) fn to_hex_impl(&self) -> (r: Result<String, PublicKeyErrors>)
        ensures
            r matches Ok(text) && text@ == hex_text(self@.point) && Self::spec_from_hex(
                text@,
                self@.is_compressed,
            ) == Ok::<PublicKeyView, PublicKeyErrors>(self@),
    {
        proof {
            use_type_invariant(self);
            crate::hex::lemma_hex_round_trip(self@.point);
        }
        match self.to_bytes_impl() {
            Ok(bytes) => Ok(encode_hex(bytes.as_slice())),
            Err(e) => Err(e),
        }
    }

    pub(crate) fn to_bytes_impl(&self) -> (r: Result<Vec<u8>, PublicKeyErrors>)
        ensures
            r matches Ok(bytes) && bytes@ == self@.point && Self::spec_from_bytes(
                bytes@,
                self@.is_compressed,
            ) == Ok::<PublicKeyView, PublicKeyErrors>(self@),
    {
        proof {
            use_type_invariant(self);
        }
        match sec1_frame(self.point.as_slice()) {
            Ok(bytes) => Ok(bytes),
            Err(_) => Err(PublicKeyErrors::InvalidPoint),
        }
    }

    pub(crate) fn from_bytes_impl(bytes: &[u8], compress: bool) -> (r: Result<
        PublicKey,
        PublicKeyErrors,
    >)
        ensures
            Self::view_result(r) == Self::spec_from_bytes(bytes@, compress),
            r matches Ok(key) ==> key@.wf(),
            !sec1_framed(bytes@) || bytes@[0] == 0 ==> r matches Err(PublicKeyErrors::InvalidPoint),
    {
        match sec1_point(bytes, compress) {
            Ok(point) => Ok(PublicKey { point, is_compressed: compress }),
            Err(_) => Err(PublicKeyErrors::InvalidPoint),
        }
    }

    pub(crate) fn from_hex_impl(hex_str: String, compress: bool) -> (r: Result<
        PublicKey,
        PublicKeyErrors,
    >)
        ensures
            Self::view_result(r) == Self::spec_from_hex(hex_str@, compress),
            r matches Ok(key) ==> key@.wf(),
    {
        match decode_hex(hex_str.as_str()) {
            Ok(point_bytes) => Self::from_bytes_impl(point_bytes.as_slice(), compress),
            Err(_) => Err(PublicKeyErrors::ParseHex),
        }
    }

    /// The form to use where the caller may leave it open: compressed, unless
    /// the caller says otherwise.
    pub fn param_is_compressed(compress: Option<bool>) -> (form: bool)
        ensures
            form == match compress {
                Some(v) => v,
                None => true,
            },
    {
        match compress {
            Some(v) => v,
            None => true,
        }
    }

    /// Reads a public key from hexadecimal SEC1 text and records the form it
    /// is to be written in. Fails with `ParseHex` where the text is not
    /// hexadecimal and with `InvalidPoint` where the bytes are not a point on
    /// the curve.
    pub fn from_hex(hex_str: String, compress: bool) -> (r: Result<PublicKey, PublicKeyErrors>)
        ensures
            Self::view_result(r) == Self::spec_from_hex(hex_str@, compress),
            r matches Ok(key) ==> key@.wf(),
    {
        PublicKey::from_hex_impl(hex_str, compress)
    }

    /// Reads a public key from SEC1 bytes, compressed or not, and records the
    /// form it is to be written in. Fails with `InvalidPoint` where the bytes
    /// are not a point on the curve; bytes without a known tag and the length
    /// that goes with it are never one.
    pub fn from_bytes(bytes: &[u8], compress: bool) -> (r: Result<PublicKey, PublicKeyErrors>)
        ensures
            Self::view_result(r) == Self::spec_from_bytes(bytes@, compress),
            r matches Ok(key) ==> key@.wf(),
            !sec1_framed(bytes@) || bytes@[0] == 0 ==> r matches Err(PublicKeyErrors::InvalidPoint),
    {
        PublicKey::from_bytes_impl(bytes, compress)
    }

    /// The SEC1 bytes of the point in the recorded form. Never fails, and
    /// reading the bytes back in that form gives the key.
    pub fn to_bytes(&self) -> (r: Result<Vec<u8>, PublicKeyErrors>)
        ensures
            r matches Ok(bytes) && bytes@ == self@.point && Self::spec_from_bytes(
                bytes@,
                self@.is_compressed,
            ) == Ok::<PublicKeyView, PublicKeyErrors>(self@),
    {
        PublicKey::to_bytes_impl(&self)
    }

    /// The SEC1 bytes of the point as lower-case hexadecimal text. Never
    /// fails, and reading the text back in the recorded form gives the key.
    pub fn to_hex(&self) -> (r: Result<String, PublicKeyErrors>)
        ensures
            r matches Ok(text) && text@ == hex_text(self@.point) && Self::spec_from_hex(
                text@,
                self@.is_compressed,
            ) == Ok::<PublicKeyView, PublicKeyErrors>(self@),
    {
        PublicKey::to_hex_impl(&self)
    }

    /// The public key `d * G` of a private key, in the given form. Total and
    /// a function of its arguments.
    pub fn from_private_key(priv_key: &PrivateKey, compress: bool) -> (key: PublicKey)
        ensures
            key@ == Self::spec_from_private_key(priv_key@, compress),
            key@.wf(),
    {
        PublicKey::from_private_key_impl(priv_key, compress)
    }

    /// The bytes of the point as the key holds them.
    pub(crate) fn point(&self) -> (bytes: &[u8])
        ensures
            bytes@ == self@.point,
            is_point(bytes@, self@.is_compressed),
    {
        proof {
            use_type_invariant(self);
        }
        self.point.as_slice()
    }

    /// Whether the key writes its point compressed.
    pub fn is_compressed(&self) -> (form: bool)
        ensures
            form == self@.is_compressed,
    {
        self.is_compressed
    }
}

/// Writing a public key out and reading the bytes back in the form the key
/// records gives the same key, through bytes and through hexadecimal text.
pub proof fn law_public_key_round_trip(key: PublicKeyView)
    requires
        key.wf(),
    ensures
        PublicKey::spec_from_bytes(key.point, key.is_compressed) == Ok::<
            PublicKeyView,
            PublicKeyErrors,
        >(key),
        PublicKey::spec_from_hex(hex_text(key.point), key.is_compressed) == Ok::<
            PublicKeyView,
            PublicKeyErrors,
        >(key),
{
    crate::hex::lemma_hex_round_trip(key.point);
}

/// The public key of a private key is a function of the scalar and the form
/// alone: the same key asked twice gives the same bytes.
pub proof fn law_public_key_is_deterministic(first: Seq<u8>, second: Seq<u8>, compress: bool)
    requires
        first == second,
    ensures
        PublicKey::spec_from_private_key(first, compress) == PublicKey::spec_from_private_key(
            second,
            compress,
        ),
{
}

} // verus!
