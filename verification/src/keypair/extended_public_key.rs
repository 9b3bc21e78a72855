//! An extended public key: a compressed point with the chain code and the
//! place in the tree that let it derive its normal children.

use crate::address::fingerprint_of_point;
use crate::base58check::{check_payload, check_text, decode_check, encode_check};
use crate::bytes::{bytes_equal, copy_bytes, is_zero, sub_bytes};
use crate::curve::{
    is_point, is_scalar, sec1_point, secp256k1_public_point, tweak_point,
};
use crate::hash::hmac_sha512;
use crate::keypair::derivation::{
    neuter_spec, neutered_result, spec_derive_private, spec_derive_public, spec_public_child,
};
use crate::keypair::extended_key::{
    is_hardened, lemma_split_join, normal_child_input, spec_split, ExtendedKeyView, Payload,
    PayloadView,
};
use crate::keypair::extended_key_errors::ExtendedKeyErrors;
use crate::keypair::public_key::{PublicKey, PublicKeyView};
use crate::keypair::{HARDENED_KEY_OFFSET, XPUB_VERSION_BYTE};
use vstd::prelude::*;

verus! {

/// An extended public key. Its view holds the compressed point as `key`.
#[derive(Debug, PartialEq, Eq)]
pub struct ExtendedPublicKey {
    point: Vec<u8>,
    chain_code: Vec<u8>,
    depth: u8,
    parent_fingerprint: Vec<u8>,
    child_number: u32,
}

impl View for ExtendedPublicKey {
    type V = ExtendedKeyView;

    closed spec fn view(&self) -> ExtendedKeyView {
        ExtendedKeyView {
            key: self.point@,
            chain_code: self.chain_code@,
            depth: self.depth,
            parent_fingerprint: self.parent_fingerprint@,
            child_number: self.child_number,
        }
    }
}

impl Clone for ExtendedPublicKey {
    fn clone(&self) -> (copy: Self)
        ensures
            copy@ == self@,
    {
        proof {
            use_type_invariant(self);
        }
        ExtendedPublicKey {
            point: copy_bytes(self.point.as_slice()),
            chain_code: copy_bytes(self.chain_code.as_slice()),
            depth: self.depth,
            parent_fingerprint: copy_bytes(self.parent_fingerprint.as_slice()),
            child_number: self.child_number,
        }
    }
}

/// The payload fields of an extended public key: the public version, and the
/// compressed point as key material.
pub open spec fn spec_public_payload(key: ExtendedKeyView) -> PayloadView {
    PayloadView {
        version: XPUB_VERSION_BYTE,
        depth: key.depth,
        parent_fingerprint: key.parent_fingerprint,
        child_number: key.child_number,
        chain_code: key.chain_code,
        key_material: key.key,
    }
}

/// The extended public key that payload fields hold, or why they hold none.
pub open spec fn spec_public_from_payload(fields: PayloadView) -> Result<
    ExtendedKeyView,
    ExtendedKeyErrors,
> {
    if !fields.framed() {
        Err(ExtendedKeyErrors::InvalidLength)
    } else if fields.version != XPUB_VERSION_BYTE {
        Err(ExtendedKeyErrors::InvalidVersion)
    } else if !fields.master_ok() {
        Err(ExtendedKeyErrors::InvalidMaster)
    } else if !is_point(fields.key_material, true) {
        Err(ExtendedKeyErrors::InvalidPoint)
    } else {
        Ok(
            ExtendedKeyView {
                key: fields.key_material,
                chain_code: fields.chain_code,
                depth: fields.depth,
                parent_fingerprint: fields.parent_fingerprint,
                child_number: fields.child_number,
            },
        )
    }
}

/// The 78 payload bytes of an extended public key.
pub open spec fn spec_serialize_public(key: ExtendedKeyView) -> Seq<u8> {
    spec_public_payload(key).bytes()
}

/// The extended public key under payload bytes.
pub open spec fn spec_deserialize_public(bytes: Seq<u8>) -> Result<
    ExtendedKeyView,
    ExtendedKeyErrors,
> {
    match spec_split(bytes) {
        Ok(fields) => spec_public_from_payload(fields),
        Err(e) => Err(e),
    }
}

/// The checksummed Base58 text of an extended public key.
pub open spec fn spec_public_text(key: ExtendedKeyView) -> Seq<char> {
    check_text(spec_serialize_public(key))
}

/// The extended public key under a checksummed Base58 text.
pub open spec fn spec_public_from_text(text: Seq<char>) -> Result<
    ExtendedKeyView,
    ExtendedKeyErrors,
> {
    match check_payload(text) {
        Ok(bytes) => spec_deserialize_public(bytes),
        Err(e) => Err(e),
    }
}

/// What `child_from_parts` gives: the checks of a derivation in their order,
/// then the child around the tweaked point.
pub open spec fn spec_public_child_from_parts(
    parent: ExtendedKeyView,
    index: u32,
    tweaked: Option<PublicKeyView>,
    chain_code: Seq<u8>,
    fingerprint: Seq<u8>,
) -> Result<ExtendedKeyView, ExtendedKeyErrors> {
    if is_hardened(index) {
        Err(ExtendedKeyErrors::CannotDeriveHardenedFromPublic)
    } else if parent.depth == 255 {
        Err(ExtendedKeyErrors::DepthOverflow)
    } else if chain_code.len() != 32 || fingerprint.len() != 4 {
        Err(ExtendedKeyErrors::InvalidLength)
    } else {
        match tweaked {
            Some(key) => if key.is_compressed {
                spec_public_child(parent, index, Some(key.point), chain_code, fingerprint)
            } else {
                Err(ExtendedKeyErrors::InvalidPoint)
            },
            None => spec_public_child(parent, index, None, chain_code, fingerprint),
        }
    }
}

/// The view of an optional public key.
pub open spec fn option_key(key: Option<PublicKey>) -> Option<PublicKeyView> {
    match key {
        Some(k) => Some(k@),
        None => None,
    }
}

/// Writing an extended public key out and reading the payload back gives the
/// same key.
pub proof fn law_extended_public_round_trip(key: ExtendedKeyView)
    requires
        key.wf_public(),
    ensures
        spec_serialize_public(key).len() == 78,
        spec_deserialize_public(spec_serialize_public(key)) == Ok::<
            ExtendedKeyView,
            ExtendedKeyErrors,
        >(key),
{
    lemma_split_join(spec_public_payload(key));
}

impl ExtendedPublicKey {
    /// Every extended public key is well-formed.
    #[verifier::type_invariant]
    spec fn wf(&self) -> bool {
        self@.wf_public()
    }

    /// The views inside a result that holds a key.
    pub open spec fn view_result(r: Result<ExtendedPublicKey, ExtendedKeyErrors>) -> Result<
        ExtendedKeyView,
        ExtendedKeyErrors,
    > {
        match r {
            Ok(key) => Ok(key@),
            Err(e) => Err(e),
        }
    }

    pub(crate) fn from_parts(
        point: Vec<u8>,
        chain_code: Vec<u8>,
        depth: u8,
        parent_fingerprint: Vec<u8>,
        child_number: u32,
    ) -> (key: ExtendedPublicKey)
        requires
            (ExtendedKeyView {
                key: point@,
                chain_code: chain_code@,
                depth,
                parent_fingerprint: parent_fingerprint@,
                child_number,
            }).wf_public(),
        ensures
            key@ == (ExtendedKeyView {
                key: point@,
                chain_code: chain_code@,
                depth,
                parent_fingerprint: parent_fingerprint@,
                child_number,
            }),
    {
        ExtendedPublicKey { point, chain_code, depth, parent_fingerprint, child_number }
    }

    /// The public key.
    pub fn public_key(&self) -> (key: PublicKey)
        ensures
            key@ == (PublicKeyView { point: self@.key, is_compressed: true }),
    {
        proof {
            use_type_invariant(self);
        }
        PublicKey::from_point(copy_bytes(self.point.as_slice()), true)
    }

    /// The chain code.
    pub fn chain_code(&self) -> (code: Vec<u8>)
        ensures
            code@ == self@.chain_code,
    {
        copy_bytes(self.chain_code.as_slice())
    }

    /// The number of derivation steps from the master key.
    pub fn depth(&self) -> (depth: u8)
        ensures
            depth == self@.depth,
    {
        self.depth
    }

    /// The fingerprint of the parent's public key; zero for a master key.
    pub fn parent_fingerprint(&self) -> (print: Vec<u8>)
        ensures
            print@ == self@.parent_fingerprint,
    {
        copy_bytes(self.parent_fingerprint.as_slice())
    }

    /// The index at which the key was derived from its parent.
    pub fn child_number(&self) -> (index: u32)
        ensures
            index == self@.child_number,
    {
        self.child_number
    }

    /// The payload fields of the key.
    pub fn to_payload(&self) -> (fields: Payload)
        ensures
            fields@ == spec_public_payload(self@),
            fields@.framed(),
    {
        proof {
            use_type_invariant(self);
        }
        Payload {
            version: XPUB_VERSION_BYTE,
            depth: self.depth,
            parent_fingerprint: copy_bytes(self.parent_fingerprint.as_slice()),
            child_number: self.child_number,
            chain_code: copy_bytes(self.chain_code.as_slice()),
            key_material: copy_bytes(self.point.as_slice()),
        }
    }

    /// Reads the key that payload fields hold. Fails with `InvalidLength`
    /// where a field has not its width, `InvalidVersion` where the version is
    /// not the public one, `InvalidMaster` where depth zero comes with a
    /// parent or an index, and `InvalidPoint` where the key material is not a
    /// compressed point, in that order.
    pub fn from_payload(fields: &Payload) -> (r: Result<ExtendedPublicKey, ExtendedKeyErrors>)
        ensures
            Self::view_result(r) == spec_public_from_payload(fields@),
            r matches Ok(key) ==> key@.wf_public(),
    {
        if fields.parent_fingerprint.len() != 4 || fields.chain_code.len() != 32
            || fields.key_material.len() != 33 {
            return Err(ExtendedKeyErrors::InvalidLength);
        }
        if fields.version != XPUB_VERSION_BYTE {
            return Err(ExtendedKeyErrors::InvalidVersion);
        }
        if fields.depth == 0 && (!is_zero(fields.parent_fingerprint.as_slice())
            || fields.child_number != 0) {
            return Err(ExtendedKeyErrors::InvalidMaster);
        }
        match sec1_point(fields.key_material.as_slice(), true) {
            Ok(point) => {
                if !bytes_equal(point.as_slice(), fields.key_material.as_slice()) {
                    return Err(ExtendedKeyErrors::InvalidPoint);
                }
                Ok(
                    ExtendedPublicKey {
                        point,
                        chain_code: copy_bytes(fields.chain_code.as_slice()),
                        depth: fields.depth,
                        parent_fingerprint: copy_bytes(fields.parent_fingerprint.as_slice()),
                        child_number: fields.child_number,
                    },
                )
            },
            Err(_) => Err(ExtendedKeyErrors::InvalidPoint),
        }
    }

    /// The 78 payload bytes: version, depth, parent fingerprint, child
    /// number, chain code, compressed point.
    pub fn serialize(&self) -> (bytes: Vec<u8>)
        ensures
            bytes@ == spec_serialize_public(self@),
            bytes@.len() == 78,
            spec_deserialize_public(bytes@) == Ok::<ExtendedKeyView, ExtendedKeyErrors>(self@),
    {
        proof {
            use_type_invariant(self);
            law_extended_public_round_trip(self@);
        }
        self.to_payload().join_framed()
    }

    /// Reads a key from its 78 payload bytes.
    pub fn deserialize(bytes: &[u8]) -> (r: Result<ExtendedPublicKey, ExtendedKeyErrors>)
        ensures
            Self::view_result(r) == spec_deserialize_public(bytes@),
            r matches Ok(key) ==> key@.wf_public(),
    {
        match Payload::split(bytes) {
            Ok(fields) => Self::from_payload(&fields),
            Err(e) => Err(e),
        }
    }

    /// The key as checksummed Base58 text. Reading the text back gives the
    /// key.
    pub fn to_string(&self) -> (text: String)
        ensures
            text@ == spec_public_text(self@),
            spec_public_from_text(text@) == Ok::<ExtendedKeyView, ExtendedKeyErrors>(self@),
    {
        let bytes = self.serialize();
        encode_check(bytes.as_slice())
    }

    /// Reads a key from checksummed Base58 text. Fails with the error of the
    /// first check that the text does not pass: Base58, checksum, then the
    /// checks of the payload.
    pub fn from_string(text: &str) -> (r: Result<ExtendedPublicKey, ExtendedKeyErrors>)
        ensures
            Self::view_result(r) == spec_public_from_text(text@),
            r matches Ok(key) ==> key@.wf_public(),
    {
        match decode_check(text) {
            Ok(bytes) => Self::deserialize(bytes.as_slice()),
            Err(e) => Err(e),
        }
    }

    /// Puts a child together from the parts that the hash and the curve
    /// gave: the tweaked point, if there is one, the child's chain code and
    /// this key's fingerprint.
    pub fn child_from_parts(
        &self,
        index: u32,
        tweaked: Option<PublicKey>,
        chain_code: &[u8],
        fingerprint: &[u8],
    ) -> (r: Result<ExtendedPublicKey, ExtendedKeyErrors>)
        ensures
            Self::view_result(r) == spec_public_child_from_parts(
                self@,
                index,
                option_key(tweaked),
                chain_code@,
                fingerprint@,
            ),
            r matches Ok(child) ==> child@.wf_public(),
    {
        if index >= HARDENED_KEY_OFFSET {
            return Err(ExtendedKeyErrors::CannotDeriveHardenedFromPublic);
        }
        if self.depth == 255 {
            return Err(ExtendedKeyErrors::DepthOverflow);
        }
        if chain_code.len() != 32 || fingerprint.len() != 4 {
            return Err(ExtendedKeyErrors::InvalidLength);
        }
        match tweaked {
            Some(key) => {
                if !key.is_compressed() {
                    return Err(ExtendedKeyErrors::InvalidPoint);
                }
                Ok(
                    ExtendedPublicKey {
                        point: copy_bytes(key.point()),
                        chain_code: copy_bytes(chain_code),
                        depth: self.depth + 1,
                        parent_fingerprint: copy_bytes(fingerprint),
                        child_number: index,
                    },
                )
            },
            None => Err(ExtendedKeyErrors::InvalidChildKey),
        }
    }

    /// Derives the child at a normal index: the point `IL * G + parent`
    /// under chain code `IR`, for the halves `IL`, `IR` of the HMAC-SHA-512
    /// of the parent's point and the index under the parent's chain code.
    /// Fails with `CannotDeriveHardenedFromPublic` at a hardened index, else
    /// with `DepthOverflow` at depth 255, else with `InvalidChildKey` where
    /// `IL` is not below the group order or the sum is the point at
    /// infinity.
    ///
    /// The child is the one that the holder of the private key gets: for
    /// every extended private key of which this key is the public
    /// counterpart, the outcome is the public counterpart of what deriving
    /// from the private key at the same index gives.
    pub fn derive_child(&self, index: u32) -> (r: Result<ExtendedPublicKey, ExtendedKeyErrors>)
        ensures
            Self::view_result(r) == spec_derive_public(self@, index),
            r matches Ok(child) ==> child@.wf_public(),
            forall|secret: ExtendedKeyView|
                !is_hardened(index) && #[trigger] neuter_spec(secret) == self@ && is_scalar(
                    secret.key,
                ) ==> Self::view_result(r) == neutered_result(spec_derive_private(secret, index)),
    {
        proof {
            use_type_invariant(self);
        }
        if index >= HARDENED_KEY_OFFSET {
            return Err(ExtendedKeyErrors::CannotDeriveHardenedFromPublic);
        }
        if self.depth == 255 {
            return Err(ExtendedKeyErrors::DepthOverflow);
        }
        let data = normal_child_input(self.point.as_slice(), index);
        let digest = hmac_sha512(self.chain_code.as_slice(), data.as_slice());
        let il = sub_bytes(digest.as_slice(), 0, 32);
        let ir = sub_bytes(digest.as_slice(), 32, 64);
        let print = fingerprint_of_point(self.point.as_slice());
        let tweaked = tweak_point(self.point.as_slice(), il.as_slice());
        let tweaked_key = match tweaked {
            Some(point) => Some(PublicKey::from_point(point, true)),
            None => None,
        };
        let r = self.child_from_parts(index, tweaked_key, ir.as_slice(), print.as_slice());
        proof {
            assert forall|secret: ExtendedKeyView|
                !is_hardened(index) && #[trigger] neuter_spec(secret) == self@ && is_scalar(
                    secret.key,
                ) implies Self::view_result(r) == neutered_result(
                spec_derive_private(secret, index),
            ) by {
                assert(secp256k1_public_point(secret.key, true) == self.point@);
            }
        }
        r
    }
}

} // verus!
