//! An extended private key: a scalar with the chain code and the place in the
//! tree that let it derive every child, hardened or not.

use crate::address::fingerprint_of_point;
use crate::base58check::{check_payload, check_text, decode_check, encode_check};
use crate::bytes::{copy_bytes, is_zero, lemma_be_nat_injective, lemma_be_nat_zero, sub_bytes};
use crate::curve::{add_scalars, is_scalar, parse_scalar, public_point, scalar_sum};
use crate::hash::{hmac_sha512, hmac_sha512_digest};
use crate::keypair::derivation::{
    lemma_scalar_sum_value, neuter_spec, spec_derive_private, spec_private_child,
};
use crate::keypair::extended_key::{
    hardened_child_input, lemma_split_join, normal_child_input, spec_split, ExtendedKeyView,
    Payload, PayloadView,
};
use crate::keypair::extended_key_errors::ExtendedKeyErrors;
use crate::keypair::extended_public_key::{spec_serialize_public, ExtendedPublicKey};
use crate::keypair::private_key::PrivateKey;
use crate::keypair::public_key::PublicKey;
use crate::keypair::{HARDENED_KEY_OFFSET, XPRIV_VERSION_BYTE};
use vstd::prelude::*;

verus! {

/// An extended private key. Its view holds the scalar as `key`.
#[derive(Debug, PartialEq, Eq)]
pub struct ExtendedPrivateKey {
    scalar: Vec<u8>,
    chain_code: Vec<u8>,
    depth: u8,
    parent_fingerprint: Vec<u8>,
    child_number: u32,
}

impl View for ExtendedPrivateKey {
    type V = ExtendedKeyView;

    closed spec fn view(&self) -> ExtendedKeyView {
        ExtendedKeyView {
            key: self.scalar@,
            chain_code: self.chain_code@,
            depth: self.depth,
            parent_fingerprint: self.parent_fingerprint@,
            child_number: self.child_number,
        }
    }
}

impl Clone for ExtendedPrivateKey {
    fn clone(&self) -> (copy: Self)
        ensures
            copy@ == self@,
    {
        proof {
            use_type_invariant(self);
        }
        ExtendedPrivateKey {
            scalar: copy_bytes(self.scalar.as_slice()),
            chain_code: copy_bytes(self.chain_code.as_slice()),
            depth: self.depth,
            parent_fingerprint: copy_bytes(self.parent_fingerprint.as_slice()),
            child_number: self.child_number,
        }
    }
}

/// The payload fields of an extended private key: the private version, and a
/// zero byte before the scalar as key material.
pub open spec fn spec_private_payload(key: ExtendedKeyView) -> PayloadView {
    PayloadView {
        version: XPRIV_VERSION_BYTE,
        depth: key.depth,
        parent_fingerprint: key.parent_fingerprint,
        child_number: key.child_number,
        chain_code: key.chain_code,
        key_material: seq![0u8] + key.key,
    }
}

/// The extended private key that payload fields hold, or why they hold none.
pub open spec fn spec_private_from_payload(fields: PayloadView) -> Result<
    ExtendedKeyView,
    ExtendedKeyErrors,
> {
    if !fields.framed() {
        Err(ExtendedKeyErrors::InvalidLength)
    } else if fields.version != XPRIV_VERSION_BYTE {
        Err(ExtendedKeyErrors::InvalidVersion)
    } else if !fields.master_ok() {
        Err(ExtendedKeyErrors::InvalidMaster)
    } else if fields.key_material[0] != 0 || !is_scalar(fields.key_material.subrange(1, 33)) {
        Err(ExtendedKeyErrors::InvalidScalar)
    } else {
        Ok(
            ExtendedKeyView {
                key: fields.key_material.subrange(1, 33),
                chain_code: fields.chain_code,
                depth: fields.depth,
                parent_fingerprint: fields.parent_fingerprint,
                child_number: fields.child_number,
            },
        )
    }
}

/// The 78 payload bytes of an extended private key.
pub open spec fn spec_serialize_private(key: ExtendedKeyView) -> Seq<u8> {
    spec_private_payload(key).bytes()
}

/// The extended private key under payload bytes.
pub open spec fn spec_deserialize_private(bytes: Seq<u8>) -> Result<
    ExtendedKeyView,
    ExtendedKeyErrors,
> {
    match spec_split(bytes) {
        Ok(fields) => spec_private_from_payload(fields),
        Err(e) => Err(e),
    }
}

/// The checksummed Base58 text of an extended private key.
pub open spec fn spec_private_text(key: ExtendedKeyView) -> Seq<char> {
    check_text(spec_serialize_private(key))
}

/// The extended private key under a checksummed Base58 text.
pub open spec fn spec_private_from_text(text: Seq<char>) -> Result<
    ExtendedKeyView,
    ExtendedKeyErrors,
> {
    match check_payload(text) {
        Ok(bytes) => spec_deserialize_private(bytes),
        Err(e) => Err(e),
    }
}

/// The key under which a seed is hashed into a master key: the ASCII text
/// `Bitcoin seed`.
pub open spec fn seed_key() -> Seq<u8> {
    seq![66u8, 105u8, 116u8, 99u8, 111u8, 105u8, 110u8, 32u8, 115u8, 101u8, 101u8, 100u8]
}

/// The master key for a 64-byte digest: its left half as scalar, its right
/// half as chain code, at depth zero with no parent and no index.
pub open spec fn spec_master_from_digest(digest: Seq<u8>) -> Result<
    ExtendedKeyView,
    ExtendedKeyErrors,
> {
    if digest.len() != 64 {
        Err(ExtendedKeyErrors::InvalidLength)
    } else if !is_scalar(digest.subrange(0, 32)) {
        Err(ExtendedKeyErrors::InvalidScalar)
    } else {
        Ok(
            ExtendedKeyView {
                key: digest.subrange(0, 32),
                chain_code: digest.subrange(32, 64),
                depth: 0,
                parent_fingerprint: seq![0u8, 0u8, 0u8, 0u8],
                child_number: 0,
            },
        )
    }
}

/// What `child_from_digest` gives: the checks of a derivation in their
/// order, then the child for the two halves of the digest.
pub open spec fn spec_private_child_from_digest(
    parent: ExtendedKeyView,
    index: u32,
    digest: Seq<u8>,
    fingerprint: Seq<u8>,
) -> Result<ExtendedKeyView, ExtendedKeyErrors> {
    if parent.depth == 255 {
        Err(ExtendedKeyErrors::DepthOverflow)
    } else if digest.len() != 64 || fingerprint.len() != 4 {
        Err(ExtendedKeyErrors::InvalidLength)
    } else {
        spec_private_child(
            parent,
            index,
            digest.subrange(0, 32),
            digest.subrange(32, 64),
            fingerprint,
        )
    }
}

/// Writing an extended private key out and reading the payload back gives
/// the same key.
pub proof fn law_extended_private_round_trip(key: ExtendedKeyView)
    requires
        key.wf_private(),
    ensures
        spec_serialize_private(key).len() == 78,
        spec_deserialize_private(spec_serialize_private(key)) == Ok::<
            ExtendedKeyView,
            ExtendedKeyErrors,
        >(key),
{
    let fields = spec_private_payload(key);
    lemma_split_join(fields);
    assert(fields.key_material.subrange(1, 33) =~= key.key);
}

/// The payloads of an extended private key and of its public counterpart
/// hold the same depth, parent fingerprint, child number and chain code, in
/// the same places: they differ in the version and the key material alone.
pub proof fn law_neutered_payload_agrees(secret: ExtendedKeyView)
    requires
        secret.wf_private(),
    ensures
        spec_serialize_private(secret).subrange(4, 45) == spec_serialize_public(
            neuter_spec(secret),
        ).subrange(4, 45),
        spec_serialize_private(secret).subrange(4, 45) == seq![secret.depth]
            + secret.parent_fingerprint + crate::bytes::be_bytes(secret.child_number as nat, 4)
            + secret.chain_code,
{
    let public = neuter_spec(secret);
    crate::bytes::lemma_be_bytes_len(XPRIV_VERSION_BYTE as nat, 4);
    crate::bytes::lemma_be_bytes_len(crate::keypair::XPUB_VERSION_BYTE as nat, 4);
    crate::bytes::lemma_be_bytes_len(secret.child_number as nat, 4);
    let middle = seq![secret.depth] + secret.parent_fingerprint + crate::bytes::be_bytes(
        secret.child_number as nat,
        4,
    ) + secret.chain_code;
    assert(spec_serialize_private(secret).subrange(4, 45) =~= middle);
    assert(spec_serialize_public(public).subrange(4, 45) =~= middle);
}

/// A text whose bytes end in anything but the checksum of the bytes before
/// is refused with `InvalidChecksum` by both readers, whatever else it
/// holds. Changing one character of a key's text lands here unless the
/// changed bytes happen to carry their own checksum.
pub proof fn law_checksum_rejection(text: Seq<char>, data: Seq<u8>)
    requires
        crate::base58::base58_bytes(text) == Some(data),
        data.len() >= 4,
        data.subrange(data.len() - 4, data.len() as int) != crate::base58check::checksum_of(
            data.subrange(0, data.len() - 4),
        ),
    ensures
        spec_private_from_text(text) == Err::<ExtendedKeyView, ExtendedKeyErrors>(
            ExtendedKeyErrors::InvalidChecksum,
        ),
        crate::keypair::extended_public_key::spec_public_from_text(text) == Err::<
            ExtendedKeyView,
            ExtendedKeyErrors,
        >(ExtendedKeyErrors::InvalidChecksum),
{
}

impl ExtendedPrivateKey {
    /// Every extended private key is well-formed.
    #[verifier::type_invariant]
    spec fn wf(&self) -> bool {
        self@.wf_private()
    }

    /// The views inside a result that holds a key.
    pub open spec fn view_result(r: Result<ExtendedPrivateKey, ExtendedKeyErrors>) -> Result<
        ExtendedKeyView,
        ExtendedKeyErrors,
    > {
        match r {
            Ok(key) => Ok(key@),
            Err(e) => Err(e),
        }
    }

    /// The private key.
    pub fn private_key(&self) -> (key: PrivateKey)
        ensures
            key@ == self@.key,
    {
        proof {
            use_type_invariant(self);
        }
        PrivateKey::from_scalar(copy_bytes(self.scalar.as_slice()))
    }

    /// The public key that belongs to the private key, compressed.
    pub fn public_key(&self) -> (key: PublicKey)
        ensures
            key@ == PublicKey::spec_from_private_key(self@.key, true),
    {
        proof {
            use_type_invariant(self);
        }
        PublicKey::from_point(public_point(self.scalar.as_slice(), true), true)
    }

    /// The chain code.
    pub fn chain_code(&self) -> (code: Vec<u8>)
        ensures
            code@ == self@.chain_code,
    {
        copy_bytes(self.chain_code.as_slice())
    }

    /// The number of derivation steps from the master key.
    pub fn depth(&self) -> (depth: u8)
        ensures
            depth == self@.depth,
    {
        self.depth
    }

    /// The fingerprint of the parent's public key; zero for a master key.
    pub fn parent_fingerprint(&self) -> (print: Vec<u8>)
        ensures
            print@ == self@.parent_fingerprint,
    {
        copy_bytes(self.parent_fingerprint.as_slice())
    }

    /// The index at which the key was derived from its parent.
    pub fn child_number(&self) -> (index: u32)
        ensures
            index == self@.child_number,
    {
        self.child_number
    }

    /// The master key that a 64-byte digest gives. Fails with
    /// `InvalidLength` for any other length and with `InvalidScalar` where
    /// the left half is not a scalar in range.
    pub fn master_from_digest(digest: &[u8]) -> (r: Result<ExtendedPrivateKey, ExtendedKeyErrors>)
        ensures
            Self::view_result(r) == spec_master_from_digest(digest@),
            r matches Ok(key) ==> key@.wf_private(),
    {
        if digest.len() != 64 {
            return Err(ExtendedKeyErrors::InvalidLength);
        }
        let il = sub_bytes(digest, 0, 32);
        match parse_scalar(il.as_slice()) {
            Ok(scalar) => {
                let mut zero: Vec<u8> = Vec::new();
                zero.push(0u8);
                zero.push(0u8);
                zero.push(0u8);
                zero.push(0u8);
                proof {
                    assert(zero@ =~= seq![0u8, 0u8, 0u8, 0u8]);
                    lemma_be_nat_zero(zero@);
                }
                Ok(
                    ExtendedPrivateKey {
                        scalar,
                        chain_code: sub_bytes(digest, 32, 64),
                        depth: 0,
                        parent_fingerprint: zero,
                        child_number: 0,
                    },
                )
            },
            Err(_) => Err(ExtendedKeyErrors::InvalidScalar),
        }
    }

    /// The master key of a seed: the HMAC-SHA-512 of the seed under the key
    /// `Bitcoin seed`, split into scalar and chain code. Fails with
    /// `InvalidScalar` where the left half is not a scalar in range.
    pub fn from_seed(seed: &[u8]) -> (r: Result<ExtendedPrivateKey, ExtendedKeyErrors>)
        ensures
            Self::view_result(r) == spec_master_from_digest(
                hmac_sha512_digest(seed_key(), seed@),
            ),
            !(r matches Err(ExtendedKeyErrors::InvalidLength)),
            r matches Ok(key) ==> key@.wf_private(),
    {
        let mut key: Vec<u8> = Vec::new();
        key.push(66u8);
        key.push(105u8);
        key.push(116u8);
        key.push(99u8);
        key.push(111u8);
        key.push(105u8);
        key.push(110u8);
        key.push(32u8);
        key.push(115u8);
        key.push(101u8);
        key.push(101u8);
        key.push(100u8);
        assert(key@ =~= seed_key());
        let digest = hmac_sha512(key.as_slice(), seed);
        Self::master_from_digest(digest.as_slice())
    }

    /// The extended public key that belongs to this key: the scalar gives
    /// way to its public point, every other field stays. Never fails.
    pub fn neuter(&self) -> (public: ExtendedPublicKey)
        ensures
            public@ == neuter_spec(self@),
            self@.wf_private(),
            public@.wf_public(),
    {
        proof {
            use_type_invariant(self);
        }
        ExtendedPublicKey::from_parts(
            public_point(self.scalar.as_slice(), true),
            copy_bytes(self.chain_code.as_slice()),
            self.depth,
            copy_bytes(self.parent_fingerprint.as_slice()),
            self.child_number,
        )
    }

    /// The payload fields of the key.
    pub fn to_payload(&self) -> (fields: Payload)
        ensures
            fields@ == spec_private_payload(self@),
            fields@.framed(),
    {
        proof {
            use_type_invariant(self);
        }
        let mut key_material: Vec<u8> = Vec::new();
        key_material.push(0u8);
        assert(key_material@ =~= seq![0u8]);
        crate::bytes::append_bytes(&mut key_material, self.scalar.as_slice());
        Payload {
            version: XPRIV_VERSION_BYTE,
            depth: self.depth,
            parent_fingerprint: copy_bytes(self.parent_fingerprint.as_slice()),
            child_number: self.child_number,
            chain_code: copy_bytes(self.chain_code.as_slice()),
            key_material,
        }
    }

    /// Reads the key that payload fields hold. Fails with `InvalidLength`
    /// where a field has not its width, `InvalidVersion` where the version is
    /// not the private one, `InvalidMaster` where depth zero comes with a
    /// parent or an index, and `InvalidScalar` where the key material is not
    /// a zero byte before a scalar in range, in that order.
    pub fn from_payload(fields: &Payload) -> (r: Result<ExtendedPrivateKey, ExtendedKeyErrors>)
        ensures
            Self::view_result(r) == spec_private_from_payload(fields@),
            r matches Ok(key) ==> key@.wf_private(),
    {
        if fields.parent_fingerprint.len() != 4 || fields.chain_code.len() != 32
            || fields.key_material.len() != 33 {
            return Err(ExtendedKeyErrors::InvalidLength);
        }
        if fields.version != XPRIV_VERSION_BYTE {
            return Err(ExtendedKeyErrors::InvalidVersion);
        }
        if fields.depth == 0 && (!is_zero(fields.parent_fingerprint.as_slice())
            || fields.child_number != 0) {
            return Err(ExtendedKeyErrors::InvalidMaster);
        }
        if fields.key_material[0] != 0 {
            return Err(ExtendedKeyErrors::InvalidScalar);
        }
        let candidate = sub_bytes(fields.key_material.as_slice(), 1, 33);
        match parse_scalar(candidate.as_slice()) {
            Ok(scalar) => Ok(
                ExtendedPrivateKey {
                    scalar,
                    chain_code: copy_bytes(fields.chain_code.as_slice()),
                    depth: fields.depth,
                    parent_fingerprint: copy_bytes(fields.parent_fingerprint.as_slice()),
                    child_number: fields.child_number,
                },
            ),
            Err(_) => Err(ExtendedKeyErrors::InvalidScalar),
        }
    }

    /// The 78 payload bytes: version, depth, parent fingerprint, child
    /// number, chain code, a zero byte and the scalar.
    pub fn serialize(&self) -> (bytes: Vec<u8>)
        ensures
            bytes@ == spec_serialize_private(self@),
            bytes@.len() == 78,
            spec_deserialize_private(bytes@) == Ok::<ExtendedKeyView, ExtendedKeyErrors>(self@),
    {
        proof {
            use_type_invariant(self);
            law_extended_private_round_trip(self@);
        }
        self.to_payload().join_framed()
    }

    /// Reads a key from its 78 payload bytes.
    pub fn deserialize(bytes: &[u8]) -> (r: Result<ExtendedPrivateKey, ExtendedKeyErrors>)
        ensures
            Self::view_result(r) == spec_deserialize_private(bytes@),
            r matches Ok(key) ==> key@.wf_private(),
    {
        match Payload::split(bytes) {
            Ok(fields) => Self::from_payload(&fields),
            Err(e) => Err(e),
        }
    }

    /// The key as checksummed Base58 text. Reading the text back gives the
    /// key.
    pub fn to_string(&self) -> (text: String)
        ensures
            text@ == spec_private_text(self@),
            spec_private_from_text(text@) == Ok::<ExtendedKeyView, ExtendedKeyErrors>(self@),
    {
        let bytes = self.serialize();
        encode_check(bytes.as_slice())
    }

    /// Reads a key from checksummed Base58 text. Fails with the error of the
    /// first check that the text does not pass: Base58, checksum, then the
    /// checks of the payload.
    pub fn from_string(text: &str) -> (r: Result<ExtendedPrivateKey, ExtendedKeyErrors>)
        ensures
            Self::view_result(r) == spec_private_from_text(text@),
            r matches Ok(key) ==> key@.wf_private(),
    {
        match decode_check(text) {
            Ok(bytes) => Self::deserialize(bytes.as_slice()),
            Err(e) => Err(e),
        }
    }

    /// Puts a child together from the keyed hash of the derivation and the
    /// fingerprint of this key: the scalar `(IL + parent) mod n` under chain
    /// code `IR`.
    pub fn child_from_digest(&self, index: u32, digest: &[u8], fingerprint: &[u8]) -> (r: Result<
        ExtendedPrivateKey,
        ExtendedKeyErrors,
    >)
        ensures
            Self::view_result(r) == spec_private_child_from_digest(
                self@,
                index,
                digest@,
                fingerprint@,
            ),
            r matches Ok(child) ==> child@.wf_private(),
    {
        proof {
            use_type_invariant(self);
        }
        if self.depth == 255 {
            return Err(ExtendedKeyErrors::DepthOverflow);
        }
        if digest.len() != 64 || fingerprint.len() != 4 {
            return Err(ExtendedKeyErrors::InvalidLength);
        }
        let il = sub_bytes(digest, 0, 32);
        let ir = sub_bytes(digest, 32, 64);
        match add_scalars(il.as_slice(), self.scalar.as_slice()) {
            Some(child) => {
                proof {
                    lemma_scalar_sum_value(il@, self.scalar@);
                    lemma_be_nat_injective(child@, scalar_sum(il@, self.scalar@));
                }
                if is_zero(child.as_slice()) {
                    return Err(ExtendedKeyErrors::InvalidChildKey);
                }
                Ok(
                    ExtendedPrivateKey {
                        scalar: child,
                        chain_code: ir,
                        depth: self.depth + 1,
                        parent_fingerprint: copy_bytes(fingerprint),
                        child_number: index,
                    },
                )
            },
            None => Err(ExtendedKeyErrors::InvalidChildKey),
        }
    }

    /// Derives the child at an index: the scalar `(IL + parent) mod n` under
    /// chain code `IR`, for the halves `IL`, `IR` of an HMAC-SHA-512 under
    /// the parent's chain code. A hardened index, one at or above
    /// `HARDENED_KEY_OFFSET`, hashes a zero byte, the parent's scalar and the
    /// index; a normal index hashes the parent's compressed public point and
    /// the index. Fails with `DepthOverflow` at depth 255, else with
    /// `InvalidChildKey` where `IL` is not below the group order or the sum
    /// is zero; it succeeds on every other input.
    pub fn derive_child(&self, index: u32) -> (r: Result<ExtendedPrivateKey, ExtendedKeyErrors>)
        ensures
            Self::view_result(r) == spec_derive_private(self@, index),
            r matches Ok(child) ==> child@.wf_private(),
    {
        proof {
            use_type_invariant(self);
        }
        if self.depth == 255 {
            return Err(ExtendedKeyErrors::DepthOverflow);
        }
        let parent_point = public_point(self.scalar.as_slice(), true);
        let data = if index >= HARDENED_KEY_OFFSET {
            hardened_child_input(self.scalar.as_slice(), index)
        } else {
            normal_child_input(parent_point.as_slice(), index)
        };
        let digest = hmac_sha512(self.chain_code.as_slice(), data.as_slice());
        let print = fingerprint_of_point(parent_point.as_slice());
        self.child_from_digest(index, digest.as_slice(), print.as_slice())
    }
}

} // verus!
