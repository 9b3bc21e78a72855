//! What the two kinds of extended key share: the fields beside the key
//! material, the 78-byte payload, and the input of the keyed hash from which
//! a child is derived.

use crate::bytes::{
    append_bytes, be_bytes, be_nat, lemma_be_bytes_len, lemma_be_nat_of_be_bytes, radix_pow,
    sub_bytes, u32_from_be_bytes, u32_to_be_bytes,
};
use crate::curve::{is_point, is_scalar};
use crate::keypair::extended_key_errors::ExtendedKeyErrors;
use crate::keypair::HARDENED_KEY_OFFSET;
use vstd::prelude::*;

verus! {

/// What an extended key holds. `key` is the 32-byte scalar of a private key
/// or the 33-byte compressed point of a public one.
pub struct ExtendedKeyView {
    pub key: Seq<u8>,
    pub chain_code: Seq<u8>,
    pub depth: u8,
    pub parent_fingerprint: Seq<u8>,
    pub child_number: u32,
}

impl ExtendedKeyView {
    /// The fields beside the key are in order: a chain code of 32 bytes, a
    /// fingerprint of four, and at depth zero neither a parent nor a child
    /// index.
    pub open spec fn meta_wf(self) -> bool {
        &&& self.chain_code.len() == 32
        &&& self.parent_fingerprint.len() == 4
        &&& self.depth == 0 ==> be_nat(self.parent_fingerprint) == 0 && self.child_number == 0
    }

    /// A well-formed extended private key.
    pub open spec fn wf_private(self) -> bool {
        self.meta_wf() && is_scalar(self.key)
    }

    /// A well-formed extended public key.
    pub open spec fn wf_public(self) -> bool {
        self.meta_wf() && is_point(self.key, true)
    }
}

/// Whether a child index asks for hardened derivation.
pub open spec fn is_hardened(index: u32) -> bool {
    index >= HARDENED_KEY_OFFSET
}

/// The hash input for a hardened child of a private key: a zero byte, the
/// parent's scalar, the index big-endian.
pub open spec fn hardened_input(scalar: Seq<u8>, index: u32) -> Seq<u8> {
    seq![0u8] + scalar + be_bytes(index as nat, 4)
}

/// The hash input for a normal child: the parent's compressed point, the
/// index big-endian.
pub open spec fn normal_input(point: Seq<u8>, index: u32) -> Seq<u8> {
    point + be_bytes(index as nat, 4)
}

/// Builds the hash input for a hardened child.
pub fn hardened_child_input(scalar: &[u8], index: u32) -> (data: Vec<u8>)
    ensures
        data@ == hardened_input(scalar@, index),
{
    let mut data: Vec<u8> = Vec::new();
    data.push(0u8);
    assert(data@ =~= seq![0u8]);
    append_bytes(&mut data, scalar);
    let tail = u32_to_be_bytes(index);
    append_bytes(&mut data, tail.as_slice());
    data
}

/// Builds the hash input for a normal child.
pub fn normal_child_input(point: &[u8], index: u32) -> (data: Vec<u8>)
    ensures
        data@ == normal_input(point@, index),
{
    let mut data: Vec<u8> = Vec::new();
    append_bytes(&mut data, point);
    let tail = u32_to_be_bytes(index);
    append_bytes(&mut data, tail.as_slice());
    assert(data@ =~= point@ + be_bytes(index as nat, 4));
    data
}

/// The six fields of a serialized extended key, as they lie in the payload.
#[derive(Debug, PartialEq, Eq)]
pub struct Payload {
    pub version: u32,
    pub depth: u8,
    pub parent_fingerprint: Vec<u8>,
    pub child_number: u32,
    pub chain_code: Vec<u8>,
    pub key_material: Vec<u8>,
}

/// The fields of a payload as plain values.
pub struct PayloadView {
    pub version: u32,
    pub depth: u8,
    pub parent_fingerprint: Seq<u8>,
    pub child_number: u32,
    pub chain_code: Seq<u8>,
    pub key_material: Seq<u8>,
}

impl View for Payload {
    type V = PayloadView;

    open spec fn view(&self) -> PayloadView {
        PayloadView {
            version: self.version,
            depth: self.depth,
            parent_fingerprint: self.parent_fingerprint@,
            child_number: self.child_number,
            chain_code: self.chain_code@,
            key_material: self.key_material@,
        }
    }
}

impl PayloadView {
    /// Each field has the width of its place in the payload.
    pub open spec fn framed(self) -> bool {
        &&& self.parent_fingerprint.len() == 4
        &&& self.chain_code.len() == 32
        &&& self.key_material.len() == 33
    }

    /// At depth zero there is neither a parent nor a child index.
    pub open spec fn master_ok(self) -> bool {
        self.depth == 0 ==> be_nat(self.parent_fingerprint) == 0 && self.child_number == 0
    }

    /// The fields laid out: version (4, big-endian), depth (1), parent
    /// fingerprint (4), child number (4, big-endian), chain code (32), key
    /// material (33).
    pub open spec fn bytes(self) -> Seq<u8> {
        be_bytes(self.version as nat, 4) + seq![self.depth] + self.parent_fingerprint + be_bytes(
            self.child_number as nat,
            4,
        ) + self.chain_code + self.key_material
    }
}

/// The 78 bytes of a payload; `InvalidLength` where a field has not its
/// width.
pub open spec fn spec_join(fields: PayloadView) -> Result<Seq<u8>, ExtendedKeyErrors> {
    if fields.framed() {
        Ok(fields.bytes())
    } else {
        Err(ExtendedKeyErrors::InvalidLength)
    }
}

/// The fields of a 78-byte payload; `InvalidLength` for any other length.
pub open spec fn spec_split(bytes: Seq<u8>) -> Result<PayloadView, ExtendedKeyErrors> {
    if bytes.len() != 78 {
        Err(ExtendedKeyErrors::InvalidLength)
    } else {
        Ok(
            PayloadView {
                version: be_nat(bytes.subrange(0, 4)) as u32,
                depth: bytes[4],
                parent_fingerprint: bytes.subrange(5, 9),
                child_number: be_nat(bytes.subrange(9, 13)) as u32,
                chain_code: bytes.subrange(13, 45),
                key_material: bytes.subrange(45, 78),
            },
        )
    }
}

/// The views inside a result that holds payload fields.
pub open spec fn payload_result(r: Result<Payload, ExtendedKeyErrors>) -> Result<
    PayloadView,
    ExtendedKeyErrors,
> {
    match r {
        Ok(fields) => Ok(fields@),
        Err(e) => Err(e),
    }
}

/// Laying fields out and splitting the bytes again gives the fields back, and
/// the bytes are 78.
pub proof fn lemma_split_join(fields: PayloadView)
    requires
        fields.framed(),
    ensures
        fields.bytes().len() == 78,
        spec_split(fields.bytes()) == Ok::<PayloadView, ExtendedKeyErrors>(fields),
{
    let bytes = fields.bytes();
    let version = be_bytes(fields.version as nat, 4);
    let child = be_bytes(fields.child_number as nat, 4);
    lemma_be_bytes_len(fields.version as nat, 4);
    lemma_be_bytes_len(fields.child_number as nat, 4);
    assert(radix_pow(4) == 4294967296) by {
        reveal_with_fuel(radix_pow, 5);
    }
    lemma_be_nat_of_be_bytes(fields.version as nat, 4);
    lemma_be_nat_of_be_bytes(fields.child_number as nat, 4);
    assert(bytes.len() == 78);
    assert(bytes.subrange(0, 4) =~= version);
    assert(bytes[4] == fields.depth);
    assert(bytes.subrange(5, 9) =~= fields.parent_fingerprint);
    assert(bytes.subrange(9, 13) =~= child);
    assert(bytes.subrange(13, 45) =~= fields.chain_code);
    assert(bytes.subrange(45, 78) =~= fields.key_material);
}

impl Payload {
    /// Lays fields of the right widths out as the 78 payload bytes.
    pub(crate) fn join_framed(&self) -> (out: Vec<u8>)
        requires
            self@.framed(),
        ensures
            out@ == self@.bytes(),
            out@.len() == 78,
    {
        let mut out = u32_to_be_bytes(self.version);
        out.push(self.depth);
        assert(out@ =~= be_bytes(self.version as nat, 4) + seq![self.depth]);
        append_bytes(&mut out, self.parent_fingerprint.as_slice());
        let child = u32_to_be_bytes(self.child_number);
        append_bytes(&mut out, child.as_slice());
        append_bytes(&mut out, self.chain_code.as_slice());
        append_bytes(&mut out, self.key_material.as_slice());
        proof {
            lemma_split_join(self@);
        }
        out
    }

    /// Lays the fields out as the 78 payload bytes; `InvalidLength` where a
    /// field has not its width.
    pub fn join(&self) -> (r: Result<Vec<u8>, ExtendedKeyErrors>)
        ensures
            crate::base58check::bytes_result(r) == spec_join(self@),
    {
        if self.parent_fingerprint.len() != 4 || self.chain_code.len() != 32
            || self.key_material.len() != 33 {
            return Err(ExtendedKeyErrors::InvalidLength);
        }
        Ok(self.join_framed())
    }

    /// Splits 78 payload bytes into their fields.
    pub fn split(bytes: &[u8]) -> (r: Result<Payload, ExtendedKeyErrors>)
        ensures
            payload_result(r) == spec_split(bytes@),
    {
        if bytes.len() != 78 {
            return Err(ExtendedKeyErrors::InvalidLength);
        }
        let version_bytes = sub_bytes(bytes, 0, 4);
        let child_bytes = sub_bytes(bytes, 9, 13);
        let fields = Payload {
            version: u32_from_be_bytes(version_bytes.as_slice()),
            depth: bytes[4],
            parent_fingerprint: sub_bytes(bytes, 5, 9),
            child_number: u32_from_be_bytes(child_bytes.as_slice()),
            chain_code: sub_bytes(bytes, 13, 45),
            key_material: sub_bytes(bytes, 45, 78),
        };
        Ok(fields)
    }
}

} // verus!
