//! Child derivation as mathematics: what the child of an extended key is, for
//! both kinds of parent, and the laws that tie the two together.

use crate::address::fingerprint_of;
use crate::bytes::{be_nat, lemma_be_nat_of_be_bytes, radix_pow};
use crate::curve::{curve_order, scalar_sum, secp256k1_public_point, secp256k1_tweaked_point};
use crate::hash::hmac_sha512_digest;
use crate::keypair::extended_key::{hardened_input, is_hardened, normal_input, ExtendedKeyView};
use crate::keypair::extended_key_errors::ExtendedKeyErrors;
use vstd::prelude::*;

verus! {

/// The extended public key of an extended private key: the scalar gives way
/// to its compressed public point, every other field stays.
pub open spec fn neuter_spec(secret: ExtendedKeyView) -> ExtendedKeyView {
    ExtendedKeyView { key: secp256k1_public_point(secret.key, true), ..secret }
}

/// A child of `parent` at `index`, one level deeper.
pub open spec fn child_view(
    parent: ExtendedKeyView,
    index: u32,
    key: Seq<u8>,
    chain_code: Seq<u8>,
    fingerprint: Seq<u8>,
) -> ExtendedKeyView {
    ExtendedKeyView {
        key,
        chain_code,
        depth: (parent.depth + 1) as u8,
        parent_fingerprint: fingerprint,
        child_number: index,
    }
}

/// The private child for the two halves `il`, `ir` of the keyed hash: the
/// scalar `(il + parent) mod n` under chain code `ir`. There is none where
/// `il` is not below `n` or the sum is zero.
pub open spec fn spec_private_child(
    parent: ExtendedKeyView,
    index: u32,
    il: Seq<u8>,
    ir: Seq<u8>,
    fingerprint: Seq<u8>,
) -> Result<ExtendedKeyView, ExtendedKeyErrors> {
    if be_nat(il) >= curve_order() || (be_nat(il) + be_nat(parent.key)) % curve_order() == 0 {
        Err(ExtendedKeyErrors::InvalidChildKey)
    } else {
        Ok(child_view(parent, index, scalar_sum(il, parent.key), ir, fingerprint))
    }
}

/// What a private parent feeds the keyed hash: its scalar for a hardened
/// index, its public point for a normal one.
pub open spec fn private_input(parent: ExtendedKeyView, index: u32) -> Seq<u8> {
    if is_hardened(index) {
        hardened_input(parent.key, index)
    } else {
        normal_input(secp256k1_public_point(parent.key, true), index)
    }
}

/// The child of an extended private key at an index.
pub open spec fn spec_derive_private(parent: ExtendedKeyView, index: u32) -> Result<
    ExtendedKeyView,
    ExtendedKeyErrors,
> {
    if parent.depth == 255 {
        Err(ExtendedKeyErrors::DepthOverflow)
    } else {
        let digest = hmac_sha512_digest(parent.chain_code, private_input(parent, index));
        spec_private_child(
            parent,
            index,
            digest.subrange(0, 32),
            digest.subrange(32, 64),
            fingerprint_of(secp256k1_public_point(parent.key, true)),
        )
    }
}

/// The public child for a tweaked point and the right half `ir` of the keyed
/// hash. There is none where the tweak gave no point.
pub open spec fn spec_public_child(
    parent: ExtendedKeyView,
    index: u32,
    tweaked: Option<Seq<u8>>,
    ir: Seq<u8>,
    fingerprint: Seq<u8>,
) -> Result<ExtendedKeyView, ExtendedKeyErrors> {
    match tweaked {
        Some(point) => Ok(child_view(parent, index, point, ir, fingerprint)),
        None => Err(ExtendedKeyErrors::InvalidChildKey),
    }
}

/// The child of an extended public key at an index. A hardened index is
/// refused before anything is computed: no branch takes a public parent and
/// a hardened index any further.
pub open spec fn spec_derive_public(parent: ExtendedKeyView, index: u32) -> Result<
    ExtendedKeyView,
    ExtendedKeyErrors,
> {
    if is_hardened(index) {
        Err(ExtendedKeyErrors::CannotDeriveHardenedFromPublic)
    } else if parent.depth == 255 {
        Err(ExtendedKeyErrors::DepthOverflow)
    } else {
        let digest = hmac_sha512_digest(parent.chain_code, normal_input(parent.key, index));
        spec_public_child(
            parent,
            index,
            secp256k1_tweaked_point(parent.key, digest.subrange(0, 32)),
            digest.subrange(32, 64),
            fingerprint_of(parent.key),
        )
    }
}

/// The public counterpart of the outcome of a private derivation.
pub open spec fn neutered_result(r: Result<ExtendedKeyView, ExtendedKeyErrors>) -> Result<
    ExtendedKeyView,
    ExtendedKeyErrors,
> {
    match r {
        Ok(child) => Ok(neuter_spec(child)),
        Err(e) => Err(e),
    }
}

/// The group order is below `256^32`.
pub proof fn lemma_order_fits()
    ensures
        curve_order() < radix_pow(32),
{
    assert(radix_pow(8) == 0x1_0000_0000_0000_0000) by {
        reveal_with_fuel(radix_pow, 9);
    }
    assert(radix_pow(16) == 0x1_0000_0000_0000_0000 * radix_pow(8)) by {
        reveal_with_fuel(radix_pow, 9);
    }
    assert(radix_pow(24) == 0x1_0000_0000_0000_0000 * radix_pow(16)) by {
        reveal_with_fuel(radix_pow, 9);
    }
    assert(radix_pow(32) == 0x1_0000_0000_0000_0000 * radix_pow(24)) by {
        reveal_with_fuel(radix_pow, 9);
    }
}

/// The sum of two scalars has 32 bytes and denotes `(a + b) mod n`.
pub proof fn lemma_scalar_sum_value(a: Seq<u8>, b: Seq<u8>)
    ensures
        scalar_sum(a, b).len() == 32,
        be_nat(scalar_sum(a, b)) == (be_nat(a) + be_nat(b)) % curve_order(),
        be_nat(scalar_sum(a, b)) < curve_order(),
{
    lemma_order_fits();
    crate::bytes::lemma_be_bytes_len((be_nat(a) + be_nat(b)) % curve_order(), 32);
    lemma_be_nat_of_be_bytes((be_nat(a) + be_nat(b)) % curve_order(), 32);
}

/// Deriving twice from the same parent at the same index gives the same
/// child: the outcome is a function of parent and index alone.
pub proof fn law_derivation_is_deterministic(
    first: ExtendedKeyView,
    second: ExtendedKeyView,
    index: u32,
)
    requires
        first == second,
    ensures
        spec_derive_private(first, index) == spec_derive_private(second, index),
        spec_derive_public(first, index) == spec_derive_public(second, index),
{
}

/// A hardened index is refused for every public parent, whatever it holds.
/// A private parent that is not at depth 255 gives a child at the same index,
/// unless the hash lands on the `InvalidChildKey` case.
pub proof fn law_hardened_exclusivity(
    public: ExtendedKeyView,
    secret: ExtendedKeyView,
    index: u32,
)
    requires
        is_hardened(index),
    ensures
        spec_derive_public(public, index) == Err::<ExtendedKeyView, ExtendedKeyErrors>(
            ExtendedKeyErrors::CannotDeriveHardenedFromPublic,
        ),
        secret.depth < 255 ==> spec_derive_private(secret, index) is Ok || spec_derive_private(
            secret,
            index,
        ) == Err::<ExtendedKeyView, ExtendedKeyErrors>(ExtendedKeyErrors::InvalidChildKey),
{
}

/// A key at depth 255 has no children: a private parent fails with
/// `DepthOverflow` at every index, a public parent at every index that is not
/// hardened.
pub proof fn law_depth_bound(parent: ExtendedKeyView, index: u32)
    requires
        parent.depth == 255,
    ensures
        spec_derive_private(parent, index) == Err::<ExtendedKeyView, ExtendedKeyErrors>(
            ExtendedKeyErrors::DepthOverflow,
        ),
        !is_hardened(index) ==> spec_derive_public(parent, index) == Err::<
            ExtendedKeyView,
            ExtendedKeyErrors,
        >(ExtendedKeyErrors::DepthOverflow),
{
}

/// A child stands one level below its parent and carries the index it was
/// asked at.
pub proof fn law_child_fields(parent: ExtendedKeyView, index: u32)
    ensures
        spec_derive_private(parent, index) matches Ok(child) ==> child.depth == parent.depth + 1
            && child.child_number == index && child.parent_fingerprint == fingerprint_of(
            secp256k1_public_point(parent.key, true),
        ),
        spec_derive_public(parent, index) matches Ok(child) ==> child.depth == parent.depth + 1
            && child.child_number == index && child.parent_fingerprint == fingerprint_of(
            parent.key,
        ),
{
}

} // verus!
