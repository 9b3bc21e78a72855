//! The secp256k1 group as this crate sees it: scalars as 32-byte big-endian
//! numbers below the group order, points as SEC1 byte strings, and the calls
//! into `k256` that compute on them.

use crate::bytes::{be_bytes, be_nat};
use elliptic_curve::sec1::ToEncodedPoint;
use elliptic_curve::PrimeField;
use vstd::prelude::*;

verus! {

/// The error of `elliptic_curve`'s key parsers.
#[verifier::external_type_specification]
#[verifier::external_body]
pub struct ExCurveError(elliptic_curve::Error);

/// The error of `sec1`'s point parser.
#[verifier::external_type_specification]
#[verifier::external_body]
pub struct ExSec1Error(sec1::Error);

/// The order `n` of the secp256k1 group.
pub open spec fn curve_order() -> nat {
    0xFFFFFFFFFFFFFFFFFFFFFFFFFFFFFFFEBAAEDCE6AF48A03BBFD25E8CD0364141nat
}

/// Whether a byte string is a private scalar: 32 bytes that denote a number
/// `d` with `1 <= d < n`.
pub open spec fn is_scalar(bytes: Seq<u8>) -> bool {
    bytes.len() == 32 && 0 < be_nat(bytes) < curve_order()
}

/// The 32-byte string of `(a + b) mod n`.
pub open spec fn scalar_sum(a: Seq<u8>, b: Seq<u8>) -> Seq<u8> {
    be_bytes((be_nat(a) + be_nat(b)) % curve_order(), 32)
}

/// The SEC1 encoding of `d * G`, with or without point compression, for the
/// private scalar `d` that `scalar` denotes, as `k256` computes it.
pub uninterp spec fn secp256k1_public_point(scalar: Seq<u8>, compress: bool) -> Seq<u8>;

/// What `k256` makes of a SEC1 byte string: `None` where it does not decode
/// to a point on the curve other than the identity, else that point encoded
/// anew, with or without compression.
pub uninterp spec fn secp256k1_sec1_point(bytes: Seq<u8>, compress: bool) -> Option<Seq<u8>>;

/// The compressed encoding of `t * G + P` for the point `P` that `point`
/// encodes and the number `t` that `tweak` denotes, as `k256` computes it;
/// `None` where `t` is not below the group order or the sum is the identity.
pub uninterp spec fn secp256k1_tweaked_point(point: Seq<u8>, tweak: Seq<u8>) -> Option<Seq<u8>>;

/// Whether a byte string has the frame of a SEC1 point: a known tag and the
/// length that goes with it.
pub open spec fn sec1_framed(bytes: Seq<u8>) -> bool {
    &&& bytes.len() > 0
    &&& {
        ||| bytes[0] == 0 && bytes.len() == 1
        ||| (bytes[0] == 2 || bytes[0] == 3 || bytes[0] == 5) && bytes.len() == 33
        ||| bytes[0] == 4 && bytes.len() == 65
    }
}

/// Whether a byte string is the encoding of a public point in the given form:
/// 33 bytes under tag 2 or 3 when compressed, 65 bytes under tag 4 when not,
/// which decode to a point on the curve and encode to themselves again.
pub open spec fn is_point(bytes: Seq<u8>, compress: bool) -> bool {
    &&& bytes.len() == (if compress { 33nat } else { 65nat })
    &&& if compress { bytes[0] == 2 || bytes[0] == 3 } else { bytes[0] == 4 }
    &&& secp256k1_sec1_point(bytes, compress) == Some(bytes)
}

/// The public point of the sum of two scalars; `None` where the sum is zero
/// mod `n`.
pub open spec fn public_point_of_sum(scalar: Seq<u8>, tweak: Seq<u8>) -> Option<Seq<u8>> {
    if (be_nat(tweak) + be_nat(scalar)) % curve_order() == 0 {
        None
    } else {
        Some(secp256k1_public_point(scalar_sum(tweak, scalar), true))
    }
}

/// The bytes inside an optional buffer.
pub open spec fn option_bytes(r: Option<Vec<u8>>) -> Option<Seq<u8>> {
    match r {
        Some(v) => Some(v@),
        None => None,
    }
}

/// Calls `k256::SecretKey::from_slice` on 32 bytes and hands back the bytes of
/// the key it made. The source accepts exactly the big-endian numbers `d` with
/// `1 <= d < n`, and `to_bytes` writes the same 32 bytes again.
#[verifier::external_body]
pub(crate) fn parse_scalar(bytes: &[u8]) -> (r: Result<Vec<u8>, elliptic_curve::Error>)
    requires
        bytes@.len() == 32,
    ensures
        match r {
            Ok(scalar) => scalar@ == bytes@ && is_scalar(bytes@),
            Err(_) => !is_scalar(bytes@),
        },
{
    match k256::SecretKey::from_slice(bytes) {
        Ok(key) => Ok(key.to_bytes().to_vec()),
        Err(e) => Err(e),
    }
}

/// Calls `k256::SecretKey::public_key` and encodes the point with
/// `to_encoded_point`. Believed of it: the bytes are a function of scalar and
/// form alone; they are 33 bytes under tag 2 or 3, or 65 bytes under tag 4;
/// and `k256` decodes them to a point that it encodes to the same bytes.
#[verifier::external_body]
pub(crate) fn public_point(scalar: &[u8], compress: bool) -> (point: Vec<u8>)
    requires
        is_scalar(scalar@),
    ensures
        point@ == secp256k1_public_point(scalar@, compress),
        is_point(point@, compress),
{
    let key = k256::SecretKey::from_slice(scalar).expect("a scalar in range");
    key.public_key().to_encoded_point(compress).as_bytes().to_vec()
}

/// Calls `k256::PublicKey::from_sec1_bytes` and encodes the point with
/// `to_encoded_point`. Believed of it: acceptance and bytes are a function of
/// input and form alone; an input without the frame of a SEC1 point, or with
/// the tag of the identity, is refused; the bytes that come out are 33 under
/// tag 2 or 3, or 65 under tag 4; and decoding them and encoding again gives
/// the same bytes.
#[verifier::external_body]
pub(crate) fn sec1_point(bytes: &[u8], compress: bool) -> (r: Result<Vec<u8>, elliptic_curve::Error>)
    ensures
        match r {
            Ok(point) => secp256k1_sec1_point(bytes@, compress) == Some(point@) && is_point(
                point@,
                compress,
            ),
            Err(_) => secp256k1_sec1_point(bytes@, compress) is None,
        },
        !sec1_framed(bytes@) || bytes@[0] == 0 ==> r is Err,
{
    match k256::PublicKey::from_sec1_bytes(bytes) {
        Ok(key) => Ok(key.to_encoded_point(compress).as_bytes().to_vec()),
        Err(e) => Err(e),
    }
}

/// Calls `EncodedPoint::from_bytes`, which checks the tag and the length that
/// the tag asks for and nothing else, and hands back the bytes it kept.
#[verifier::external_body]
pub(crate) fn sec1_frame(bytes: &[u8]) -> (r: Result<Vec<u8>, sec1::Error>)
    ensures
        match r {
            Ok(kept) => kept@ == bytes@ && sec1_framed(bytes@),
            Err(_) => !sec1_framed(bytes@),
        },
{
    match elliptic_curve::sec1::EncodedPoint::<k256::Secp256k1>::from_bytes(bytes) {
        Ok(point) => Ok(point.as_bytes().to_vec()),
        Err(e) => Err(e),
    }
}

/// Reads both operands with `k256::Scalar::from_repr`, adds them with the
/// scalar field's `+` and writes the sum with `to_bytes`. The source refuses
/// an operand that is not below `n` and otherwise gives the 32 big-endian
/// bytes of `(a + b) mod n`.
#[verifier::external_body]
pub(crate) fn add_scalars(a: &[u8], b: &[u8]) -> (r: Option<Vec<u8>>)
    requires
        a@.len() == 32,
        b@.len() == 32,
    ensures
        match r {
            Some(sum) => {
                &&& be_nat(a@) < curve_order()
                &&& be_nat(b@) < curve_order()
                &&& sum@.len() == 32
                &&& be_nat(sum@) == (be_nat(a@) + be_nat(b@)) % curve_order()
            },
            None => be_nat(a@) >= curve_order() || be_nat(b@) >= curve_order(),
        },
{
    let a32: [u8; 32] = a.try_into().ok()?;
    let b32: [u8; 32] = b.try_into().ok()?;
    let x = Option::<k256::Scalar>::from(k256::Scalar::from_repr(a32.into()))?;
    let y = Option::<k256::Scalar>::from(k256::Scalar::from_repr(b32.into()))?;
    Some((x + y).to_bytes().to_vec())
}

/// Computes `t * G + P` with `k256`'s group operations and encodes the sum in
/// compressed form. Believed of it: the outcome is a function of the two
/// byte strings alone; a tweak that is not below `n` is refused; the bytes
/// that come out are a point encoding; and, the group law, where `P` is the
/// public point of a scalar `d`, the sum is the public point of
/// `(t + d) mod n`, and the identity, which is refused, where that is zero.
#[verifier::external_body]
pub(crate) fn tweak_point(point: &[u8], tweak: &[u8]) -> (r: Option<Vec<u8>>)
    requires
        is_point(point@, true),
        tweak@.len() == 32,
    ensures
        option_bytes(r) == secp256k1_tweaked_point(point@, tweak@),
        r matches Some(sum) ==> is_point(sum@, true),
        be_nat(tweak@) >= curve_order() ==> r is None,
        forall|scalar: Seq<u8>|
            is_scalar(scalar) && #[trigger] secp256k1_public_point(scalar, true) == point@
                && be_nat(tweak@) < curve_order() ==> option_bytes(r) == public_point_of_sum(
                scalar,
                tweak@,
            ),
{
    let parent = k256::PublicKey::from_sec1_bytes(point).ok()?;
    let tweak32: [u8; 32] = tweak.try_into().ok()?;
    let t = Option::<k256::Scalar>::from(k256::Scalar::from_repr(tweak32.into()))?;
    let sum = k256::ProjectivePoint::GENERATOR * t + parent.to_projective();
    let key = k256::PublicKey::from_affine(sum.to_affine()).ok()?;
    Some(key.to_encoded_point(true).as_bytes().to_vec())
}

} // verus!
