//! Why an extended key could not be read or derived.

use vstd::prelude::*;

verus! {

/// The failures of reading and deriving extended keys. Each is returned from
/// where it is found and passed on unchanged; nothing is tried again.
#[derive(Debug, Clone, Copy, PartialEq, Eq, Structural)]
pub enum ExtendedKeyErrors {
    /// The text is not Base58.
    Base58Decode,
    /// The last four bytes under the text are not the checksum of the bytes
    /// before them.
    InvalidChecksum,
    /// A payload is not 78 bytes long, or a part handed in has not the length
    /// of its field.
    InvalidLength,
    /// The payload opens with the version of another kind of key.
    InvalidVersion,
    /// The payload stands at depth zero and yet names a parent or a child
    /// index.
    InvalidMaster,
    /// The key material of a public payload is not a compressed point on the
    /// curve.
    InvalidPoint,
    /// The key material of a private payload is not a zero byte and a scalar
    /// in range.
    InvalidScalar,
    /// Derivation gave a left half that is not below the group order, a zero
    /// scalar or the point at infinity. The caller may go on to the next
    /// index; the derivation itself never does.
    InvalidChildKey,
    /// A hardened child was asked of a public key.
    CannotDeriveHardenedFromPublic,
    /// A child was asked of a key at depth 255.
    DepthOverflow,
}

} // verus!
