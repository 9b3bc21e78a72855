//! Why a public key could not be read.

use vstd::prelude::*;

verus! {

/// The failures of the readers of a public key.
#[derive(Debug, Clone, Copy, PartialEq, Eq, Structural)]
pub enum PublicKeyErrors {
    /// The bytes are not the SEC1 encoding of a point on the curve.
    InvalidPoint,
    /// The text is not hexadecimal.
    ParseHex,
}

} // verus!
