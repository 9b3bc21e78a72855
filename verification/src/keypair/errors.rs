//! Why a private key could not be read.

use vstd::prelude::*;

verus! {

/// The failures of the readers of a private key.
#[derive(Debug, Clone, Copy, PartialEq, Eq, Structural)]
pub enum PrivateKeyErrors {
    /// The bytes are not 32 bytes that denote a number `d` with `1 <= d < n`.
    InvalidScalar,
    /// The text is not hexadecimal.
    ParseHex,
}

} // verus!
