//! Why an address could not be made.

use crate::keypair::pubkey_errors::PublicKeyErrors;
use vstd::prelude::*;

verus! {

/// The failures on the way from a text to an address.
#[derive(Debug, PartialEq, Eq)]
pub enum AddressErrors {
    /// A Base58 text could not be decoded. Kept for callers that read
    /// addresses from text; nothing in this crate raises it.
    Base58Decode { string: String },
    /// The public key under the address was refused.
    PublicKeyError { error: PublicKeyErrors },
    /// The text is not hexadecimal.
    ParseHex { hex: String },
}

} // verus!
