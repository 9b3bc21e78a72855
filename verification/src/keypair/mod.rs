//! Private and public keys, and their extended forms.

pub mod derivation;
pub mod errors;
pub mod extended_key;
pub mod extended_key_errors;
pub mod extended_private_key;
pub mod extended_public_key;
pub mod private_key;
pub mod pubkey_errors;
pub mod public_key;

pub use errors::PrivateKeyErrors;
pub use extended_key::{ExtendedKeyView, Payload, PayloadView};
pub use extended_key_errors::ExtendedKeyErrors;
pub use extended_private_key::ExtendedPrivateKey;
pub use extended_public_key::ExtendedPublicKey;
pub use private_key::PrivateKey;
pub use pubkey_errors::PublicKeyErrors;
pub use public_key::{PublicKey, PublicKeyView};

use vstd::prelude::*;

verus! {

/// The first hardened child index: an index at or above it asks for hardened
/// derivation.
pub const HARDENED_KEY_OFFSET: u32 = 0x80000000;

/// The version that opens the payload of an extended private key.
pub const XPRIV_VERSION_BYTE: u32 = 0x0488ade4;

/// The version that opens the payload of an extended public key.
pub const XPUB_VERSION_BYTE: u32 = 0x0488b21e;

} // verus!
