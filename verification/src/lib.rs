//! Hierarchical-deterministic key management over secp256k1: private and
//! public keys, extended keys with child derivation, their 78-byte wire
//! format with checksummed Base58 text, and public-key hashes.
//!
//! Every function here is verified against its contract. The curve, the hash
//! functions and the two text codecs are other crates' work: the modules
//! `curve`, `hash`, `hex` and `base58` hold the calls into them, each with a
//! contract that is believed and not proved, and say so at each call.

pub mod address;
pub mod base58;
pub mod base58check;
pub mod bytes;
pub mod curve;
pub mod hash;
pub mod hex;
pub mod keypair;

pub use address::AddressErrors;
pub use keypair::{
    ExtendedKeyErrors, ExtendedKeyView, ExtendedPrivateKey, ExtendedPublicKey, Payload,
    PayloadView, PrivateKey, PrivateKeyErrors, PublicKey, PublicKeyErrors, PublicKeyView,
    HARDENED_KEY_OFFSET, XPRIV_VERSION_BYTE, XPUB_VERSION_BYTE,
};
