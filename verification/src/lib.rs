//! Verified core of the React Native bindings for the Signal protocol:
//! the value types that cross the binding boundary, the errors they
//! report, HKDF key derivation, random bytes, and the framing of
//! AES-256-GCM ciphertexts.

pub mod address;
pub mod aead;
pub mod decimal;
pub mod error;
pub mod fingerprint;
pub mod kdf;
pub mod keys;
pub mod operations;
pub mod random;
pub mod records;

pub use address::SignalProtocolAddress;
pub use aead::{append_tag, split_ciphertext_and_tag, AES_GCM_TAG_SIZE};
pub use error::{or_internal_error, or_invalid_key, or_protocol_error, SignalError};
pub use fingerprint::{FINGERPRINT_ITERATIONS, FINGERPRINT_VERSION};
pub use kdf::{hkdf_derive_secrets, hkdf_output, HKDF_SHA256_MAX_OUTPUT};
pub use keys::{SignalIdentityKey, SignalIdentityKeyPair, SignalKeyPair, SignalPrivateKey, SignalPublicKey};
pub use operations::{
    agreement_outcome, fingerprint_display, fingerprint_keys, pre_key_signature, scannable_comparison, signature_outcome,
};
pub use random::generate_random_bytes;
pub use records::{SignalPreKeyRecord, SignalSignedPreKeyRecord};
