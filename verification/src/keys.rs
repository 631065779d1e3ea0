//! Keys as plain bytes, the form in which they cross the binding boundary.
use vstd::prelude::*;
use crate::error::{or_invalid_key, SignalError};

verus! {

/// A wrapper for public keys that can be passed across the binding boundary.
#[derive(Clone)]
pub struct SignalPublicKey {
    /// The public key bytes (33 bytes for curve25519)
    pub key_bytes: Vec<u8>,
}

/// A wrapper for private keys that can be passed across the binding boundary.
#[derive(Clone)]
pub struct SignalPrivateKey {
    /// The private key bytes (32 bytes for curve25519)
    pub key_bytes: Vec<u8>,
}

/// A key pair containing both public and private keys.
#[derive(Clone)]
pub struct SignalKeyPair {
    pub public_key: SignalPublicKey,
    pub private_key: SignalPrivateKey,
}

/// An identity key used for long-term identity.
#[derive(Clone)]
pub struct SignalIdentityKey {
    pub public_key: SignalPublicKey,
}

/// An identity key pair containing both public and private identity keys.
#[derive(Clone)]
pub struct SignalIdentityKeyPair {
    pub public_key: SignalPublicKey,
    pub private_key: SignalPrivateKey,
}

/// What becomes of a key parse: the key, or `InvalidKey` with the parser's reason.
pub open spec fn key_outcome<K>(parsed: Result<K, String>) -> Result<K, SignalError> {
    match parsed {
        Ok(k) => Ok(k),
        Err(e) => Err(SignalError::InvalidKey { reason: e }),
    }
}

/// What becomes of parsing an identity key pair: the public half is
/// looked at first, so its failure is the one reported when both fail.
pub open spec fn key_pair_outcome<P, Q>(public: Result<P, String>, private: Result<Q, String>) -> Result<(P, Q), SignalError> {
    match public {
        Err(e) => Err(SignalError::InvalidKey { reason: e }),
        Ok(p) => match private {
            Err(e) => Err(SignalError::InvalidKey { reason: e }),
            Ok(q) => Ok((p, q)),
        },
    }
}

impl SignalPublicKey {
    /// Turns a public-key parse outcome into the key, or into `InvalidKey`
    /// carrying the parser's reason. The caller passes the outcome of parsing
    /// `self.key_bytes`; the parse itself is not made here, so nothing
    /// checks that promise.
    pub fn to_public_key<K>(&self, parsed: Result<K, String>) -> (r: Result<K, SignalError>)
        ensures
            r == key_outcome(parsed),
    {
        or_invalid_key(parsed)
    }
}

impl SignalPrivateKey {
    /// Turns a private-key parse outcome into the key, or into `InvalidKey`
    /// carrying the parser's reason. The caller passes the outcome of parsing
    /// `self.key_bytes`; the parse itself is not made here, so nothing
    /// checks that promise.
    pub fn to_private_key<K>(&self, parsed: Result<K, String>) -> (r: Result<K, SignalError>)
        ensures
            r == key_outcome(parsed),
    {
        or_invalid_key(parsed)
    }
}

impl SignalIdentityKey {
    /// An identity key is its public key: a parse outcome decides as for a
    /// public key. The caller passes the outcome of parsing
    /// `self.public_key.key_bytes`; nothing here checks that promise.
    pub fn to_identity_key<K>(&self, parsed: Result<K, String>) -> (r: Result<K, SignalError>)
        ensures
            r == key_outcome(parsed),
    {
        self.public_key.to_public_key(parsed)
    }
}

impl SignalIdentityKeyPair {
    /// Combines the parse outcomes of the public half and the private half,
    /// which the caller passes for `self.public_key` and `self.private_key`.
    /// The public half is checked first: when both fail, its reason is reported.
    pub fn to_identity_key_pair<P, Q>(&self, public: Result<P, String>, private: Result<Q, String>) -> (r: Result<(P, Q), SignalError>)
        ensures
            r == key_pair_outcome(public, private),
    {
        let public_key = match self.public_key.to_public_key(public) {
            Ok(p) => p,
            Err(e) => return Err(e),
        };
        let private_key = match self.private_key.to_private_key(private) {
            Ok(q) => q,
            Err(e) => return Err(e),
        };
        Ok((public_key, private_key))
    }
}

} // verus!
